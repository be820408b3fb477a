//! The HTTP client for the Kiro API and its retry policy.

use vstd::prelude::*;
use crate::error::ApiError;
use crate::text::{owned, push_str};
use vstd::arithmetic::power2::{lemma_pow2_unfold, pow2};

verus! {

#[verifier::external_type_specification]
#[verifier::external_body]
pub struct ExReqwestClient(reqwest::Client);

/// `base` doubled `n` times, that is `base * 2^n`.
pub open spec fn doubled(base: nat, n: nat) -> nat
    decreases n,
{
    if n == 0 {
        base
    } else {
        2 * doubled(base, (n - 1) as nat)
    }
}

proof fn lemma_doubled_monotonic(base: nat, i: nat, j: nat)
    requires
        i <= j,
    ensures
        doubled(base, i) <= doubled(base, j),
    decreases j - i,
{
    if i < j {
        lemma_doubled_monotonic(base, i, (j - 1) as nat);
    }
}

/// A reqwest client for the Kiro API with its retry settings.
pub struct KiroHttpClient {
    pub client: reqwest::Client,
    pub max_retries: u32,
    pub base_delay_ms: u64,
}

/// Builds a reqwest client with `Client::builder`, keeping at most
/// `max_connections` idle connections per host and the given connect and request
/// timeouts in seconds; a failure gives the builder error's text. Nothing is
/// claimed of the result: building can fail (for instance when no TLS backend can
/// be set up), which the outside crate decides.
#[verifier::external_body]
fn build_client(max_connections: usize, connect_timeout: u64, request_timeout: u64) -> (r: Result<reqwest::Client, String>) {
    reqwest::Client::builder()
        .pool_max_idle_per_host(max_connections)
        .connect_timeout(std::time::Duration::from_secs(connect_timeout))
        .timeout(std::time::Duration::from_secs(request_timeout))
        .build()
        .map_err(|e| e.to_string())
}

impl KiroHttpClient {
    /// A client retrying `max_retries` times, from a base delay of one second.
    /// Whether the reqwest client can be built is up to reqwest; when it cannot,
    /// the error reads `Failed to create HTTP client: <reason>`.
    pub fn new(max_connections: usize, connect_timeout: u64, request_timeout: u64, max_retries: u32) -> (r: Result<Self, String>)
        ensures
            r matches Ok(c) ==> c.max_retries == max_retries && c.base_delay_ms == 1000,
            r matches Err(m) ==> m@.len() >= 30 && m@.take(30) == "Failed to create HTTP client: "@,
    {
        match build_client(max_connections, connect_timeout, request_timeout) {
            Ok(client) => Ok(KiroHttpClient { client, max_retries, base_delay_ms: 1000 }),
            Err(reason) => {
                let mut m = owned("Failed to create HTTP client: ");
                push_str(&mut m, reason.as_str());
                proof {
                    reveal_strlit("Failed to create HTTP client: ");
                    assert(m@.take(30) =~= "Failed to create HTTP client: "@);
                }
                Err(m)
            },
        }
    }

    /// The underlying reqwest client.
    pub fn client(&self) -> (r: &reqwest::Client)
        ensures
            *r == self.client,
    {
        &self.client
    }

    /// The retry bookkeeping for one request: `max_retries` retries when
    /// retrying is enabled, none otherwise.
    pub fn retry_state(&self, enable_retry: bool) -> (s: RetryState)
        ensures
            s.attempt == 0,
            s.max_retries == (if enable_retry { self.max_retries } else { 0 }),
            s.base_delay_ms == self.base_delay_ms,
            s.wf(),
    {
        let max_retries = if enable_retry { self.max_retries } else { 0 };
        RetryState { attempt: 0, max_retries, base_delay_ms: self.base_delay_ms }
    }
}

/// What came back from one send of a request.
pub enum Outcome {
    /// A response with this HTTP status code.
    Status(u16),
    /// No response: the transport failed (timed out, could not connect, or otherwise).
    Transport { timeout: bool, connect: bool },
}

/// What to do after a send.
pub enum RetryDecision {
    /// Hand the response to the caller.
    Deliver,
    /// Wait this many milliseconds (before jitter) and send again.
    Retry { delay_ms: u64 },
    /// Fail with the response's status and body.
    FailStatus { status: u16 },
    /// Fail with the transport error.
    FailTransport,
}

/// Whether a status code is a success (2xx).
pub open spec fn is_success(status: u16) -> bool {
    200 <= status && status <= 299
}

/// Whether a status code is worth retrying: 429 and every 5xx.
pub open spec fn is_retryable_status(status: u16) -> bool {
    status == 429 || (500 <= status && status <= 599)
}

/// The retry bookkeeping of one request.
pub struct RetryState {
    pub attempt: u32,
    pub max_retries: u32,
    pub base_delay_ms: u64,
}

impl RetryState {
    /// The attempt count stays within the retry budget.
    pub open spec fn wf(self) -> bool {
        self.attempt <= self.max_retries
    }

    /// Whether an outcome is retried: 429, 5xx or a transport failure, while
    /// retries remain.
    pub open spec fn retries(self, outcome: Outcome) -> bool {
        self.attempt < self.max_retries && match outcome {
            Outcome::Status(s) => !is_success(s) && is_retryable_status(s),
            Outcome::Transport { .. } => true,
        }
    }

    /// The backoff delay before the next retry, `base * 2^attempt`
    /// milliseconds, fits in 64 bits.
    pub open spec fn delay_fits(self) -> bool {
        doubled(self.base_delay_ms as nat, self.attempt as nat) <= u64::MAX
    }

    /// The decision for an outcome: successes are delivered; 429, 5xx and
    /// transport failures are retried while retries remain, with a delay of
    /// `base * 2^attempt` milliseconds; everything else fails.
    pub open spec fn decision(self, outcome: Outcome) -> RetryDecision {
        match outcome {
            Outcome::Status(s) => if is_success(s) {
                RetryDecision::Deliver
            } else if is_retryable_status(s) && self.attempt < self.max_retries {
                RetryDecision::Retry { delay_ms: doubled(self.base_delay_ms as nat, self.attempt as nat) as u64 }
            } else {
                RetryDecision::FailStatus { status: s }
            },
            Outcome::Transport { .. } => if self.attempt < self.max_retries {
                RetryDecision::Retry { delay_ms: doubled(self.base_delay_ms as nat, self.attempt as nat) as u64 }
            } else {
                RetryDecision::FailTransport
            },
        }
    }

    /// Fresh bookkeeping: no attempt made yet.
    pub fn new(max_retries: u32, base_delay_ms: u64) -> (s: Self)
        ensures
            s.attempt == 0,
            s.max_retries == max_retries,
            s.base_delay_ms == base_delay_ms,
            s.wf(),
    {
        RetryState { attempt: 0, max_retries, base_delay_ms }
    }

    /// The backoff delay before the retry that follows the current attempt,
    /// `base * 2^attempt` milliseconds, without jitter.
    pub fn backoff_delay(&self) -> (d: u64)
        requires
            self.delay_fits(),
        ensures
            d == doubled(self.base_delay_ms as nat, self.attempt as nat),
    {
        let mut d = self.base_delay_ms;
        let mut i: u32 = 0;
        while i < self.attempt
            invariant
                i <= self.attempt,
                d == doubled(self.base_delay_ms as nat, i as nat),
                doubled(self.base_delay_ms as nat, self.attempt as nat) <= u64::MAX,
            decreases self.attempt - i,
        {
            proof {
                lemma_doubled_monotonic(self.base_delay_ms as nat, (i + 1) as nat, self.attempt as nat);
            }
            d = d * 2;
            i = i + 1;
        }
        d
    }

    /// Whether deciding on `outcome` is safe: when it is retried, the backoff
    /// delay fits in 64 bits (where a plain `u64` computation would overflow).
    pub fn can_decide(&self, outcome: &Outcome) -> (r: bool)
        ensures
            r == (self.retries(*outcome) ==> self.delay_fits()),
    {
        let retried = self.attempt < self.max_retries && match outcome {
            Outcome::Status(s) => !(200 <= *s && *s <= 299) && (*s == 429 || (500 <= *s && *s <= 599)),
            Outcome::Transport { .. } => true,
        };
        if !retried {
            return true;
        }
        let mut d = self.base_delay_ms;
        let mut i: u32 = 0;
        while i < self.attempt
            invariant
                i <= self.attempt,
                d == doubled(self.base_delay_ms as nat, i as nat),
                self.retries(*outcome),
            decreases self.attempt - i,
        {
            assert(doubled(self.base_delay_ms as nat, (i + 1) as nat) == 2 * d);
            match d.checked_mul(2) {
                Some(next) => d = next,
                None => {
                    proof {
                        lemma_doubled_monotonic(self.base_delay_ms as nat, (i + 1) as nat, self.attempt as nat);
                    }
                    return false;
                },
            }
            i = i + 1;
        }
        true
    }

    /// Takes the outcome of a send and decides (see [`RetryState::decision`]);
    /// a retry uses up one attempt.
    pub fn on_outcome(&mut self, outcome: &Outcome) -> (d: RetryDecision)
        requires
            old(self).wf(),
            old(self).retries(*outcome) ==> old(self).delay_fits(),
        ensures
            d == old(self).decision(*outcome),
            final(self).wf(),
            final(self).max_retries == old(self).max_retries,
            final(self).base_delay_ms == old(self).base_delay_ms,
            final(self).attempt == (if d is Retry { old(self).attempt + 1 } else { old(self).attempt as int }),
    {
        let retry = match outcome {
            Outcome::Status(s) => {
                if 200 <= *s && *s <= 299 {
                    return RetryDecision::Deliver;
                }
                (*s == 429 || (500 <= *s && *s <= 599)) && self.attempt < self.max_retries
            },
            Outcome::Transport { .. } => self.attempt < self.max_retries,
        };
        if retry {
            let delay_ms = self.backoff_delay();
            self.attempt = self.attempt + 1;
            RetryDecision::Retry { delay_ms }
        } else {
            match outcome {
                Outcome::Status(s) => RetryDecision::FailStatus { status: *s },
                Outcome::Transport { .. } => RetryDecision::FailTransport,
            }
        }
    }
}

/// Bounded retries: a request is retried only while retries remain and only
/// for 429, 5xx or a transport failure; a success is never retried. Since each
/// retry uses up one attempt and the attempt count never exceeds the budget, a
/// request is sent at most `max_retries + 1` times.
pub proof fn law_retries_bounded(s: RetryState, outcome: Outcome)
    requires
        s.wf(),
    ensures
        s.decision(outcome) is Retry ==> s.attempt < s.max_retries,
        s.decision(outcome) is Retry ==> (outcome is Transport || (outcome matches Outcome::Status(c)
            && is_retryable_status(c))),
        (outcome matches Outcome::Status(c) && is_success(c)) ==> s.decision(outcome) is Deliver,
{
}

proof fn lemma_doubled_is_power(base: nat, n: nat)
    ensures
        doubled(base, n) == base * pow2(n),
    decreases n,
{
    if n == 0 {
        vstd::arithmetic::power::lemma_pow0(2);
        assert(pow2(0) == 1);
        assert(base * 1 == base);
    } else {
        lemma_doubled_is_power(base, (n - 1) as nat);
        lemma_pow2_unfold(n);
        assert(base * (2 * pow2((n - 1) as nat)) == 2 * (base * pow2((n - 1) as nat))) by (nonlinear_arith);
        assert(doubled(base, n) == 2 * doubled(base, (n - 1) as nat));
    }
}

/// Which answers are retried, and after how long: a response with status 429,
/// or any status from 500 to 599, is retried exactly while retries remain, after
/// `base * 2^attempt` milliseconds; no other status is ever retried.
pub proof fn law_retried_statuses(st: RetryState, status: u16)
    ensures
        (st.decision(Outcome::Status(status)) is Retry) <==> (st.attempt < st.max_retries && (status == 429 || (500
            <= status && status <= 599))),
        st.attempt < st.max_retries && (status == 429 || (500 <= status && status <= 599)) ==> st.decision(
            Outcome::Status(status),
        ) == (RetryDecision::Retry { delay_ms: (st.base_delay_ms * pow2(st.attempt as nat)) as u64 }),
        !(200 <= status && status <= 299) && !(st.attempt < st.max_retries && (status == 429 || (500 <= status
            && status <= 599))) ==> st.decision(Outcome::Status(status)) == (RetryDecision::FailStatus { status }),
{
    lemma_doubled_is_power(st.base_delay_ms as nat, st.attempt as nat);
}

/// A transport failure is retried exactly while retries remain, after
/// `base * 2^attempt` milliseconds, and fails once they are used up.
pub proof fn law_transport_failures_retried(st: RetryState, timeout: bool, connect: bool)
    ensures
        st.attempt < st.max_retries ==> st.decision(Outcome::Transport { timeout, connect }) == (RetryDecision::Retry {
            delay_ms: (st.base_delay_ms * pow2(st.attempt as nat)) as u64,
        }),
        st.attempt >= st.max_retries ==> st.decision(Outcome::Transport { timeout, connect })
            == RetryDecision::FailTransport,
{
    lemma_doubled_is_power(st.base_delay_ms as nat, st.attempt as nat);
}

/// The kind of a transport failure, as logged and reported.
pub open spec fn error_kind(timeout: bool, connect: bool) -> Seq<char> {
    if timeout {
        "timeout"@
    } else if connect {
        "connection_failed"@
    } else {
        "unknown"@
    }
}

/// The error answered when a request failed with a non-retried status: the
/// status and the response body.
pub fn status_error(status: u16, body: String) -> (e: ApiError)
    ensures
        e == (ApiError::KiroApiError { status, message: body }),
{
    ApiError::KiroApiError { status, message: body }
}

/// The error answered when the transport failed for good:
/// `HTTP request failed: <error> (kind: <kind>)`.
pub fn transport_error(error_text: &str, timeout: bool, connect: bool) -> (e: ApiError)
    ensures
        e matches ApiError::Internal(m) && m@ == "HTTP request failed: "@ + error_text@ + " (kind: "@
            + error_kind(timeout, connect) + ")"@,
{
    let kind = if timeout {
        "timeout"
    } else if connect {
        "connection_failed"
    } else {
        "unknown"
    };
    let mut m = owned("HTTP request failed: ");
    push_str(&mut m, error_text);
    push_str(&mut m, " (kind: ");
    push_str(&mut m, kind);
    push_str(&mut m, ")");
    ApiError::Internal(m)
}

} // verus!
