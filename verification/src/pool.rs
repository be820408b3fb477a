//! Round-robin scheduling over the admin token pool and shared user tokens.

use vstd::prelude::*;
use crate::db::{KiroTokenRow, PoolEntryRow};
use crate::text::{concat, owned};

verus! {

/// A selected pool entry: its id, access token and region.
#[derive(Clone, Debug)]
pub struct PoolToken {
    pub pool_id: String,
    pub access_token: String,
    pub region: String,
}

/// Round-robin scheduler over a cached list of usable pool entries. Time is
/// given in whole seconds of a monotonic clock.
pub struct PoolScheduler {
    pub cache: Vec<PoolEntryRow>,
    pub last_refresh: Option<u64>,
    pub index: usize,
    pub cache_ttl: u64,
}

/// The pool entry a shared user token takes part as.
pub open spec fn shared_entry_ok(t: KiroTokenRow, e: PoolEntryRow) -> bool {
    &&& e.id@ == "user:"@ + t.user_id@
    &&& e.label@ == "shared:"@ + t.user_id@
    &&& e.refresh_token == t.refresh_token
    &&& e.access_token == t.access_token
    &&& e.token_expiry == t.token_expiry
    &&& e.client_id == t.client_id
    &&& e.client_secret == t.client_secret
    &&& e.sso_region == t.sso_region
    &&& e.enabled
    &&& e.last_used is None
    &&& e.created_at == t.updated_at
}

impl PoolScheduler {
    /// A scheduler with an empty, stale cache, index 0 and a five-minute TTL.
    pub fn new() -> (s: Self)
        ensures
            s.cache@.len() == 0,
            s.last_refresh is None,
            s.index == 0,
            s.cache_ttl == 300,
    {
        PoolScheduler { cache: Vec::new(), last_refresh: None, index: 0, cache_ttl: 300 }
    }

    /// Whether the cache must be reloaded at time `now`: never loaded or
    /// invalidated, or loaded at least one TTL ago.
    pub fn needs_refresh(&self, now: u64) -> (r: bool)
        ensures
            r == match self.last_refresh {
                None => true,
                Some(t) => (if now >= t {
                    now - t
                } else {
                    0
                }) >= self.cache_ttl,
            },
    {
        match self.last_refresh {
            None => true,
            Some(t) => {
                let elapsed = if now >= t {
                    now - t
                } else {
                    0
                };
                elapsed >= self.cache_ttl
            },
        }
    }

    /// Reloads the cache at time `now` from the enabled pool entries followed by
    /// the shared user tokens, each shared token taking part as entry
    /// `user:<id>` labelled `shared:<id>`.
    pub fn install(&mut self, enabled: Vec<PoolEntryRow>, shared: Vec<KiroTokenRow>, now: u64)
        ensures
            final(self).cache@.len() == enabled@.len() + shared@.len(),
            forall|i: int| 0 <= i < enabled@.len() ==> final(self).cache@[i] == enabled@[i],
            forall|j: int|
                0 <= j < shared@.len() ==> shared_entry_ok(
                    shared@[j],
                    #[trigger] final(self).cache@[enabled@.len() + j],
                ),
            final(self).last_refresh == Some(now),
            final(self).index == old(self).index,
            final(self).cache_ttl == old(self).cache_ttl,
    {
        let mut entries = enabled;
        let n = entries.len();
        let mut shared = shared;
        let ghost shared0 = shared@;
        let ghost enabled0 = entries@;
        let mut j: usize = 0;
        assert(shared0.len() == shared.len());
        while shared.len() > 0
            invariant
                shared0.len() <= usize::MAX,
                n == enabled0.len(),
                shared@ == shared0.subrange(j as int, shared0.len() as int),
                j <= shared0.len(),
                entries@.len() == n + j,
                forall|i: int| 0 <= i < n ==> entries@[i] == enabled0[i],
                forall|k: int| 0 <= k < j ==> shared_entry_ok(shared0[k], #[trigger] entries@[n + k]),
            decreases shared0.len() - j,
        {
            let t = shared.remove(0);
            assert(t == shared0[j as int]);
            let e = PoolEntryRow {
                id: concat("user:", t.user_id.as_str()),
                label: concat("shared:", t.user_id.as_str()),
                refresh_token: t.refresh_token,
                access_token: t.access_token,
                token_expiry: t.token_expiry,
                client_id: t.client_id,
                client_secret: t.client_secret,
                sso_region: t.sso_region,
                enabled: true,
                last_used: None,
                created_at: t.updated_at,
            };
            entries.push(e);
            assert(shared@ =~= shared0.subrange(j + 1, shared0.len() as int));
            j += 1;
        }
        self.cache = entries;
        self.last_refresh = Some(now);
    }

    /// Marks the cache stale so that the next request reloads it.
    pub fn invalidate_cache(&mut self)
        ensures
            final(self).last_refresh is None,
            final(self).cache == old(self).cache,
            final(self).index == old(self).index,
            final(self).cache_ttl == old(self).cache_ttl,
    {
        self.last_refresh = None;
    }

    /// The next entry in round-robin order. With an empty cache: `None`, and the
    /// index stays. Otherwise the index advances (wrapping), and the search starts
    /// at slot `index % len` and goes round the cache once: the first entry that
    /// holds an access token is chosen (see [`selected_slot`]), giving its id,
    /// token and region (the default region when it has none). The result is
    /// `None` exactly when no cached entry holds a token.
    pub fn next_token(&mut self, default_region: &str) -> (r: Option<PoolToken>)
        ensures
            final(self).cache == old(self).cache,
            final(self).last_refresh == old(self).last_refresh,
            final(self).cache_ttl == old(self).cache_ttl,
            old(self).cache@.len() == 0 ==> final(self).index == old(self).index,
            old(self).cache@.len() > 0 ==> final(self).index == (if old(self).index == usize::MAX {
                0
            } else {
                old(self).index + 1
            }),
            r is None <==> forall|i: int|
                0 <= i < old(self).cache@.len() ==> !(#[trigger] has_token(old(self).cache@[i])),
            r matches Some(p) ==> {
                let slot = selected_slot(old(self).cache@, old(self).index as int).unwrap();
                let e = old(self).cache@[slot];
                &&& selected_slot(old(self).cache@, old(self).index as int) is Some
                &&& e.access_token matches Some(tok) && p.access_token@ == tok@
                &&& p.pool_id@ == e.id@
                &&& p.region@ == match e.sso_region {
                    Some(reg) => reg@,
                    None => default_region@,
                }
            },
    {
        let len = self.cache.len();
        let ghost cache = self.cache@;
        if len == 0 {
            return None;
        }
        let start = self.index % len;
        self.index = if self.index == usize::MAX {
            0
        } else {
            self.index + 1
        };
        let ghost next_index = self.index;
        let mut k: usize = 0;
        while k < len
            invariant
                len == cache.len(),
                self.cache == old(self).cache,
                self.cache@ == cache,
                self.last_refresh == old(self).last_refresh,
                self.cache_ttl == old(self).cache_ttl,
                self.index == next_index,
                next_index == (if old(self).index == usize::MAX {
                    0
                } else {
                    old(self).index + 1
                }),
                start as int == (old(self).index as int) % (len as int),
                start < len,
                k <= len,
                token_offset(cache, start as int, 0) == token_offset(cache, start as int, k as nat),
                forall|j: int| 0 <= j < k ==> !has_token(#[trigger] cache[wrap(start as int, j, len as int)]),
            decreases len - k,
        {
            let slot = if k < len - start {
                start + k
            } else {
                k - (len - start)
            };
            assert(slot == wrap(start as int, k as int, len as int));
            let entry = &self.cache[slot];
            match &entry.access_token {
                Some(tok) => {
                    let region = match &entry.sso_region {
                        Some(reg) => reg.clone(),
                        None => owned(default_region),
                    };
                    proof {
                        lemma_token_offset_found(cache, start as int, k as nat);
                        lemma_some_token(cache, slot as int);
                    }
                    return Some(PoolToken { pool_id: entry.id.clone(), access_token: tok.clone(), region });
                },
                None => {},
            }
            k += 1;
        }
        proof {
            lemma_no_token_anywhere(cache, start as int);
        }
        None
    }
}

/// Whether an entry holds an access token.
pub open spec fn has_token(e: PoolEntryRow) -> bool {
    e.access_token is Some
}

/// The slot `k` places after `start` among `len` slots, going round once
/// (for `start`, `k` below `len`).
pub open spec fn wrap(start: int, k: int, len: int) -> int {
    if start + k < len {
        start + k
    } else {
        start + k - len
    }
}

/// The offset from `start`, counting from `k`, of the first slot whose entry
/// holds a token, if any holds one before the search has gone round once.
pub open spec fn token_offset(cache: Seq<PoolEntryRow>, start: int, k: nat) -> Option<int>
    decreases cache.len() - k,
{
    if k >= cache.len() {
        None
    } else if has_token(cache[wrap(start, k as int, cache.len() as int)]) {
        Some(k as int)
    } else {
        token_offset(cache, start, k + 1)
    }
}

/// The slot that a selection with round-robin index `index` returns: the first
/// slot holding a token, starting at `index % len` and going round once.
pub open spec fn selected_slot(cache: Seq<PoolEntryRow>, index: int) -> Option<int> {
    if cache.len() == 0 {
        None
    } else {
        let start = index % (cache.len() as int);
        match token_offset(cache, start, 0) {
            Some(k) => Some(wrap(start, k, cache.len() as int)),
            None => None,
        }
    }
}

proof fn lemma_token_offset_found(cache: Seq<PoolEntryRow>, start: int, k: nat)
    requires
        k < cache.len(),
        has_token(cache[wrap(start, k as int, cache.len() as int)]),
    ensures
        token_offset(cache, start, k) == Some(k as int),
{
}

proof fn lemma_some_token(cache: Seq<PoolEntryRow>, slot: int)
    requires
        0 <= slot < cache.len(),
        has_token(cache[slot]),
    ensures
        !(forall|i: int| 0 <= i < cache.len() ==> !(#[trigger] has_token(cache[i]))),
{
}

proof fn lemma_no_token_anywhere(cache: Seq<PoolEntryRow>, start: int)
    requires
        0 <= start < cache.len(),
        forall|j: int| 0 <= j < cache.len() ==> !has_token(#[trigger] cache[wrap(start, j, cache.len() as int)]),
    ensures
        forall|i: int| 0 <= i < cache.len() ==> !(#[trigger] has_token(cache[i])),
{
    let n = cache.len() as int;
    assert forall|i: int| 0 <= i < n implies !(#[trigger] has_token(cache[i])) by {
        let j = if i >= start {
            i - start
        } else {
            i + n - start
        };
        assert(wrap(start, j, n) == i);
        assert(!has_token(cache[wrap(start, j, n)]));
    }
}

/// Every entry holding a token is served: starting from index `c`, among the
/// next `n` selections over an unchanged cache of `n` entries (as long as the
/// index does not wrap), each entry that holds a token is the one returned at
/// least once.
pub proof fn law_token_holders_served(cache: Seq<PoolEntryRow>, c: int)
    requires
        cache.len() > 0,
        c >= 0,
    ensures
        forall|e: int|
            0 <= e < cache.len() && has_token(cache[e]) ==> exists|j: int|
                0 <= j < cache.len() && #[trigger] selected_slot(cache, c + j) == Some(e),
{
    let n = cache.len() as int;
    law_round_robin_visits_each_once(c, n);
    assert forall|e: int| 0 <= e < n && has_token(cache[e]) implies exists|j: int|
        0 <= j < n && #[trigger] selected_slot(cache, c + j) == Some(e) by {
        assert(slot_visited(c, n, e));
        let j = choose|j: int| 0 <= j < n && #[trigger] round_robin_slot(c + j, n) == e;
        assert((c + j) % n == e);
        assert(wrap(e, 0, n) == e);
        assert(token_offset(cache, e, 0) == Some(0int));
        assert(selected_slot(cache, c + j) == Some(e));
    }
}

/// The cache slot that index `index` selects among `len` entries.
pub open spec fn round_robin_slot(index: int, len: int) -> int {
    index % len
}

/// Whether one of the `n` selections starting at index `c` picks slot `e`.
pub open spec fn slot_visited(c: int, n: int, e: int) -> bool {
    exists|j: int| 0 <= j < n && #[trigger] round_robin_slot(c + j, n) == e
}

/// Round-robin fairness: starting from index `c`, `n` consecutive selections
/// over an unchanged cache of `n` entries pick every entry exactly once (as long
/// as the index does not wrap).
pub proof fn law_round_robin_visits_each_once(c: int, n: int)
    requires
        n > 0,
        c >= 0,
    ensures
        forall|j: int, k: int|
            0 <= j < n && 0 <= k < n && j != k ==> #[trigger] round_robin_slot(c + j, n)
                != #[trigger] round_robin_slot(c + k, n),
        forall|e: int| 0 <= e < n ==> #[trigger] slot_visited(c, n, e),
{
    assert forall|j: int, k: int|
        0 <= j < n && 0 <= k < n && j != k implies #[trigger] round_robin_slot(c + j, n)
        != #[trigger] round_robin_slot(c + k, n) by {
        if (c + j) % n == (c + k) % n {
            vstd::arithmetic::div_mod::lemma_fundamental_div_mod(c + j, n);
            vstd::arithmetic::div_mod::lemma_fundamental_div_mod(c + k, n);
            let qj = (c + j) / n;
            let qk = (c + k) / n;
            assert(n * qj - n * qk == j - k);
            vstd::arithmetic::mul::lemma_mul_is_distributive_sub(n, qj, qk);
            if qj - qk >= 1 {
                assert(n * (qj - qk) >= n) by (nonlinear_arith)
                    requires
                        qj - qk >= 1,
                        n > 0,
                ;
            } else if qj - qk <= -1 {
                assert(n * (qj - qk) <= -n) by (nonlinear_arith)
                    requires
                        qj - qk <= -1,
                        n > 0,
                ;
            }
        }
    }
    assert forall|e: int| 0 <= e < n implies #[trigger] slot_visited(c, n, e) by {
        let r = c % n;
        vstd::arithmetic::div_mod::lemma_fundamental_div_mod(c, n);
        let q = c / n;
        let j = if e >= r {
            e - r
        } else {
            e - r + n
        };
        let q2 = if e >= r {
            q
        } else {
            q + 1
        };
        assert(c + j == n * q2 + e) by (nonlinear_arith)
            requires
                c == n * q + r,
                j == if e >= r { e - r } else { e - r + n },
                q2 == if e >= r { q } else { q + 1 },
        ;
        vstd::arithmetic::div_mod::lemma_mod_multiples_vanish(q2, e, n);
        vstd::arithmetic::div_mod::lemma_small_mod(e as nat, n as nat);
        assert(round_robin_slot(c + j, n) == e);
    }
}

} // verus!
