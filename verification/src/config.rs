//! Proxy configuration: defaults, environment values and validation.

use vstd::prelude::*;
use crate::text::{chars_of, int_text, lowercase, owned, parse_u16, parse_u16_spec, push_i64, push_str, str_eq, to_lowercase};

verus! {

/// How reasoning produced by the fake-reasoning mode is handed back.
#[derive(Clone, Copy, Debug, PartialEq, Eq, Structural)]
pub enum FakeReasoningHandling {
    AsReasoningContent,
    Remove,
    Pass,
    StripTags,
}

/// How much of the traffic is logged for debugging.
#[derive(Clone, Copy, Debug, PartialEq, Eq, Structural)]
pub enum DebugMode {
    Off,
    Errors,
    All,
}

/// The proxy's configuration.
#[derive(Clone)]
pub struct Config {
    pub server_host: String,
    pub server_port: u16,
    pub proxy_api_key: String,
    pub database_url: Option<String>,
    pub kiro_region: String,
    pub kiro_sso_region: Option<String>,
    pub kiro_refresh_token: Option<String>,
    pub kiro_client_id: Option<String>,
    pub kiro_client_secret: Option<String>,
    pub token_refresh_threshold: u64,
    pub first_token_timeout: u64,
    pub http_max_connections: usize,
    pub http_connect_timeout: u64,
    pub http_request_timeout: u64,
    pub http_max_retries: u32,
    pub debug_mode: DebugMode,
    pub log_level: String,
    pub tool_description_max_length: usize,
    pub fake_reasoning_enabled: bool,
    pub fake_reasoning_max_tokens: u32,
    pub fake_reasoning_handling: FakeReasoningHandling,
    pub truncation_recovery: bool,
    pub enable_conversation_log: bool,
}

/// The environment variables the configuration is read from, as found
/// (`None` when unset or not Unicode).
pub struct EnvValues {
    pub server_host: Option<String>,
    pub server_port: Option<String>,
    pub proxy_api_key: Option<String>,
    pub database_url: Option<String>,
    pub kiro_region: Option<String>,
    pub kiro_sso_region: Option<String>,
    pub kiro_refresh_token: Option<String>,
    pub kiro_client_id: Option<String>,
    pub kiro_client_secret: Option<String>,
    pub debug_mode: Option<String>,
    pub log_level: Option<String>,
    pub enable_conversation_log: Option<String>,
}

/// The settings every configuration starts from, the same in
/// [`Config::with_defaults`] and [`Config::from_env_values`].
pub open spec fn fixed_settings_ok(c: Config) -> bool {
    &&& c.token_refresh_threshold == 300
    &&& c.first_token_timeout == 15
    &&& c.http_max_connections == 20
    &&& c.http_connect_timeout == 30
    &&& c.http_request_timeout == 300
    &&& c.http_max_retries == 3
    &&& c.tool_description_max_length == 10000
    &&& c.fake_reasoning_max_tokens == 4000
    &&& c.fake_reasoning_handling == FakeReasoningHandling::AsReasoningContent
    &&& c.truncation_recovery
}

/// A value that counts only when it is not empty.
pub open spec fn non_empty(v: Option<String>) -> Option<Seq<char>> {
    match v {
        Some(s) => if s@.len() > 0 {
            Some(s@)
        } else {
            None
        },
        None => None,
    }
}

/// The text of an optional string.
pub open spec fn opt_view(v: Option<String>) -> Option<Seq<char>> {
    match v {
        Some(s) => Some(s@),
        None => None,
    }
}

/// A value, or a default when it is missing.
pub open spec fn or_default(v: Option<String>, d: Seq<char>) -> Seq<char> {
    match v {
        Some(s) => s@,
        None => d,
    }
}

/// The debug mode named by a lowercased text: `errors`, `all`, anything else off.
pub open spec fn debug_mode_named(lower: Seq<char>) -> DebugMode {
    if lower == "errors"@ {
        DebugMode::Errors
    } else if lower == "all"@ {
        DebugMode::All
    } else {
        DebugMode::Off
    }
}

fn keep_non_empty(v: Option<String>) -> (r: Option<String>)
    ensures
        opt_view(r) == non_empty(v),
{
    match v {
        Some(s) => if s.as_str().is_empty() {
            None
        } else {
            Some(s)
        },
        None => None,
    }
}

fn value_or(v: Option<String>, d: &str) -> (r: String)
    ensures
        r@ == or_default(v, d@),
{
    match v {
        Some(s) => s,
        None => owned(d),
    }
}

/// The debug mode named by an already lowercased text (see [`debug_mode_named`]).
pub fn debug_mode_of_lowercase(lower: &str) -> (m: DebugMode)
    ensures
        m == debug_mode_named(lower@),
{
    if str_eq(lower, "errors") {
        DebugMode::Errors
    } else if str_eq(lower, "all") {
        DebugMode::All
    } else {
        DebugMode::Off
    }
}

/// The debug mode named by `s`, compared without regard to case.
pub fn parse_debug_mode(s: &str) -> (m: DebugMode)
    ensures
        m == debug_mode_named(lowercase(s@)),
{
    let lower = to_lowercase(s);
    debug_mode_of_lowercase(lower.as_str())
}

impl Config {
    /// The configuration used when nothing is set.
    pub fn with_defaults() -> (c: Self)
        ensures
            c.server_host@ == "0.0.0.0"@,
            c.server_port == 9199,
            c.proxy_api_key@.len() == 0,
            c.database_url is None,
            c.kiro_region@ == "us-east-1"@,
            c.kiro_sso_region is None,
            c.kiro_refresh_token is None,
            c.kiro_client_id is None,
            c.kiro_client_secret is None,
            c.debug_mode == DebugMode::Off,
            c.log_level@ == "info"@,
            !c.fake_reasoning_enabled,
            !c.enable_conversation_log,
            fixed_settings_ok(c),
    {
        Config {
            server_host: owned("0.0.0.0"),
            server_port: 9199,
            proxy_api_key: String::new(),
            database_url: None,
            kiro_region: owned("us-east-1"),
            kiro_sso_region: None,
            kiro_refresh_token: None,
            kiro_client_id: None,
            kiro_client_secret: None,
            token_refresh_threshold: 300,
            first_token_timeout: 15,
            http_max_connections: 20,
            http_connect_timeout: 30,
            http_request_timeout: 300,
            http_max_retries: 3,
            debug_mode: DebugMode::Off,
            log_level: owned("info"),
            tool_description_max_length: 10000,
            fake_reasoning_enabled: false,
            fake_reasoning_max_tokens: 4000,
            fake_reasoning_handling: FakeReasoningHandling::AsReasoningContent,
            truncation_recovery: true,
            enable_conversation_log: false,
        }
    }

    /// The configuration the environment describes: set values where given
    /// (optional ones only when not empty), defaults elsewhere; the port when it
    /// parses as a `u16`; conversation logging when the flag is `true` or `1`.
    pub fn from_env_values(env: EnvValues) -> (c: Self)
        ensures
            c.server_host@ == or_default(env.server_host, "0.0.0.0"@),
            c.server_port == (match env.server_port {
                Some(p) => match parse_u16_spec(p@) {
                    Some(n) => n,
                    None => 9199,
                },
                None => 9199,
            }),
            c.proxy_api_key@ == or_default(env.proxy_api_key, Seq::empty()),
            opt_view(c.database_url) == non_empty(env.database_url),
            c.kiro_region@ == or_default(env.kiro_region, "us-east-1"@),
            opt_view(c.kiro_sso_region) == non_empty(env.kiro_sso_region),
            opt_view(c.kiro_refresh_token) == non_empty(env.kiro_refresh_token),
            opt_view(c.kiro_client_id) == non_empty(env.kiro_client_id),
            opt_view(c.kiro_client_secret) == non_empty(env.kiro_client_secret),
            c.debug_mode == (match env.debug_mode {
                Some(m) => debug_mode_named(lowercase(m@)),
                None => DebugMode::Off,
            }),
            c.log_level@ == or_default(env.log_level, "info"@),
            c.fake_reasoning_enabled,
            c.enable_conversation_log == (env.enable_conversation_log matches Some(v) && (v@ == "true"@ || v@ == "1"@)),
            fixed_settings_ok(c),
    {
        let server_port = match &env.server_port {
            Some(p) => match parse_u16(p.as_str()) {
                Some(n) => n,
                None => 9199,
            },
            None => 9199,
        };
        let debug_mode = match &env.debug_mode {
            Some(m) => parse_debug_mode(m.as_str()),
            None => DebugMode::Off,
        };
        let enable_conversation_log = match &env.enable_conversation_log {
            Some(v) => str_eq(v.as_str(), "true") || str_eq(v.as_str(), "1"),
            None => false,
        };
        Config {
            server_host: value_or(env.server_host, "0.0.0.0"),
            server_port,
            proxy_api_key: match env.proxy_api_key {
                Some(k) => k,
                None => String::new(),
            },
            database_url: keep_non_empty(env.database_url),
            kiro_region: value_or(env.kiro_region, "us-east-1"),
            kiro_sso_region: keep_non_empty(env.kiro_sso_region),
            kiro_refresh_token: keep_non_empty(env.kiro_refresh_token),
            kiro_client_id: keep_non_empty(env.kiro_client_id),
            kiro_client_secret: keep_non_empty(env.kiro_client_secret),
            token_refresh_threshold: 300,
            first_token_timeout: 15,
            http_max_connections: 20,
            http_connect_timeout: 30,
            http_request_timeout: 300,
            http_max_retries: 3,
            debug_mode,
            log_level: value_or(env.log_level, "info"),
            tool_description_max_length: 10000,
            fake_reasoning_enabled: true,
            fake_reasoning_max_tokens: 4000,
            fake_reasoning_handling: FakeReasoningHandling::AsReasoningContent,
            truncation_recovery: true,
            enable_conversation_log,
        }
    }

    /// Accepts the configuration only when the proxy key is at least 16
    /// characters long.
    pub fn validate(&self) -> (r: Result<(), String>)
        ensures
            r is Ok <==> self.proxy_api_key@.len() >= 16,
            r matches Err(m) ==> m@ == "PROXY_API_KEY must be at least 16 characters for security"@,
    {
        if chars_of(self.proxy_api_key.as_str()).len() < 16 {
            Err(owned("PROXY_API_KEY must be at least 16 characters for security"))
        } else {
            Ok(())
        }
    }
}

// ---------------------------------------------------------------------------
// Debug text
// ---------------------------------------------------------------------------

/// What `Debug` writes for a string: the string quoted and escaped.
pub uninterp spec fn debug_quoted(s: Seq<char>) -> Seq<char>;

/// `format!("{:?}", s)` for a string slice: `str`'s `Debug`, which depends on
/// the string alone.
#[verifier::external_body]
fn debug_str(s: &str) -> (r: String)
    ensures
        r@ == debug_quoted(s@),
{
    format!("{:?}", s)
}

/// What `Debug` writes for an optional string.
pub open spec fn debug_opt(o: Option<Seq<char>>) -> Seq<char> {
    match o {
        Some(s) => "Some("@ + debug_quoted(s) + ")"@,
        None => "None"@,
    }
}

/// The name of a debug mode, as its derived `Debug` writes it.
pub open spec fn debug_mode_text(m: DebugMode) -> Seq<char> {
    match m {
        DebugMode::Off => "Off"@,
        DebugMode::Errors => "Errors"@,
        DebugMode::All => "All"@,
    }
}

/// The debug text of a configuration: the host, port, region, SSO region, debug
/// mode and log level, with the proxy key and the refresh token (when set)
/// written as `"[REDACTED]"`; the other settings are left out.
pub open spec fn config_debug_text(c: Config) -> Seq<char> {
    "Config { server_host: "@ + debug_quoted(c.server_host@) + ", server_port: "@ + int_text(
        c.server_port as int,
    ) + ", proxy_api_key: \"[REDACTED]\", kiro_region: "@ + debug_quoted(c.kiro_region@)
        + ", kiro_sso_region: "@ + debug_opt(opt_view(c.kiro_sso_region)) + ", kiro_refresh_token: "@
        + match c.kiro_refresh_token {
        Some(_) => "Some(\"[REDACTED]\")"@,
        None => "None"@,
    } + ", debug_mode: "@ + debug_mode_text(c.debug_mode) + ", log_level: "@ + debug_quoted(c.log_level@)
        + " }"@
}

fn push_debug_opt(s: &mut String, o: &Option<String>)
    ensures
        final(s)@ == old(s)@ + debug_opt(opt_view(*o)),
{
    match o {
        Some(v) => {
            push_str(s, "Some(");
            let q = debug_str(v.as_str());
            push_str(s, q.as_str());
            push_str(s, ")");
        },
        None => push_str(s, "None"),
    }
}

impl Config {
    /// The text of `{:?}` for a configuration (see [`config_debug_text`]).
    pub fn debug_text(&self) -> (s: String)
        ensures
            s@ == config_debug_text(*self),
    {
        let mut s = owned("Config { server_host: ");
        let host = debug_str(self.server_host.as_str());
        push_str(&mut s, host.as_str());
        push_str(&mut s, ", server_port: ");
        push_i64(&mut s, self.server_port as i64);
        push_str(&mut s, ", proxy_api_key: \"[REDACTED]\", kiro_region: ");
        let region = debug_str(self.kiro_region.as_str());
        push_str(&mut s, region.as_str());
        push_str(&mut s, ", kiro_sso_region: ");
        push_debug_opt(&mut s, &self.kiro_sso_region);
        push_str(&mut s, ", kiro_refresh_token: ");
        match &self.kiro_refresh_token {
            Some(_) => push_str(&mut s, "Some(\"[REDACTED]\")"),
            None => push_str(&mut s, "None"),
        }
        push_str(&mut s, ", debug_mode: ");
        match self.debug_mode {
            DebugMode::Off => push_str(&mut s, "Off"),
            DebugMode::Errors => push_str(&mut s, "Errors"),
            DebugMode::All => push_str(&mut s, "All"),
        }
        push_str(&mut s, ", log_level: ");
        let level = debug_str(self.log_level.as_str());
        push_str(&mut s, level.as_str());
        push_str(&mut s, " }");
        s
    }
}

/// The debug text of a configuration shows neither the proxy key nor the
/// refresh token: two configurations that agree on everything the text shows,
/// and on whether a refresh token is set, have the same debug text whatever
/// their keys and tokens.
pub proof fn law_debug_text_hides_secrets(a: Config, b: Config)
    requires
        a.server_host@ == b.server_host@,
        a.server_port == b.server_port,
        a.kiro_region@ == b.kiro_region@,
        opt_view(a.kiro_sso_region) == opt_view(b.kiro_sso_region),
        a.kiro_refresh_token is Some <==> b.kiro_refresh_token is Some,
        a.debug_mode == b.debug_mode,
        a.log_level@ == b.log_level@,
    ensures
        config_debug_text(a) == config_debug_text(b),
{
}

} // verus!
