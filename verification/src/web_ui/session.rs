//! Session cookies and session validity.

use vstd::prelude::*;
use crate::db::SessionRow;
use crate::error::{ApiError, ApiErrorView};
use crate::text::{chars_of, owned, split_char, split_on, string_from_chars, strings_view, strip_prefix, strip_prefix_spec, trim_chars, trim_spec};

verus! {

/// The signed-in user of a Web UI request.
#[derive(Clone, Debug)]
pub struct SessionUser {
    pub user_id: String,
    pub email: String,
    pub role: String,
    pub status: String,
}

/// The value of the first `kp_session` cookie among `;`-separated pieces
/// (each trimmed).
pub open spec fn session_cookie_in(pieces: Seq<Seq<char>>) -> Option<Seq<char>>
    decreases pieces.len(),
{
    if pieces.len() == 0 {
        None
    } else {
        match strip_prefix_spec(trim_spec(pieces[0]), "kp_session="@) {
            Some(v) => Some(v),
            None => session_cookie_in(pieces.drop_first()),
        }
    }
}

/// The session id a `Cookie` header carries (see [`session_cookie_in`]).
pub fn session_cookie(cookie_header: &str) -> (r: Option<String>)
    ensures
        r matches Some(v) ==> session_cookie_in(split_on(cookie_header@, ';')) == Some(v@),
        r is None ==> session_cookie_in(split_on(cookie_header@, ';')) is None,
{
    let pieces = split_char(cookie_header, ';');
    let ghost all = strings_view(pieces@);
    let mut i: usize = 0;
    assert(all.skip(0) =~= all);
    while i < pieces.len()
        invariant
            i <= pieces.len(),
            all == strings_view(pieces@),
            all == split_on(cookie_header@, ';'),
            session_cookie_in(all) == session_cookie_in(all.skip(i as int)),
        decreases pieces.len() - i,
    {
        let ghost rest = all.skip(i as int);
        assert(rest[0] == pieces@[i as int]@);
        assert(rest.drop_first() =~= all.skip(i + 1));
        let chars = chars_of(pieces[i].as_str());
        let trimmed = string_from_chars(trim_chars(&chars).as_slice());
        if let Some(v) = strip_prefix(trimmed.as_str(), "kp_session=") {
            return Some(v);
        }
        i += 1;
    }
    None
}

/// Whether instant `a` comes after instant `b`. An instant is the whole seconds
/// since the Unix epoch and the nanoseconds within the second, as `chrono`
/// reports them (`timestamp`, `timestamp_subsec_nanos`).
pub open spec fn later(a: (i64, u32), b: (i64, u32)) -> bool {
    a.0 > b.0 || (a.0 == b.0 && a.1 > b.1)
}

/// The instant an RFC 3339 text denotes, as `chrono` parses it; `None` when it
/// does not parse.
pub uninterp spec fn rfc3339_instant(s: Seq<char>) -> Option<(i64, u32)>;

/// Calls `chrono::DateTime::parse_from_rfc3339` and reads the instant's
/// `timestamp` and `timestamp_subsec_nanos`. Claimed: the result is the
/// instant the text denotes (named, not computed here), `None` when it does not
/// parse.
#[verifier::external_body]
pub(crate) fn parse_rfc3339(s: &str) -> (r: Option<(i64, u32)>)
    ensures
        r == rfc3339_instant(s@),
{
    match chrono::DateTime::parse_from_rfc3339(s) {
        Ok(dt) => Some((dt.timestamp(), dt.timestamp_subsec_nanos())),
        Err(_) => None,
    }
}

/// Calls `chrono::Utc::now()` and reads its `timestamp` and
/// `timestamp_subsec_nanos`. Nothing is claimed of the reading.
#[verifier::external_body]
pub(crate) fn clock_now() -> (t: (i64, u32)) {
    let now = chrono::Utc::now();
    (now.timestamp(), now.timestamp_subsec_nanos())
}

/// Why a session cannot be used.
#[derive(PartialEq, Eq, Structural)]
pub enum SessionFailure {
    /// The session is unknown or its expiry unreadable.
    Invalid,
    /// The session has expired; it should be deleted.
    Expired,
}

impl SessionFailure {
    /// The error answered for the failure.
    pub fn to_error(&self) -> (e: ApiError)
        ensures
            *self == SessionFailure::Invalid ==> e@ == ApiErrorView::AuthError("Invalid session"@),
            *self == SessionFailure::Expired ==> e@ == ApiErrorView::AuthError("Session expired"@),
    {
        match self {
            SessionFailure::Invalid => ApiError::AuthError(owned("Invalid session")),
            SessionFailure::Expired => ApiError::AuthError(owned("Session expired")),
        }
    }
}

/// The user of a session whose expiry has been read as `expires_at`, at `now`:
/// unreadable expiries are invalid, past ones expired.
pub fn session_user_at(session: SessionRow, expires_at: Option<(i64, u32)>, now: (i64, u32)) -> (r: Result<SessionUser, SessionFailure>)
    ensures
        expires_at is None ==> r == Err::<SessionUser, SessionFailure>(SessionFailure::Invalid),
        expires_at matches Some(e) && later(now, e) ==> r == Err::<SessionUser, SessionFailure>(SessionFailure::Expired),
        expires_at matches Some(e) && !later(now, e) ==> r == Ok::<SessionUser, SessionFailure>(SessionUser {
            user_id: session.user_id,
            email: session.email,
            role: session.role,
            status: session.status,
        }),
{
    match expires_at {
        None => Err(SessionFailure::Invalid),
        Some(e) => if now.0 > e.0 || (now.0 == e.0 && now.1 > e.1) {
            Err(SessionFailure::Expired)
        } else {
            Ok(SessionUser { user_id: session.user_id, email: session.email, role: session.role, status: session.status })
        },
    }
}

/// The user of a session at `now`, reading its expiry as RFC 3339.
pub fn session_user(session: SessionRow, now: (i64, u32)) -> (r: Result<SessionUser, SessionFailure>)
    ensures
        rfc3339_instant(session.expires_at@) is None ==> r == Err::<SessionUser, SessionFailure>(SessionFailure::Invalid),
        rfc3339_instant(session.expires_at@) matches Some(e) && later(now, e) ==> r == Err::<SessionUser, SessionFailure>(SessionFailure::Expired),
        rfc3339_instant(session.expires_at@) matches Some(e) && !later(now, e) ==> r == Ok::<SessionUser, SessionFailure>(SessionUser {
            user_id: session.user_id,
            email: session.email,
            role: session.role,
            status: session.status,
        }),
{
    let expires_at = parse_rfc3339(session.expires_at.as_str());
    session_user_at(session, expires_at, now)
}

/// The user of a session now (see [`session_user`]): unreadable expiries are
/// invalid; a session that is accepted yields its user.
pub fn check_session(session: SessionRow) -> (r: Result<SessionUser, SessionFailure>)
    ensures
        rfc3339_instant(session.expires_at@) is None ==> r == Err::<SessionUser, SessionFailure>(SessionFailure::Invalid),
        r is Ok ==> r == Ok::<SessionUser, SessionFailure>(SessionUser {
            user_id: session.user_id,
            email: session.email,
            role: session.role,
            status: session.status,
        }),
        r == Err::<SessionUser, SessionFailure>(SessionFailure::Expired) ==> rfc3339_instant(session.expires_at@) is Some,
{
    let now = clock_now();
    session_user(session, now)
}

} // verus!
