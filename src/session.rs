use vstd::prelude::*;

use crate::model::{Principal, Role};
use crate::text::same_text;

verus! {

/// Lifetime of a session, in seconds: 24 hours.
pub const SESSION_SECONDS: i64 = 86400;

/// What a bearer token carries. Times are seconds since the Unix epoch.
#[derive(Clone, Copy, Debug, PartialEq, Eq, Structural)]
pub struct SessionClaims {
    pub user_id: u128,
    pub role: Role,
    pub expires_at: i64,
}

/// The claims of a session opened at `now`.
pub fn issue_session(user_id: u128, role: Role, now: i64) -> (r: SessionClaims)
    requires
        now + SESSION_SECONDS <= i64::MAX,
    ensures
        r == (SessionClaims { user_id, role, expires_at: (now + SESSION_SECONDS) as i64 }),
{
    SessionClaims { user_id, role, expires_at: now + SESSION_SECONDS }
}

pub open spec fn accepts(c: SessionClaims, now: i64) -> bool {
    now < c.expires_at
}

/// Whether a token with these claims is honoured at `now`.
pub fn session_accepts(c: &SessionClaims, now: i64) -> (r: bool)
    ensures
        r == accepts(*c, now),
{
    now < c.expires_at
}

/// The caller a token names.
pub fn session_principal(c: &SessionClaims) -> (r: Principal)
    ensures
        r == (Principal { id: c.user_id, role: c.role }),
{
    Principal { id: c.user_id, role: c.role }
}

/// A session opened at `t` is honoured at every time in `[t, t + 24h)` and
/// at no time from `t + 24h` on.
pub proof fn lemma_session_window(user_id: u128, role: Role, t: i64, now: i64)
    requires
        t + SESSION_SECONDS <= i64::MAX,
    ensures
        t <= now < t + SESSION_SECONDS ==> accepts(
            SessionClaims { user_id, role, expires_at: (t + SESSION_SECONDS) as i64 },
            now,
        ),
        now >= t + SESSION_SECONDS ==> !accepts(
            SessionClaims { user_id, role, expires_at: (t + SESSION_SECONDS) as i64 },
            now,
        ),
{
}

pub open spec fn bearer_of(header: Seq<char>) -> Option<Seq<char>> {
    if header.len() >= 7 && header.take(7) == "Bearer "@ && header.len() > 7 {
        Some(header.skip(7))
    } else {
        None
    }
}

/// The token of an `Authorization: Bearer <token>` header; `None` when the
/// scheme is missing or the token is empty.
pub fn bearer_token(header: &str) -> (r: Option<&str>)
    ensures
        match r {
            Some(t) => bearer_of(header@) == Some(t@),
            None => bearer_of(header@).is_none(),
        },
{
    let n = header.unicode_len();
    if n <= 7 {
        return None;
    }
    if !same_text(header.substring_char(0, 7), "Bearer ") {
        return None;
    }
    Some(header.substring_char(7, n))
}

pub open spec fn is_open_route(is_options: bool, path: Seq<char>) -> bool {
    is_options || path == "/healthz"@ || path == "/auth/login"@ || path == "/auth/register"@
}

/// Requests that go through without a token: preflights, the health check,
/// login and registration.
pub fn open_route(is_options: bool, path: &str) -> (r: bool)
    ensures
        r == is_open_route(is_options, path@),
{
    is_options || same_text(path, "/healthz") || same_text(path, "/auth/login") || same_text(
        path,
        "/auth/register",
    )
}

} // verus!
