use vstd::prelude::*;

verus! {

/// The name of the cookie that carries the session token.
pub const JWT_COOKIE_NAME: &'static str = "jwt";

/// How long a session token is valid after it was issued, in seconds. A
/// revocation record is kept for the same time, which is never less than
/// what is left of the token's life.
pub const TOKEN_TTL_SECONDS: u64 = 600;

/// How long a second-factor challenge stays live, in seconds.
pub const TEN_MINUTES_IN_SECONDS: u64 = 600;

/// Whether a record filed at `stored_at` and kept for `ttl` seconds is still
/// live at `now`. A record is never live before it was filed.
pub open spec fn record_live(stored_at: u64, now: u64, ttl: u64) -> bool {
    stored_at <= now && now - stored_at < ttl
}

/// Decides `record_live`.
pub fn is_record_live(stored_at: u64, now: u64, ttl: u64) -> (live: bool)
    ensures
        live == record_live(stored_at, now, ttl),
{
    stored_at <= now && now - stored_at < ttl
}

} // verus!
