use vstd::prelude::*;
use time::OffsetDateTime;

verus! {

/// Seconds in the 365 days that an issued token stays valid.
pub const TOKEN_LIFETIME_SECS: i64 = 31_536_000;

/// Bound on any Unix time that the `time` crate can represent (its years stay
/// within six digits).
pub const UNIX_TIME_BOUND: i64 = 100_000_000_000_000;

/// Relies on `time`'s `OffsetDateTime::now_utc` and `unix_timestamp`: the
/// current time in whole Unix seconds. A representable date lies within
/// `UNIX_TIME_BOUND` seconds of the epoch; nothing else is known of the value.
#[verifier::external_body]
fn unix_now() -> (r: i64)
    ensures
        -UNIX_TIME_BOUND <= r <= UNIX_TIME_BOUND,
{
    OffsetDateTime::now_utc().unix_timestamp()
}

/// The claims that an access token carries: issue and expiry times in Unix
/// seconds, the user's identifier and name.
pub struct SessionClaims {
    pub iat: i64,
    pub exp: i64,
    pub identifier: u32,
    pub username: String,
}

impl SessionClaims {
    /// Claims issued at `now` (whole Unix seconds), expiring 365 days later.
    pub fn issued_at(identifier: u32, username: &str, now: i64) -> (r: SessionClaims)
        requires
            now <= i64::MAX - TOKEN_LIFETIME_SECS,
        ensures
            r.iat == now,
            r.exp == now + TOKEN_LIFETIME_SECS,
            r.identifier == identifier,
            r.username@ == username@,
    {
        SessionClaims { iat: now, exp: now + TOKEN_LIFETIME_SECS, identifier, username: username.to_owned() }
    }

    /// Claims issued now, expiring 365 days later.
    pub fn new(identifier: u32, username: &str) -> (r: SessionClaims)
        ensures
            r.exp == r.iat + TOKEN_LIFETIME_SECS,
            r.identifier == identifier,
            r.username@ == username@,
    {
        SessionClaims::issued_at(identifier, username, unix_now())
    }
}

} // verus!
