use vstd::prelude::*;
use vstd::string::*;

verus! {

/// How long a token is valid, in seconds.
pub const TOKEN_LIFETIME: i64 = 3600;

/// What a token claims: the user it was issued to, and the time at which
/// it expires, in seconds since the Unix epoch.
#[derive(Debug)]
pub struct Claims {
    pub sub: String,
    pub exp: usize,
}

/// The time at which a token issued at `now` expires: one lifetime later,
/// kept within what `usize` holds.
pub open spec fn expiry(now: int) -> int {
    if now + TOKEN_LIFETIME < 0 {
        0
    } else if now + TOKEN_LIFETIME > usize::MAX {
        usize::MAX as int
    } else {
        now + TOKEN_LIFETIME
    }
}

impl Claims {
    /// The claims of a token issued to `username` at the time `now`.
    pub fn issued_at(username: &str, now: i64) -> (claims: Claims)
        ensures
            claims.sub@ == username@,
            claims.exp == expiry(now as int),
    {
        let at: i128 = now as i128 + TOKEN_LIFETIME as i128;
        let exp: usize = if at < 0 {
            0
        } else if at > usize::MAX as i128 {
            usize::MAX
        } else {
            at as usize
        };
        Claims { sub: String::from_str(username), exp }
    }
}

} // verus!
