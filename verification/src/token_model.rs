use vstd::prelude::*;

use crate::constants;
use crate::object_id::ObjectId;

verus! {

/// What an access token asserts: whose it is and until when it is valid
/// (seconds since the Unix epoch).
#[derive(Clone, Copy, Debug)]
pub struct Claims {
    pub id: ObjectId,
    pub exp: usize,
}

/// A validated access token.
#[derive(Clone, Copy, Debug)]
pub struct JWT {
    pub claims: Claims,
}

/// The claims of a token issued at `now_secs` (seconds since the Unix epoch) for the
/// user `id`: it expires `EXPIRED_TOKEN_TIME` seconds later, the expiry taken as a
/// `usize` as it is. `None` where the expiry overflows.
pub fn token_claims(id: ObjectId, now_secs: i64) -> (r: Option<Claims>)
    ensures
        r is None <==> now_secs + constants::EXPIRED_TOKEN_TIME > i64::MAX,
        r matches Some(c) ==> c.id == id && c.exp == (now_secs + constants::EXPIRED_TOKEN_TIME) as usize,
{
    match now_secs.checked_add(constants::EXPIRED_TOKEN_TIME) {
        Some(expiration) => Some(Claims { id, exp: expiration as usize }),
        None => None,
    }
}

} // verus!
