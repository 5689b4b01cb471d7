use vstd::prelude::*;

verus! {

/// Status code of a successful response envelope.
pub const SUCCESS: i32 = 200;
/// Status code of a request whose input was refused.
pub const BAD_REQUEST: i32 = 400;
/// Status code of a request whose token could not be validated.
pub const INVALID_TOKEN: i32 = 401;
/// Status code of a request whose token has expired.
pub const EXPIRED_TOKEN: i32 = 403;
/// Status code of a request for a record that does not exist.
pub const NOT_FOUND: i32 = 404;
/// Status code of a request that failed on the server's side.
pub const INTERNAL_SERVER_ERROR: i32 = 500;

} // verus!
