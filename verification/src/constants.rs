use vstd::prelude::*;

verus! {

/// Lifetime, in seconds, of an access token.
pub const EXPIRED_TOKEN_TIME: i64 = 1;

/// Name of the environment variable that holds the token signing secret.
pub const SECRET_TOKEN_KEY: &'static str = "SECRET_TOKEN_KEY";
/// Name of the environment variable that holds the password sealing key.
pub const SECRET_CRYPT_KEY: &'static str = "SECRET_CRYPT_KEY";
/// Name of the environment variable that holds the folder of user images.
pub const ASSET_USER_FOLDER: &'static str = "ASSET_USER_FOLDER";
/// Name of the database.
pub const DB_NAME: &'static str = "Wallet_DB";
/// Name of the environment variable that holds the database URI.
pub const MONGO_DB_URI: &'static str = "MONGODB_URI";
/// Name of the collection of users.
pub const USER_COL: &'static str = "user";
/// Name of the request header that carries the access token.
pub const AUTHORIZATION: &'static str = "Authorization";

/// Default message of a not-found response.
pub const NOT_FOUND: &'static str = "Not found";
/// Message of a registration refused because the user already exists.
pub const EMAIL_EXITS: &'static str = "Email was exits";
/// Default message of an invalid-token response.
pub const INVALID_TOKEN: &'static str = "Error validating JWT token";
/// Default message of an expired-token response.
pub const EXPIRED_TOKEN: &'static str = "Expired Token";
/// Default message of a bad-request response.
pub const BAD_REQUEST: &'static str = "Bad Request";
/// Default message of an internal-error response.
pub const SOME_THING_WENT_WRONG: &'static str = "Some thing went wrong";
/// Message of an email address that is not well formed.
pub const INVALID_EMAIL: &'static str = "Invalid email";
/// Message of a missing or empty email address.
pub const EMAIL_EMPTY: &'static str = "Email cannot empty";
/// Message of a missing or empty password.
pub const PASSWORD_EMPTY: &'static str = "Password cannot empty";

/// Socket event that carries a chat message.
pub const SENDER_MESSAGE: &'static str = "SENDER_MESSAGE";
/// Socket event that joins a room.
pub const JOIN_ROOM: &'static str = "JOIN_ROOM";

/// An owned copy of one of the texts above.
pub fn text(s: &'static str) -> (r: String)
    ensures
        r@ == s@,
{
    String::from_str(s)
}

} // verus!
