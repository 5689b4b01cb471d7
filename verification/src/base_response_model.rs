use vstd::prelude::*;

use crate::constants;
use crate::status_code;
use crate::helper::get_current_time;

verus! {

/// The envelope every reply of the service travels in: a status code, the time the
/// reply was made (milliseconds since the Unix epoch), an optional payload and an
/// optional message.
#[derive(Clone, Debug)]
pub struct BaseResponseModel<T> {
    pub status: i32,
    pub time_stamp: u128,
    pub data: Option<T>,
    pub message: Option<String>,
}

/// The text of an optional owned string.
pub open spec fn text_of(s: Option<String>) -> Option<Seq<char>> {
    match s {
        Some(m) => Some(m@),
        None => None,
    }
}

/// The message of an error reply: the caller's message where one is given,
/// the default one otherwise.
pub open spec fn message_or(custom: Option<String>, default: Seq<char>) -> Option<Seq<char>> {
    match custom {
        Some(m) => Some(m@),
        None => Some(default),
    }
}

/// `r` is an error reply with the given status, no payload and the message that
/// `message_or(custom, default)` gives (the caller's own string, where one is given).
pub open spec fn is_error_reply<T>(
    r: BaseResponseModel<T>,
    status: i32,
    custom: Option<String>,
    default: Seq<char>,
) -> bool {
    &&& r.status == status
    &&& r.data is None
    &&& text_of(r.message) == message_or(custom, default)
    &&& custom is Some ==> r.message == custom
}

/// `r` is such an error reply, stamped `now`.
pub open spec fn is_error_reply_at<T>(
    r: BaseResponseModel<T>,
    status: i32,
    custom: Option<String>,
    default: Seq<char>,
    now: u128,
) -> bool {
    &&& is_error_reply(r, status, custom, default)
    &&& r.time_stamp == now
}

/// Two error replies made for the same status and message and stamped with the same
/// clock reading agree in status, time stamp, payload and message text: so the replies
/// of `UserModel` and those of `BaseResponseModel` are the same reply.
pub proof fn lemma_error_replies_agree<T>(
    a: BaseResponseModel<T>,
    b: BaseResponseModel<T>,
    status: i32,
    custom: Option<String>,
    default: Seq<char>,
    now: u128,
)
    requires
        is_error_reply_at(a, status, custom, default, now),
        is_error_reply_at(b, status, custom, default, now),
    ensures
        a.status == b.status,
        a.time_stamp == b.time_stamp,
        a.data == b.data,
        text_of(a.message) == text_of(b.message),
        custom is Some ==> a.message == b.message,
{
}

impl<T> Default for BaseResponseModel<T> {
    fn default() -> (r: Self)
        ensures
            r.status == 0,
            r.time_stamp == 0,
            r.data is None,
            r.message is None,
    {
        BaseResponseModel { status: 0, time_stamp: 0, data: None, message: None }
    }
}

impl<T> BaseResponseModel<T> {
    fn error_reply_at(status: i32, custom_message: Option<String>, default: &'static str, now: u128) -> (r: Self)
        ensures
            is_error_reply_at(r, status, custom_message, default@, now),
    {
        let message = match custom_message {
            Some(m) => Some(m),
            None => Some(constants::text(default)),
        };
        BaseResponseModel { status, time_stamp: now, data: None, message }
    }

    /// The same reply, stamped `now` and without its payload.
    pub fn self_response_at(self, now: u128) -> (r: BaseResponseModel<T>)
        ensures
            r.status == self.status,
            r.message == self.message,
            r.data is None,
            r.time_stamp == now,
    {
        BaseResponseModel { status: self.status, time_stamp: now, message: self.message, data: None }
    }

    /// The same reply, stamped anew with the clock's reading and without its payload.
    pub fn self_response(self) -> (r: BaseResponseModel<T>)
        ensures
            r.status == self.status,
            r.message == self.message,
            r.data is None,
    {
        self.self_response_at(get_current_time())
    }

    /// A successful reply that carries `data`, stamped `now`.
    pub fn success_at(data: Option<T>, now: u128) -> (r: BaseResponseModel<T>)
        ensures
            r.status == status_code::SUCCESS,
            r.data == data,
            r.message is None,
            r.time_stamp == now,
    {
        BaseResponseModel { status: status_code::SUCCESS, time_stamp: now, data: data, message: None }
    }

    /// A successful reply that carries `data`, stamped with the clock's reading.
    pub fn success(data: Option<T>) -> (r: BaseResponseModel<T>)
        ensures
            r.status == status_code::SUCCESS,
            r.data == data,
            r.message is None,
    {
        Self::success_at(data, get_current_time())
    }

    /// A reply for an expired token, stamped `now`.
    pub fn expired_token_at(custom_message: Option<String>, now: u128) -> (r: BaseResponseModel<T>)
        ensures
            is_error_reply_at(r, status_code::EXPIRED_TOKEN, custom_message, constants::EXPIRED_TOKEN@, now),
    {
        Self::error_reply_at(status_code::EXPIRED_TOKEN, custom_message, constants::EXPIRED_TOKEN, now)
    }

    /// A reply for an expired token, stamped with the clock's reading.
    pub fn expired_token(custom_message: Option<String>) -> (r: BaseResponseModel<T>)
        ensures
            is_error_reply(r, status_code::EXPIRED_TOKEN, custom_message, constants::EXPIRED_TOKEN@),
    {
        Self::expired_token_at(custom_message, get_current_time())
    }

    /// A reply for a token that could not be validated, stamped `now`.
    pub fn invalid_token_at(custom_message: Option<String>, now: u128) -> (r: BaseResponseModel<T>)
        ensures
            is_error_reply_at(r, status_code::INVALID_TOKEN, custom_message, constants::INVALID_TOKEN@, now),
    {
        Self::error_reply_at(status_code::INVALID_TOKEN, custom_message, constants::INVALID_TOKEN, now)
    }

    /// A reply for a token that could not be validated, stamped with the clock's reading.
    pub fn invalid_token(custom_message: Option<String>) -> (r: BaseResponseModel<T>)
        ensures
            is_error_reply(r, status_code::INVALID_TOKEN, custom_message, constants::INVALID_TOKEN@),
    {
        Self::invalid_token_at(custom_message, get_current_time())
    }

    /// A reply for a failure on the server's side, stamped `now`.
    pub fn internal_error_at(custom_message: Option<String>, now: u128) -> (r: BaseResponseModel<T>)
        ensures
            is_error_reply_at(r, status_code::INTERNAL_SERVER_ERROR, custom_message, constants::SOME_THING_WENT_WRONG@, now),
    {
        Self::error_reply_at(status_code::INTERNAL_SERVER_ERROR, custom_message, constants::SOME_THING_WENT_WRONG, now)
    }

    /// A reply for a failure on the server's side, stamped with the clock's reading.
    pub fn internal_error(custom_message: Option<String>) -> (r: BaseResponseModel<T>)
        ensures
            is_error_reply(r, status_code::INTERNAL_SERVER_ERROR, custom_message, constants::SOME_THING_WENT_WRONG@),
    {
        Self::internal_error_at(custom_message, get_current_time())
    }

    /// A reply for a record that does not exist, stamped `now`.
    pub fn not_found_at(custom_message: Option<String>, now: u128) -> (r: BaseResponseModel<T>)
        ensures
            is_error_reply_at(r, status_code::NOT_FOUND, custom_message, constants::NOT_FOUND@, now),
    {
        Self::error_reply_at(status_code::NOT_FOUND, custom_message, constants::NOT_FOUND, now)
    }

    /// A reply for a record that does not exist, stamped with the clock's reading.
    pub fn not_found(custom_message: Option<String>) -> (r: BaseResponseModel<T>)
        ensures
            is_error_reply(r, status_code::NOT_FOUND, custom_message, constants::NOT_FOUND@),
    {
        Self::not_found_at(custom_message, get_current_time())
    }

    /// A reply for a request whose input was refused, stamped `now`.
    pub fn bad_request_at(custom_message: Option<String>, now: u128) -> (r: BaseResponseModel<T>)
        ensures
            is_error_reply_at(r, status_code::BAD_REQUEST, custom_message, constants::BAD_REQUEST@, now),
    {
        Self::error_reply_at(status_code::BAD_REQUEST, custom_message, constants::BAD_REQUEST, now)
    }

    /// A reply for a request whose input was refused, stamped with the clock's reading.
    pub fn bad_request(custom_message: Option<String>) -> (r: BaseResponseModel<T>)
        ensures
            is_error_reply(r, status_code::BAD_REQUEST, custom_message, constants::BAD_REQUEST@),
    {
        Self::bad_request_at(custom_message, get_current_time())
    }
}

} // verus!
