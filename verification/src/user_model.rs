use vstd::prelude::*;

use crate::base_response_model::{is_error_reply, is_error_reply_at, text_of, BaseResponseModel};
use crate::helper::get_current_time;
use crate::constants;
use crate::status_code;
use crate::object_id::ObjectId;

verus! {

/// A user as the service stores and returns it. Every field is optional: a model is
/// also used as a query, where only the fields that are present are matched.
#[derive(Clone, Debug)]
pub struct UserModel {
    pub display_name: Option<String>,
    pub email: Option<String>,
    pub id: Option<ObjectId>,
    pub image_path: Option<String>,
    pub image: Option<Vec<u8>>,
    pub password: Option<String>,
    pub token: Option<String>,
}

/// The mathematical content of a [`UserModel`].
pub ghost struct UserRecord {
    pub display_name: Option<Seq<char>>,
    pub email: Option<Seq<char>>,
    pub id: Option<ObjectId>,
    pub image_path: Option<Seq<char>>,
    pub image: Option<Seq<u8>>,
    pub password: Option<Seq<char>>,
    pub token: Option<Seq<char>>,
}

/// The bytes of an optional byte vector.
pub open spec fn bytes_of(v: Option<Vec<u8>>) -> Option<Seq<u8>> {
    match v {
        Some(b) => Some(b@),
        None => None,
    }
}

/// The record with no field present.
pub open spec fn empty_record() -> UserRecord {
    UserRecord {
        display_name: None,
        email: None,
        id: None,
        image_path: None,
        image: None,
        password: None,
        token: None,
    }
}

impl View for UserModel {
    type V = UserRecord;

    open spec fn view(&self) -> UserRecord {
        UserRecord {
            display_name: text_of(self.display_name),
            email: text_of(self.email),
            id: self.id,
            image_path: text_of(self.image_path),
            image: bytes_of(self.image),
            password: text_of(self.password),
            token: text_of(self.token),
        }
    }
}

/// A copy of an optional string.
pub fn copy_text(s: &Option<String>) -> (r: Option<String>)
    ensures
        text_of(r) == text_of(*s),
{
    match s {
        Some(t) => Some(t.clone()),
        None => None,
    }
}

fn copy_bytes(v: &Option<Vec<u8>>) -> (r: Option<Vec<u8>>)
    ensures
        bytes_of(r) == bytes_of(*v),
{
    match v {
        Some(b) => {
            let mut c: Vec<u8> = Vec::new();
            let mut i: usize = 0;
            while i < b.len()
                invariant
                    i <= b.len(),
                    c@ == b@.subrange(0, i as int),
                decreases b.len() - i,
            {
                c.push(b[i]);
                i = i + 1;
            }
            assert(c@ == b@);
            Some(c)
        },
        None => None,
    }
}

impl Default for UserModel {
    fn default() -> (r: Self)
        ensures
            r@ == empty_record(),
    {
        UserModel {
            display_name: None,
            email: None,
            id: None,
            image_path: None,
            image: None,
            password: None,
            token: None,
        }
    }
}

impl UserModel {
    /// A copy of this user.
    pub fn duplicate(&self) -> (r: UserModel)
        ensures
            r@ == self@,
    {
        UserModel {
            display_name: copy_text(&self.display_name),
            email: copy_text(&self.email),
            id: self.id,
            image_path: copy_text(&self.image_path),
            image: copy_bytes(&self.image),
            password: copy_text(&self.password),
            token: copy_text(&self.token),
        }
    }

    /// A successful reply that carries a copy of this user, stamped `now`.
    pub fn success_at(&self, now: u128) -> (r: BaseResponseModel<UserModel>)
        ensures
            r.status == status_code::SUCCESS,
            r.data matches Some(u) && u@ == self@,
            r.message is None,
            r.time_stamp == now,
    {
        BaseResponseModel::success_at(Some(self.duplicate()), now)
    }

    /// A successful reply that carries a copy of this user, stamped with the clock's
    /// reading.
    pub fn success(&self) -> (r: BaseResponseModel<UserModel>)
        ensures
            r.status == status_code::SUCCESS,
            r.data matches Some(u) && u@ == self@,
            r.message is None,
    {
        self.success_at(get_current_time())
    }

    /// A reply for an expired token, stamped `now`: the same reply as
    /// `BaseResponseModel::expired_token_at`.
    pub fn expired_token_at(custom_message: Option<String>, now: u128) -> (r: BaseResponseModel<UserModel>)
        ensures
            is_error_reply_at(r, status_code::EXPIRED_TOKEN, custom_message, constants::EXPIRED_TOKEN@, now),
    {
        BaseResponseModel::expired_token_at(custom_message, now)
    }

    /// A reply for an expired token, stamped with the clock's reading.
    pub fn expired_token(custom_message: Option<String>) -> (r: BaseResponseModel<UserModel>)
        ensures
            is_error_reply(r, status_code::EXPIRED_TOKEN, custom_message, constants::EXPIRED_TOKEN@),
    {
        Self::expired_token_at(custom_message, get_current_time())
    }

    /// A reply for a token that could not be validated, stamped `now`: the same reply as
    /// `BaseResponseModel::invalid_token_at`.
    pub fn invalid_token_at(custom_message: Option<String>, now: u128) -> (r: BaseResponseModel<UserModel>)
        ensures
            is_error_reply_at(r, status_code::INVALID_TOKEN, custom_message, constants::INVALID_TOKEN@, now),
    {
        BaseResponseModel::invalid_token_at(custom_message, now)
    }

    /// A reply for a token that could not be validated, stamped with the clock's reading.
    pub fn invalid_token(custom_message: Option<String>) -> (r: BaseResponseModel<UserModel>)
        ensures
            is_error_reply(r, status_code::INVALID_TOKEN, custom_message, constants::INVALID_TOKEN@),
    {
        Self::invalid_token_at(custom_message, get_current_time())
    }

    /// A reply for a failure on the server's side, stamped `now`: the same reply as
    /// `BaseResponseModel::internal_error_at`.
    pub fn internal_error_at(custom_message: Option<String>, now: u128) -> (r: BaseResponseModel<UserModel>)
        ensures
            is_error_reply_at(r, status_code::INTERNAL_SERVER_ERROR, custom_message, constants::SOME_THING_WENT_WRONG@, now),
    {
        BaseResponseModel::internal_error_at(custom_message, now)
    }

    /// A reply for a failure on the server's side, stamped with the clock's reading.
    pub fn internal_error(custom_message: Option<String>) -> (r: BaseResponseModel<UserModel>)
        ensures
            is_error_reply(r, status_code::INTERNAL_SERVER_ERROR, custom_message, constants::SOME_THING_WENT_WRONG@),
    {
        Self::internal_error_at(custom_message, get_current_time())
    }

    /// A reply for a user that does not exist, stamped `now`: the same reply as
    /// `BaseResponseModel::not_found_at`.
    pub fn not_found_at(custom_message: Option<String>, now: u128) -> (r: BaseResponseModel<UserModel>)
        ensures
            is_error_reply_at(r, status_code::NOT_FOUND, custom_message, constants::NOT_FOUND@, now),
    {
        BaseResponseModel::not_found_at(custom_message, now)
    }

    /// A reply for a user that does not exist, stamped with the clock's reading.
    pub fn not_found(custom_message: Option<String>) -> (r: BaseResponseModel<UserModel>)
        ensures
            is_error_reply(r, status_code::NOT_FOUND, custom_message, constants::NOT_FOUND@),
    {
        Self::not_found_at(custom_message, get_current_time())
    }

    /// A reply for a request whose input was refused, stamped `now`: the same reply as
    /// `BaseResponseModel::bad_request_at`.
    pub fn bad_request_at(custom_message: Option<String>, now: u128) -> (r: BaseResponseModel<UserModel>)
        ensures
            is_error_reply_at(r, status_code::BAD_REQUEST, custom_message, constants::BAD_REQUEST@, now),
    {
        BaseResponseModel::bad_request_at(custom_message, now)
    }

    /// A reply for a request whose input was refused, stamped with the clock's reading.
    pub fn bad_request(custom_message: Option<String>) -> (r: BaseResponseModel<UserModel>)
        ensures
            is_error_reply(r, status_code::BAD_REQUEST, custom_message, constants::BAD_REQUEST@),
    {
        Self::bad_request_at(custom_message, get_current_time())
    }
}

/// What an operation on a stored user answers: the user, or the error reply.
pub type UserResponseResult = Result<UserModel, BaseResponseModel<UserModel>>;

} // verus!
