use vstd::prelude::*;

use crate::base_response_model::{is_error_reply, BaseResponseModel};
use crate::constants;
use crate::status_code;
use crate::helper::{can_decrypt, decryption, unsealed};
use crate::object_id::ObjectId;
use crate::user_model::{copy_text, empty_record, UserModel, UserRecord};
use crate::user_repository::{find_user_query, is_readable, with_plain_password, with_sealed_password};

verus! {

/// Whether `c` is an ASCII hexadecimal digit (either case).
pub open spec fn is_hex_digit(c: char) -> bool {
    ('0' <= c && c <= '9') || ('a' <= c && c <= 'f') || ('A' <= c && c <= 'F')
}

/// The value of the hexadecimal digit `c`.
pub open spec fn hex_value(c: char) -> int {
    if '0' <= c && c <= '9' {
        c as int - '0' as int
    } else if 'a' <= c && c <= 'f' {
        c as int - 'a' as int + 10
    } else {
        c as int - 'A' as int + 10
    }
}

/// Whether `s` is the text of a document identifier: 24 hexadecimal digits.
pub open spec fn is_object_id_text(s: Seq<char>) -> bool {
    &&& s.len() == 24
    &&& forall|i: int| 0 <= i < 24 ==> #[trigger] is_hex_digit(s[i])
}

/// The 12 bytes that the 24 hexadecimal digits of `s` spell, two digits a byte, the
/// high half first.
pub open spec fn object_id_bytes(s: Seq<char>) -> Seq<u8> {
    Seq::new(12, |i: int| (16 * hex_value(s[2 * i]) + hex_value(s[2 * i + 1])) as u8)
}

/// `bson::oid::ObjectId::parse_str`, the identifier taken as its bytes. Claimed: it
/// succeeds exactly on 24 hexadecimal digits (either case), and the bytes are the
/// digits read two at a time, high half first (the crate decodes the text with
/// `hex::decode`, which takes `0-9`, `a-f` and `A-F`, and refuses a result that is not
/// 12 bytes long).
#[verifier::external_body]
fn object_id_parse_str(s: &str) -> (r: Option<[u8; 12]>)
    ensures
        r is Some <==> is_object_id_text(s@),
        r matches Some(b) ==> b@ == object_id_bytes(s@),
{
    match mongodb::bson::oid::ObjectId::parse_str(s) {
        Ok(id) => Some(id.bytes()),
        Err(_) => None,
    }
}

/// The identifier that the path segment `id` names: `None` where it is empty or is
/// not 24 hexadecimal digits.
pub fn parse_user_id(id: &str) -> (r: Option<ObjectId>)
    ensures
        r is None <==> (id@.len() == 0 || !is_object_id_text(id@)),
        r matches Some(o) ==> o.bytes@ == object_id_bytes(id@),
{
    if id.is_empty() {
        return None;
    }
    match object_id_parse_str(id) {
        Some(bytes) => Some(ObjectId::from_bytes(bytes)),
        None => None,
    }
}

/// The query of a lookup by the identifier that `id` names: only the identifier set.
/// `None` where `id` names no identifier.
pub fn find_by_id_query(id: &str) -> (r: Option<UserModel>)
    ensures
        r is None <==> (id@.len() == 0 || !is_object_id_text(id@)),
        r matches Some(q) ==> (q@.id matches Some(o) && o.bytes@ == object_id_bytes(id@) && q@
            == (UserRecord { id: q@.id, ..empty_record() })),
{
    match parse_user_id(id) {
        Some(user_id) => Some(UserModel { id: Some(user_id), ..Default::default() }),
        None => None,
    }
}

/// Why the insertion of a new user failed: the database could not read the document
/// (its message), or another failure (its text).
pub enum InsertFailure {
    Deserialization(String),
    Other(String),
}

/// The document a registration by the route stores: the email, password and display
/// name of the request, nothing else.
pub fn registration_document(new_user: &UserModel) -> (r: UserModel)
    ensures
        r@ == (UserRecord {
            email: new_user@.email,
            password: new_user@.password,
            display_name: new_user@.display_name,
            ..empty_record()
        }),
{
    UserModel {
        id: None,
        email: copy_text(&new_user.email),
        password: copy_text(&new_user.password),
        display_name: copy_text(&new_user.display_name),
        ..Default::default()
    }
}

/// The reply of a registration by the route, once the insertion of `data` has
/// answered: a successful reply carrying `data` with the identifier it was given; a
/// bad-request reply with the database's message where it could not read the
/// document; an internal-error reply with the failure's text otherwise.
pub fn registration_reply(data: UserModel, inserted: Result<ObjectId, InsertFailure>) -> (r:
    BaseResponseModel<UserModel>)
    ensures
        inserted matches Ok(id) ==> (r.data matches Some(u) && u@ == (UserRecord { id: Some(id), ..data@ })
            && r.status == status_code::SUCCESS && r.message is None),
        inserted matches Err(InsertFailure::Deserialization(m)) ==> is_error_reply(
            r,
            status_code::BAD_REQUEST,
            Some(m),
            constants::BAD_REQUEST@,
        ),
        inserted matches Err(InsertFailure::Other(m)) ==> is_error_reply(
            r,
            status_code::INTERNAL_SERVER_ERROR,
            Some(m),
            constants::SOME_THING_WENT_WRONG@,
        ),
{
    match inserted {
        Ok(id) => {
            let mut created = data;
            created.id = Some(id);
            BaseResponseModel::success(Some(created))
        },
        Err(InsertFailure::Deserialization(message)) => BaseResponseModel::bad_request(Some(message)),
        Err(InsertFailure::Other(message)) => BaseResponseModel::internal_error(Some(message)),
    }
}

/// The user a login by the route looks up: the request with its password sealed under
/// `key` (the lookup seals the query's password once more).
pub fn login_lookup(key: &str, user: &UserModel) -> (r: UserModel)
    requires
        user.password is Some,
    ensures
        r@ == with_sealed_password(key@, user@),
{
    find_user_query(key, user)
}

/// The query and the update with which a login by the route stores the new token of
/// the user `found`: the user with its password sealed under `key`, and the same with
/// the token set.
pub fn login_update_documents(key: &str, found: &UserModel, token: String) -> (r: (UserModel, UserModel))
    requires
        found.password is Some,
    ensures
        r.0@ == with_sealed_password(key@, found@),
        r.1@ == with_sealed_password(key@, (UserRecord { token: Some(token@), ..found@ })),
{
    let query = find_user_query(key, found);
    let mut update = found.duplicate();
    update.token = Some(token);
    let update = find_user_query(key, &update);
    (query, update)
}

/// The reply of a login by the route, once the update has answered: a successful
/// reply carrying the updated user with its password unsealed under `key`, or an
/// internal-error reply with the failure's text.
pub fn login_reply(key: &str, updated: Result<UserModel, String>) -> (r: BaseResponseModel<
    UserModel,
>)
    requires
        updated matches Ok(u) ==> is_readable(key@, u@),
    ensures
        updated matches Ok(u) ==> (r.data matches Some(v) && v@ == with_plain_password(key@, u@)
            && r.status == status_code::SUCCESS && r.message is None),
        updated matches Ok(u) ==> (r.data matches Some(v) && v@.id == u@.id && v@.display_name
            == u@.display_name && v@.email == u@.email && v@.image_path == u@.image_path
            && v@.image == u@.image && v@.token == u@.token && v@.password == unsealed(
            key@,
            u@.password.unwrap(),
        )),
        updated matches Err(m) ==> is_error_reply(
            r,
            status_code::INTERNAL_SERVER_ERROR,
            Some(m),
            constants::SOME_THING_WENT_WRONG@,
        ),
{
    match updated {
        Ok(u) => {
            let mut user = u;
            let sealed_password = match user.password {
                Some(p) => p,
                None => {
                    assert(false);
                    String::new()
                },
            };
            user.password = Some(decryption(key, sealed_password));
            BaseResponseModel::success(Some(user))
        },
        Err(message) => BaseResponseModel::internal_error(Some(message)),
    }
}

/// [`login_reply`] where the updated user can be read back; `None` where it cannot
/// (it has no password, or its password does not unseal under `key`).
pub fn try_login_reply(key: &str, updated: Result<UserModel, String>) -> (r: Option<
    BaseResponseModel<UserModel>,
>)
    ensures
        r is None <==> (updated matches Ok(u) && !is_readable(key@, u@)),
        updated matches Ok(u) ==> (r matches Some(reply) ==> (reply.data matches Some(v) && v@
            == with_plain_password(key@, u@) && reply.status == status_code::SUCCESS
            && reply.message is None)),
        updated matches Err(m) ==> (r matches Some(reply) && is_error_reply(
            reply,
            status_code::INTERNAL_SERVER_ERROR,
            Some(m),
            constants::SOME_THING_WENT_WRONG@,
        )),
{
    match &updated {
        Ok(u) => match &u.password {
            Some(p) => {
                if !can_decrypt(key, p.as_str()) {
                    return None;
                }
            },
            None => {
                return None;
            },
        },
        Err(_) => {},
    }
    Some(login_reply(key, updated))
}

} // verus!
