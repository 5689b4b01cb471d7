use vstd::prelude::*;

use crate::base_response_model::is_error_reply;
use crate::constants;
use crate::status_code;
use crate::helper::{decryption, encryption, sealed, can_decrypt, unsealed};
use crate::user_model::{UserModel, UserRecord, UserResponseResult};

verus! {

// The database holds every password sealed under the service's key. What goes to the
// database is sealed here, and what comes back from it is unsealed here; the reads
// and writes themselves are made by the caller.

/// `r` with its password sealed under `key`, where it has one.
pub open spec fn with_sealed_password(key: Seq<char>, r: UserRecord) -> UserRecord {
    UserRecord {
        password: match r.password {
            Some(p) => Some(sealed(key, p)),
            None => None,
        },
        ..r
    }
}

/// Whether the stored record `r` has a password that can be unsealed under `key`.
pub open spec fn is_readable(key: Seq<char>, r: UserRecord) -> bool {
    r.password matches Some(p) && unsealed(key, p) is Some
}

/// The stored record `r` as it is handed back to callers: its password unsealed
/// under `key` and its token left out.
pub open spec fn as_read_back(key: Seq<char>, r: UserRecord) -> UserRecord {
    UserRecord {
        password: match r.password {
            Some(p) => unsealed(key, p),
            None => None,
        },
        token: None,
        ..r
    }
}

/// Sealing the password of a record changes nothing else: every other field is kept,
/// a password becomes its sealed text, and a record without a password stays without.
pub proof fn lemma_sealing_keeps_other_fields(key: Seq<char>, r: UserRecord)
    ensures
        with_sealed_password(key, r).id == r.id,
        with_sealed_password(key, r).display_name == r.display_name,
        with_sealed_password(key, r).email == r.email,
        with_sealed_password(key, r).image_path == r.image_path,
        with_sealed_password(key, r).image == r.image,
        with_sealed_password(key, r).token == r.token,
        r.password matches Some(p) ==> with_sealed_password(key, r).password == Some(sealed(key, p)),
        r.password is None ==> with_sealed_password(key, r).password is None,
{
}

/// Reading a stored record back unseals its password and drops its token, and keeps
/// every other field.
pub proof fn lemma_read_back_keeps_other_fields(key: Seq<char>, r: UserRecord)
    ensures
        as_read_back(key, r).id == r.id,
        as_read_back(key, r).display_name == r.display_name,
        as_read_back(key, r).email == r.email,
        as_read_back(key, r).image_path == r.image_path,
        as_read_back(key, r).image == r.image,
        as_read_back(key, r).token is None,
        r.password matches Some(p) ==> as_read_back(key, r).password == unsealed(key, p),
        r.password is None ==> as_read_back(key, r).password is None,
{
}

/// Unsealing the password of a record keeps every other field, the token included.
pub proof fn lemma_unsealing_keeps_other_fields(key: Seq<char>, r: UserRecord)
    ensures
        with_plain_password(key, r).id == r.id,
        with_plain_password(key, r).display_name == r.display_name,
        with_plain_password(key, r).email == r.email,
        with_plain_password(key, r).image_path == r.image_path,
        with_plain_password(key, r).image == r.image,
        with_plain_password(key, r).token == r.token,
        r.password matches Some(p) ==> with_plain_password(key, r).password == unsealed(key, p),
        r.password is None ==> with_plain_password(key, r).password is None,
{
}

/// A user registered under `key` (its password sealed, as the registration stores it)
/// is readable, and reads back as it was registered, without a token: a login that
/// finds it answers the password that was registered.
pub proof fn lemma_registered_user_reads_back(key: Seq<char>, user: UserRecord, stored: UserRecord)
    requires
        user.password is Some,
        stored == with_sealed_password(key, user),
        unsealed(key, stored.password.unwrap()) == Some(user.password.unwrap()),
    ensures
        is_readable(key, stored),
        as_read_back(key, stored) == (UserRecord { token: None, ..user }),
{
}

/// The answer of a lookup of one user: a database error (its text), or the user
/// found, if any.
pub type FindOutcome = Result<Option<UserModel>, String>;

/// The answer of an update of one user: a database error (its text), or how many
/// users matched and the user inserted, if the update inserted one.
pub struct UpdateOutcome {
    pub matched_count: u64,
    pub upserted: Option<UserModel>,
}

/// Whether the answer of an update is read any further than its matched count: only
/// where some user matched does the user the update inserted, if any, matter.
pub fn update_reads_upserted(matched_count: u64) -> (r: bool)
    ensures
        r == (matched_count != 0),
{
    matched_count != 0
}

fn sealed_copy(key: &str, user: &UserModel) -> (r: UserModel)
    ensures
        r@ == with_sealed_password(key@, user@),
{
    let mut doc = user.duplicate();
    match &user.password {
        Some(p) => {
            doc.password = Some(encryption(key, p.clone()));
        },
        None => {},
    }
    doc
}

/// The query that looks `user` up: `user` with its password sealed under `key`.
pub fn find_user_query(key: &str, user: &UserModel) -> (r: UserModel)
    ensures
        r@ == with_sealed_password(key@, user@),
        r@.id == user@.id,
        r@.display_name == user@.display_name,
        r@.email == user@.email,
        r@.image_path == user@.image_path,
        r@.image == user@.image,
        r@.token == user@.token,
        user@.password matches Some(p) ==> r@.password == Some(sealed(key@, p)),
        user@.password is None ==> r@.password is None,
{
    sealed_copy(key, user)
}

fn read_back(key: &str, stored: UserModel) -> (r: UserModel)
    requires
        is_readable(key@, stored@),
    ensures
        r@ == as_read_back(key@, stored@),
{
    let mut user = stored;
    let sealed_password = match user.password {
        Some(p) => p,
        None => {
            assert(false);
            String::new()
        },
    };
    user.password = Some(decryption(key, sealed_password));
    user.token = None;
    user
}

/// What a lookup answers, given what the database answered: the user found, read
/// back (see [`as_read_back`]); a not-found reply where none was found; an
/// internal-error reply with the database's message where the lookup failed.
pub fn find_user_result(key: &str, found: FindOutcome) -> (r: UserResponseResult)
    requires
        found matches Ok(Some(u)) ==> is_readable(key@, u@),
    ensures
        found matches Ok(Some(u)) ==> (r matches Ok(v) && v@ == as_read_back(key@, u@)),
        found matches Ok(None) ==> (r matches Err(e) && is_error_reply(
            e,
            status_code::NOT_FOUND,
            None,
            constants::NOT_FOUND@,
        )),
        found matches Err(m) ==> (r matches Err(e) && is_error_reply(
            e,
            status_code::INTERNAL_SERVER_ERROR,
            Some(m),
            constants::SOME_THING_WENT_WRONG@,
        )),
{
    match found {
        Ok(Some(stored)) => Ok(read_back(key, stored)),
        Ok(None) => Err(UserModel::not_found(None)),
        Err(message) => Err(UserModel::internal_error(Some(message))),
    }
}

/// [`find_user_result`] where the user found can be read back; `None` where it cannot
/// (it has no password, or its password does not unseal under `key`). A password that
/// was sealed under `key` comes back as it was before it was sealed.
pub fn try_find_user_result(key: &str, found: FindOutcome) -> (r: Option<UserResponseResult>)
    ensures
        r is None <==> (found matches Ok(Some(u)) && !is_readable(key@, u@)),
        found matches Ok(Some(u)) ==> (r matches Some(res) ==> (res matches Ok(v) && v@
            == as_read_back(key@, u@))),
        found matches Ok(Some(u)) ==> forall|p: Seq<char>|
            u@.password == Some(#[trigger] sealed(key@, p)) ==> (r matches Some(Ok(v))
                && v@.password == Some(p)),
        found matches Ok(None) ==> (r matches Some(Err(e)) && is_error_reply(
            e,
            status_code::NOT_FOUND,
            None,
            constants::NOT_FOUND@,
        )),
        found matches Err(m) ==> (r matches Some(Err(e)) && is_error_reply(
            e,
            status_code::INTERNAL_SERVER_ERROR,
            Some(m),
            constants::SOME_THING_WENT_WRONG@,
        )),
{
    match &found {
        Ok(Some(stored)) => {
            match &stored.password {
                Some(p) => {
                    if !can_decrypt(key, p.as_str()) {
                        return None;
                    }
                },
                None => {
                    return None;
                },
            }
        },
        _ => {},
    }
    Some(find_user_result(key, found))
}

/// The query and the update of an update of one user: both with their passwords
/// sealed under `key`.
pub fn update_user_documents(key: &str, query: &UserModel, update: &UserModel) -> (r: (
    UserModel,
    UserModel,
))
    ensures
        r.0@ == with_sealed_password(key@, query@),
        r.1@ == with_sealed_password(key@, update@),
{
    (sealed_copy(key, query), sealed_copy(key, update))
}

/// What an update answers, given what the database answered: an internal-error reply
/// with the database's message where it failed; a not-found reply where no user
/// matched; the inserted user, read back, where the update inserted one; the update
/// as the caller gave it otherwise.
pub fn update_user_result(key: &str, outcome: Result<UpdateOutcome, String>, update: &UserModel) -> (r:
    UserResponseResult)
    requires
        outcome matches Ok(o) ==> (o.matched_count != 0 ==> (o.upserted matches Some(u)
            ==> is_readable(key@, u@))),
    ensures
        outcome matches Err(m) ==> (r matches Err(e) && is_error_reply(
            e,
            status_code::INTERNAL_SERVER_ERROR,
            Some(m),
            constants::SOME_THING_WENT_WRONG@,
        )),
        outcome matches Ok(o) ==> (o.matched_count == 0 ==> (r matches Err(e) && is_error_reply(
            e,
            status_code::NOT_FOUND,
            None,
            constants::NOT_FOUND@,
        ))),
        outcome matches Ok(o) ==> (o.matched_count != 0 ==> (o.upserted matches Some(u) ==> (
        r matches Ok(v) && v@ == with_plain_password(key@, u@)))),
        outcome matches Ok(o) ==> (o.matched_count != 0 ==> (o.upserted is None ==> (
        r matches Ok(v) && v@ == update@))),
{
    match outcome {
        Err(message) => Err(UserModel::internal_error(Some(message))),
        Ok(o) => {
            if o.matched_count == 0 {
                return Err(UserModel::not_found(None));
            }
            match o.upserted {
                Some(stored) => {
                    let mut user = stored;
                    let sealed_password = match user.password {
                        Some(p) => p,
                        None => {
                            assert(false);
                            String::new()
                        },
                    };
                    user.password = Some(decryption(key, sealed_password));
                    Ok(user)
                },
                None => Ok(update.duplicate()),
            }
        },
    }
}

/// [`update_user_result`] where an inserted user can be read back; `None` where it
/// cannot (it has no password, or its password does not unseal under `key`).
pub fn try_update_user_result(
    key: &str,
    outcome: Result<UpdateOutcome, String>,
    update: &UserModel,
) -> (r: Option<UserResponseResult>)
    ensures
        r is None <==> (outcome matches Ok(o) && o.matched_count != 0 && (o.upserted matches Some(
            u,
        ) && !is_readable(key@, u@))),
        outcome matches Err(m) ==> (r matches Some(Err(e)) && is_error_reply(
            e,
            status_code::INTERNAL_SERVER_ERROR,
            Some(m),
            constants::SOME_THING_WENT_WRONG@,
        )),
        outcome matches Ok(o) ==> (o.matched_count == 0 ==> (r matches Some(Err(e))
            && is_error_reply(e, status_code::NOT_FOUND, None, constants::NOT_FOUND@))),
        outcome matches Ok(o) ==> (o.matched_count != 0 ==> (o.upserted matches Some(u) ==> (
        r matches Some(res) ==> (res matches Ok(v) && v@ == with_plain_password(key@, u@))))),
        outcome matches Ok(o) ==> (o.matched_count != 0 ==> (o.upserted is None ==> (
        r matches Some(Ok(v)) && v@ == update@))),
{
    match &outcome {
        Ok(o) => {
            if o.matched_count != 0 {
                match &o.upserted {
                    Some(stored) => {
                        match &stored.password {
                            Some(p) => {
                                if !can_decrypt(key, p.as_str()) {
                                    return None;
                                }
                            },
                            None => {
                                return None;
                            },
                        }
                    },
                    None => {},
                }
            }
        },
        Err(_) => {},
    }
    Some(update_user_result(key, outcome, update))
}

/// The stored record `r` with its password unsealed under `key` (its token kept).
pub open spec fn with_plain_password(key: Seq<char>, r: UserRecord) -> UserRecord {
    UserRecord {
        password: match r.password {
            Some(p) => unsealed(key, p),
            None => None,
        },
        ..r
    }
}

} // verus!
