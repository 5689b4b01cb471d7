use vstd::prelude::*;

use crate::base_response_model::{is_error_reply, text_of, BaseResponseModel};
use crate::constants;
use crate::status_code;
use crate::helper::{is_email_address, unsealed, validate_email};
use crate::object_id::ObjectId;
use crate::user_repository::with_sealed_password;
use crate::user_model::{empty_record, UserModel, UserRecord, UserResponseResult};

verus! {

/// The account service: checks credentials and decides, step by step, what
/// registering a user and renewing a token do. The database steps between its
/// decisions are made by the caller.
pub struct UserService;

/// What is wrong with an email field, given whether the address is well formed:
/// nothing, or the message that says so.
pub open spec fn email_problem(email: Option<Seq<char>>, well_formed: bool) -> Option<Seq<char>> {
    match email {
        None => Some(constants::EMAIL_EMPTY@),
        Some(e) => if e.len() == 0 {
            Some(constants::EMAIL_EMPTY@)
        } else if !well_formed {
            Some(constants::INVALID_EMAIL@)
        } else {
            None
        },
    }
}

/// What is wrong with a password field: nothing, or the message that says so.
pub open spec fn password_problem(password: Option<Seq<char>>) -> Option<Seq<char>> {
    match password {
        None => Some(constants::PASSWORD_EMPTY@),
        Some(p) => if p.len() == 0 {
            Some(constants::PASSWORD_EMPTY@)
        } else {
            None
        },
    }
}

/// `r` is `Ok` where there is no problem, and the problem's message otherwise.
pub open spec fn answers(r: Result<(), String>, problem: Option<Seq<char>>) -> bool {
    match r {
        Ok(_) => problem is None,
        Err(m) => problem == Some(m@),
    }
}

/// The email problem of an optional address, the address judged by the email crate.
pub open spec fn email_verdict(email: Option<Seq<char>>) -> Option<Seq<char>> {
    match email {
        Some(e) => email_problem(email, is_email_address(e)),
        None => email_problem(email, false),
    }
}

/// `r` is the reply that refuses a registration because the user already exists.
pub open spec fn is_exists_reply(r: BaseResponseModel<UserModel>) -> bool {
    &&& r.status == status_code::INTERNAL_SERVER_ERROR
    &&& r.data is None
    &&& text_of(r.message) == Some(constants::EMAIL_EXITS@)
}

/// The query that finds the user with identifier `id`.
pub open spec fn id_query(id: ObjectId) -> UserRecord {
    UserRecord { id: Some(id), ..empty_record() }
}

/// The query by identifier names the identifier and nothing else, so it matches
/// exactly the user with that identifier.
pub proof fn lemma_id_query_has_only_the_id(id: ObjectId)
    ensures
        id_query(id).id == Some(id),
        id_query(id).display_name is None,
        id_query(id).email is None,
        id_query(id).image_path is None,
        id_query(id).image is None,
        id_query(id).password is None,
        id_query(id).token is None,
{
}

impl UserService {
    /// The account service.
    pub fn new() -> (r: Self) {
        UserService
    }

    /// The answer to an email field, given whether the email crate accepts the
    /// address: missing or empty is refused as empty, an address that is not accepted
    /// as invalid.
    pub fn check_email(email: &Option<String>, well_formed: bool) -> (r: Result<(), String>)
        ensures
            answers(r, email_problem(text_of(*email), well_formed)),
    {
        match email {
            None => Err(constants::text(constants::EMAIL_EMPTY)),
            Some(e) => {
                if e.as_str().is_empty() {
                    Err(constants::text(constants::EMAIL_EMPTY))
                } else if !well_formed {
                    Err(constants::text(constants::INVALID_EMAIL))
                } else {
                    Ok(())
                }
            },
        }
    }

    /// Whether `email` is present, not empty and well formed; where it is not, the
    /// message that says why.
    pub fn validate_email(&self, email: &Option<String>) -> (r: Result<(), String>)
        ensures
            answers(r, email_verdict(text_of(*email))),
    {
        match email {
            None => Self::check_email(email, false),
            Some(e) => {
                if e.as_str().is_empty() {
                    Self::check_email(email, false)
                } else {
                    let well_formed = validate_email(e.clone());
                    Self::check_email(email, well_formed)
                }
            },
        }
    }

    /// Whether `password` is present and not empty; where it is not, the message
    /// that says so.
    pub fn validate_password(&self, password: &Option<String>) -> (r: Result<(), String>)
        ensures
            answers(r, password_problem(text_of(*password))),
    {
        match password {
            None => Err(constants::text(constants::PASSWORD_EMPTY)),
            Some(p) => {
                if p.as_str().is_empty() {
                    Err(constants::text(constants::PASSWORD_EMPTY))
                } else {
                    Ok(())
                }
            },
        }
    }

    /// The first step of a registration, once the lookup of `new_user` has answered
    /// `existing`: a user that is found already exists, and the registration is refused
    /// with an internal-error reply that says so; otherwise the document to insert is
    /// `new_user` with its password sealed under `key`.
    pub fn register_user_after_lookup(
        &self,
        key: &str,
        new_user: &UserModel,
        existing: &UserResponseResult,
    ) -> (r: Result<UserModel, BaseResponseModel<UserModel>>)
        requires
            existing is Err ==> new_user.password is Some,
        ensures
            existing is Ok ==> (r matches Err(e) && is_exists_reply(e)),
            existing is Err ==> (r matches Ok(doc) && doc@ == with_sealed_password(key@, new_user@)),
            existing is Err ==> (r matches Ok(doc) && unsealed(key@, doc@.password.unwrap()) == Some(
                new_user@.password.unwrap(),
            )),
    {
        match existing {
            Ok(_) => Err(UserModel::internal_error(Some(constants::text(constants::EMAIL_EXITS)))),
            Err(_) => {
                let mut doc = new_user.duplicate();
                let password = match &new_user.password {
                    Some(p) => p.clone(),
                    None => {
                        assert(false);
                        String::new()
                    },
                };
                doc.password = Some(crate::helper::encryption(key, password));
                Ok(doc)
            },
        }
    }

    /// The last step of a registration, once the insertion has answered `inserted`:
    /// the user as it was given (its password not sealed) with the identifier the
    /// database gave it, or an internal-error reply with the database's message.
    pub fn register_user_after_insert(
        &self,
        new_user: &UserModel,
        inserted: Result<Option<ObjectId>, String>,
    ) -> (r: UserResponseResult)
        ensures
            inserted matches Ok(id) ==> (r matches Ok(u) && u@ == (UserRecord { id, ..new_user@ })),
            inserted matches Err(m) ==> (r matches Err(e) && is_error_reply(
                e,
                status_code::INTERNAL_SERVER_ERROR,
                Some(m),
                constants::SOME_THING_WENT_WRONG@,
            )),
    {
        match inserted {
            Ok(id) => {
                let mut created = new_user.duplicate();
                created.id = id;
                Ok(created)
            },
            Err(message) => Err(UserModel::internal_error(Some(message))),
        }
    }

    /// The query of a token renewal: the user with identifier `user_id`.
    pub fn renew_token_query(&self, user_id: ObjectId) -> (r: UserModel)
        ensures
            r@ == id_query(user_id),
            r@.id == Some(user_id),
            r@.display_name is None,
            r@.email is None,
            r@.image_path is None,
            r@.image is None,
            r@.password is None,
            r@.token is None,
    {
        UserModel { id: Some(user_id), ..Default::default() }
    }

    /// The second step of a token renewal, once the lookup has answered `found`: the
    /// identifier to issue a new token for, or the lookup's error reply as it came.
    pub fn renew_token_after_lookup(&self, found: UserResponseResult) -> (r: Result<
        ObjectId,
        BaseResponseModel<UserModel>,
    >)
        requires
            found matches Ok(u) ==> u.id is Some,
        ensures
            found matches Ok(u) ==> r == Ok::<ObjectId, BaseResponseModel<UserModel>>(u.id.unwrap()),
            found matches Err(e) ==> (r matches Err(f) && f == e),
    {
        match found {
            Ok(u) => match u.id {
                Some(id) => Ok(id),
                None => {
                    assert(false);
                    Err(UserModel::not_found(None))
                },
            },
            Err(e) => Err(e),
        }
    }

    /// The update of a token renewal: the query with the new token set.
    pub fn renew_token_update(&self, query: &UserModel, token: String) -> (r: UserModel)
        ensures
            r@ == (UserRecord { token: Some(token@), ..query@ }),
    {
        let mut update = query.duplicate();
        update.token = Some(token);
        update
    }
}

} // verus!
