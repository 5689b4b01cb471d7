use vstd::prelude::*;

use crate::base_response_model::{is_error_reply, text_of, BaseResponseModel};
use crate::constants;
use crate::status_code;
use crate::user_model::UserModel;
use crate::helper::is_email_address;
use crate::user_service::{email_verdict, password_problem, UserService};

verus! {

/// The problem a registration or login request has with its credentials: the email
/// problem if there is one, else the password problem, if any.
pub open spec fn credentials_problem(user: UserModel) -> Option<Seq<char>> {
    match email_verdict(text_of(user.email)) {
        Some(m) => Some(m),
        None => password_problem(text_of(user.password)),
    }
}

/// The problem of a request's credentials, case by case: a missing or empty email is
/// refused as empty, an email the email crate does not accept as invalid, and, with
/// an acceptable email, a missing or empty password as empty; a request with an
/// acceptable email and a password has no problem.
pub proof fn lemma_credentials_problem_cases(user: UserModel)
    ensures
        (user.email is None || user.email.unwrap()@.len() == 0) ==> credentials_problem(user)
            == Some(constants::EMAIL_EMPTY@),
        (user.email matches Some(e) && e@.len() > 0 && !is_email_address(e@)) ==> credentials_problem(
            user,
        ) == Some(constants::INVALID_EMAIL@),
        (user.email matches Some(e) && e@.len() > 0 && is_email_address(e@)) ==> ((user.password is None
            || user.password.unwrap()@.len() == 0) ==> credentials_problem(user) == Some(
            constants::PASSWORD_EMPTY@,
        )),
        (user.email matches Some(e) && e@.len() > 0 && is_email_address(e@)) ==> ((user.password matches Some(p) && p@.len() > 0) ==> credentials_problem(user) is None),
{
}

/// The reply that refuses a registration or login request for its credentials, if it
/// is refused: a bad-request reply whose message says what is wrong with the email,
/// or else with the password. `None` where both are acceptable.
pub fn check_credentials(user_service: &UserService, user: &UserModel) -> (r: Option<
    BaseResponseModel<UserModel>,
>)
    ensures
        credentials_problem(*user) is None <==> r is None,
        r matches Some(e) ==> is_error_reply(
            e,
            status_code::BAD_REQUEST,
            None,
            credentials_problem(*user).unwrap(),
        ),
        (user.email is None || user.email.unwrap()@.len() == 0) ==> (r matches Some(e)
            && e.status == status_code::BAD_REQUEST && (e.message matches Some(m) && m@ == constants::EMAIL_EMPTY@)),
        (user.email matches Some(a) && a@.len() > 0 && !is_email_address(a@)) ==> (r matches Some(e)
            && e.status == status_code::BAD_REQUEST && (e.message matches Some(m) && m@ == constants::INVALID_EMAIL@)),
        (user.email matches Some(a) && a@.len() > 0 && is_email_address(a@)) ==> ((user.password is None
            || user.password.unwrap()@.len() == 0) ==> (r matches Some(e) && e.status
            == status_code::BAD_REQUEST && (e.message matches Some(m) && m@ == constants::PASSWORD_EMPTY@))),
        (user.email matches Some(a) && a@.len() > 0 && is_email_address(a@)) ==> ((user.password matches Some(p) && p@.len() > 0) ==> r is None),
{
    match user_service.validate_email(&user.email) {
        Err(m) => {
            return Some(UserModel::bad_request(Some(m)));
        },
        Ok(_) => {},
    }
    match user_service.validate_password(&user.password) {
        Err(m) => Some(UserModel::bad_request(Some(m))),
        Ok(_) => None,
    }
}

} // verus!
