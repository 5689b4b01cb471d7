use chat_server::base_response_model::BaseResponseModel;
use chat_server::constants;
use chat_server::status_code;
use chat_server::object_id::ObjectId;
use chat_server::user_model::UserModel;

fn sample_user() -> UserModel {
    UserModel {
        display_name: Some("Alice".to_string()),
        email: Some("alice@example.com".to_string()),
        id: Some(ObjectId::from_bytes([1, 2, 3, 4, 5, 6, 7, 8, 9, 10, 11, 12])),
        image_path: None,
        image: Some(vec![7, 8, 9]),
        password: Some("pw".to_string()),
        token: Some("tok".to_string()),
    }
}

#[test]
fn success_carries_data_and_no_message() {
    let r = BaseResponseModel::success(Some(5u8));
    assert_eq!(r.status, 200);
    assert_eq!(r.status, status_code::SUCCESS);
    assert_eq!(r.data, Some(5u8));
    assert_eq!(r.message, None);
}

#[test]
fn error_replies_use_default_messages() {
    let r: BaseResponseModel<u8> = BaseResponseModel::bad_request(None);
    assert_eq!(r.status, 400);
    assert_eq!(r.message, Some("Bad Request".to_string()));
    assert_eq!(r.data, None);

    let r: BaseResponseModel<u8> = BaseResponseModel::not_found(None);
    assert_eq!(r.status, 404);
    assert_eq!(r.message, Some("Not found".to_string()));

    let r: BaseResponseModel<u8> = BaseResponseModel::internal_error(None);
    assert_eq!(r.status, 500);
    assert_eq!(r.message, Some("Some thing went wrong".to_string()));

    let r: BaseResponseModel<u8> = BaseResponseModel::invalid_token(None);
    assert_eq!(r.status, 401);
    assert_eq!(r.message, Some("Error validating JWT token".to_string()));

    let r: BaseResponseModel<u8> = BaseResponseModel::expired_token(None);
    assert_eq!(r.status, 403);
    assert_eq!(r.message, Some("Expired Token".to_string()));
}

#[test]
fn error_replies_keep_a_custom_message() {
    let r: BaseResponseModel<u8> = BaseResponseModel::bad_request(Some("nope".to_string()));
    assert_eq!(r.status, status_code::BAD_REQUEST);
    assert_eq!(r.message, Some("nope".to_string()));
    assert_eq!(r.data, None);
    let r: BaseResponseModel<u8> = BaseResponseModel::expired_token(Some("late".to_string()));
    assert_eq!(r.message, Some("late".to_string()));
}

#[test]
fn self_response_keeps_status_and_message_and_drops_data() {
    let r = BaseResponseModel { status: 404, time_stamp: 1, data: Some(3u8), message: Some("m".to_string()) };
    let s = r.self_response();
    assert_eq!(s.status, 404);
    assert_eq!(s.message, Some("m".to_string()));
    assert_eq!(s.data, None);
    assert!(s.time_stamp > 1);
}

#[test]
fn user_success_carries_a_copy() {
    let u = sample_user();
    let r = u.success();
    assert_eq!(r.status, status_code::SUCCESS);
    let d = r.data.unwrap();
    assert_eq!(d.display_name, u.display_name);
    assert_eq!(d.email, u.email);
    assert_eq!(d.id.unwrap().bytes(), u.id.unwrap().bytes());
    assert_eq!(d.image, u.image);
    assert_eq!(d.password, u.password);
    assert_eq!(d.token, u.token);
    assert_eq!(r.message, None);
}

#[test]
fn user_error_replies() {
    let r = UserModel::not_found(None);
    assert_eq!(r.status, status_code::NOT_FOUND);
    assert_eq!(r.message, Some(constants::NOT_FOUND.to_string()));
    assert!(r.data.is_none());
    let r = UserModel::internal_error(Some("db down".to_string()));
    assert_eq!(r.status, status_code::INTERNAL_SERVER_ERROR);
    assert_eq!(r.message, Some("db down".to_string()));
    let r = UserModel::bad_request(None);
    assert_eq!(r.message, Some("Bad Request".to_string()));
    let r = UserModel::invalid_token(None);
    assert_eq!(r.status, status_code::INVALID_TOKEN);
    let r = UserModel::expired_token(None);
    assert_eq!(r.status, status_code::EXPIRED_TOKEN);
}

#[test]
fn default_user_is_empty() {
    let u = UserModel::default();
    assert!(u.display_name.is_none() && u.email.is_none() && u.id.is_none());
    assert!(u.image_path.is_none() && u.image.is_none() && u.password.is_none() && u.token.is_none());
}

#[test]
fn replies_stamped_at_a_given_time() {
    let r = BaseResponseModel::success_at(Some(1u8), 42);
    assert_eq!(r.time_stamp, 42);
    assert_eq!(r.status, status_code::SUCCESS);
    let a: BaseResponseModel<UserModel> = BaseResponseModel::not_found_at(None, 7);
    let b = UserModel::not_found_at(None, 7);
    assert_eq!((a.status, a.time_stamp, a.message.clone()), (b.status, b.time_stamp, b.message.clone()));
    assert_eq!(a.message, Some("Not found".to_string()));
    let e = UserModel::bad_request_at(Some("x".to_string()), 9);
    assert_eq!((e.status, e.time_stamp), (400, 9));
    assert_eq!(UserModel::expired_token_at(None, 1).status, 403);
    assert_eq!(UserModel::invalid_token_at(None, 1).status, 401);
    assert_eq!(UserModel::internal_error_at(None, 1).status, 500);
    let s = BaseResponseModel { status: 404, time_stamp: 1, data: Some(3u8), message: None }.self_response_at(5);
    assert_eq!((s.status, s.time_stamp, s.data), (404, 5, None));
    let u = UserModel::default().success_at(11);
    assert_eq!(u.time_stamp, 11);
    assert!(chat_server::helper::get_current_time() > 1_600_000_000_000);
}
