use chat_server::auth_end_point::check_credentials;
use chat_server::bearer::bearer_token;
use chat_server::chat_message_model::ChatMessageModel;
use chat_server::constants;
use chat_server::status_code;
use chat_server::helper::{decode_json, decryption, encryption, try_decryption, validate_email};
use chat_server::object_id::ObjectId;
use chat_server::token_model::{token_claims, Claims, JWT};
use chat_server::user_end_point::{
    find_by_id_query, login_lookup, login_reply, login_update_documents, parse_user_id,
    registration_document, registration_reply, try_login_reply, InsertFailure,
};
use chat_server::user_model::UserModel;
use chat_server::user_repository::{
    find_user_query, find_user_result, try_find_user_result, try_update_user_result,
    update_user_documents, update_user_result, UpdateOutcome,
};
use chat_server::user_service::UserService;

const KEY: &str = "a-test-key";

fn user(email: Option<&str>, password: Option<&str>) -> UserModel {
    UserModel {
        email: email.map(|s| s.to_string()),
        password: password.map(|s| s.to_string()),
        ..UserModel::default()
    }
}

fn oid(b: u8) -> ObjectId {
    ObjectId::from_bytes([b; 12])
}

#[test]
fn emails_are_judged_by_the_email_crate() {
    assert!(validate_email("john.doe@example.com".to_string()));
    assert!(!validate_email("john.doe.example.com".to_string()));
    assert!(!validate_email("".to_string()));
    assert!(!validate_email("@example.com".to_string()));
}

#[test]
fn validate_email_messages() {
    let s = UserService::new();
    assert_eq!(s.validate_email(&None), Err("Email cannot empty".to_string()));
    assert_eq!(s.validate_email(&Some(String::new())), Err("Email cannot empty".to_string()));
    assert_eq!(s.validate_email(&Some("nope".to_string())), Err("Invalid email".to_string()));
    assert_eq!(s.validate_email(&Some("a@b.com".to_string())), Ok(()));
}

#[test]
fn check_email_follows_the_verdict() {
    assert_eq!(UserService::check_email(&Some("x".to_string()), true), Ok(()));
    assert_eq!(
        UserService::check_email(&Some("x".to_string()), false),
        Err(constants::INVALID_EMAIL.to_string())
    );
    assert_eq!(UserService::check_email(&Some(String::new()), true), Err(constants::EMAIL_EMPTY.to_string()));
    assert_eq!(UserService::check_email(&None, true), Err(constants::EMAIL_EMPTY.to_string()));
}

#[test]
fn validate_password_messages() {
    let s = UserService::new();
    assert_eq!(s.validate_password(&None), Err("Password cannot empty".to_string()));
    assert_eq!(s.validate_password(&Some(String::new())), Err("Password cannot empty".to_string()));
    assert_eq!(s.validate_password(&Some("x".to_string())), Ok(()));
}

#[test]
fn credentials_are_checked_email_first() {
    let s = UserService::new();
    let r = check_credentials(&s, &user(None, None)).unwrap();
    assert_eq!(r.status, status_code::BAD_REQUEST);
    assert_eq!(r.message, Some("Email cannot empty".to_string()));
    let r = check_credentials(&s, &user(Some("bad"), Some("pw"))).unwrap();
    assert_eq!(r.message, Some("Invalid email".to_string()));
    let r = check_credentials(&s, &user(Some("a@b.com"), Some(""))).unwrap();
    assert_eq!(r.status, 400);
    assert_eq!(r.message, Some("Password cannot empty".to_string()));
    assert!(check_credentials(&s, &user(Some("a@b.com"), Some("pw"))).is_none());
}

#[test]
fn sealing_hides_and_restores_the_text() {
    let sealed = encryption(KEY, "secret".to_string());
    assert_ne!(sealed, "secret");
    assert_eq!(sealed, encryption(KEY, "secret".to_string()));
    assert_eq!(decryption(KEY, sealed.clone()), "secret");
    assert_eq!(try_decryption(KEY, sealed.clone()), Some("secret".to_string()));
    assert_ne!(encryption("other-key", "secret".to_string()), sealed);
    // Six bytes pad to one block of 16, written as 24 base64 characters.
    assert_eq!(sealed.len(), 24);
    assert_eq!(encryption(KEY, "0123456789abcdef".to_string()).len(), 44);
}

#[test]
fn unsealing_garbage_fails() {
    assert_eq!(try_decryption(KEY, "not base64 !!".to_string()), None);
    assert_eq!(try_decryption(KEY, "AAAA".to_string()), None);
}

#[test]
fn json_texts() {
    assert!(decode_json("{\"a\": 1}").is_ok());
    assert!(decode_json("[1, 2").is_err());
    assert_eq!(decode_json("{\"a\": 1}").unwrap()["a"], 1);
}

#[test]
fn bearer_tokens() {
    assert_eq!(bearer_token("Bearer abc.def"), "abc.def");
    assert_eq!(bearer_token("BearerBearer  abc "), "abc");
    assert_eq!(bearer_token("abc"), "abc");
    assert_eq!(bearer_token("  Bearer abc"), "Bearer abc");
    assert_eq!(bearer_token("Bearer"), "");
    assert_eq!(bearer_token("\tBear x\u{3000}"), "Bear x");
}

#[test]
fn find_query_seals_the_password() {
    let q = find_user_query(KEY, &user(Some("a@b.com"), Some("pw")));
    assert_eq!(q.password, Some(encryption(KEY, "pw".to_string())));
    assert_eq!(q.email, Some("a@b.com".to_string()));
    let q = find_user_query(KEY, &user(Some("a@b.com"), None));
    assert_eq!(q.password, None);
}

#[test]
fn found_users_are_read_back() {
    let mut stored = user(Some("a@b.com"), None);
    stored.password = Some(encryption(KEY, "pw".to_string()));
    stored.token = Some("t".to_string());
    stored.id = Some(oid(3));
    let r = find_user_result(KEY, Ok(Some(stored))).unwrap();
    assert_eq!(r.password, Some("pw".to_string()));
    assert_eq!(r.token, None);
    assert_eq!(r.email, Some("a@b.com".to_string()));
    assert_eq!(r.id.unwrap().bytes(), [3; 12]);
}

#[test]
fn lookups_that_find_nothing_or_fail() {
    let e = find_user_result(KEY, Ok(None)).unwrap_err();
    assert_eq!(e.status, status_code::NOT_FOUND);
    assert_eq!(e.message, Some("Not found".to_string()));
    let e = find_user_result(KEY, Err("boom".to_string())).unwrap_err();
    assert_eq!(e.status, status_code::INTERNAL_SERVER_ERROR);
    assert_eq!(e.message, Some("boom".to_string()));
}

#[test]
fn unreadable_records_are_flagged() {
    let mut stored = user(Some("a@b.com"), Some("plain, not sealed"));
    assert!(try_find_user_result(KEY, Ok(Some(stored.duplicate()))).is_none());
    stored.password = None;
    assert!(try_find_user_result(KEY, Ok(Some(stored))).is_none());
    let e = try_find_user_result(KEY, Ok(None)).unwrap().unwrap_err();
    assert_eq!(e.status, 404);
}

#[test]
fn only_matched_updates_read_the_inserted_user() {
    assert!(!chat_server::user_repository::update_reads_upserted(0));
    assert!(chat_server::user_repository::update_reads_upserted(3));
}

#[test]
fn update_documents_are_sealed() {
    let (q, u) = update_user_documents(KEY, &user(None, Some("a")), &user(None, None));
    assert_eq!(q.password, Some(encryption(KEY, "a".to_string())));
    assert_eq!(u.password, None);
}

#[test]
fn update_results() {
    let upd = user(Some("a@b.com"), Some("pw"));
    let e = update_user_result(KEY, Ok(UpdateOutcome { matched_count: 0, upserted: None }), &upd).unwrap_err();
    assert_eq!(e.status, status_code::NOT_FOUND);
    let r = update_user_result(KEY, Ok(UpdateOutcome { matched_count: 1, upserted: None }), &upd).unwrap();
    assert_eq!(r.password, Some("pw".to_string()));
    let e = update_user_result(KEY, Err("x".to_string()), &upd).unwrap_err();
    assert_eq!(e.status, 500);
    assert_eq!(e.message, Some("x".to_string()));
    let mut ins = user(None, None);
    ins.password = Some(encryption(KEY, "z".to_string()));
    ins.token = Some("t".to_string());
    let r = try_update_user_result(KEY, Ok(UpdateOutcome { matched_count: 1, upserted: Some(ins) }), &upd)
        .unwrap()
        .unwrap();
    assert_eq!(r.password, Some("z".to_string()));
    assert_eq!(r.token, Some("t".to_string()));
    let bad = user(None, Some("not sealed"));
    assert!(try_update_user_result(KEY, Ok(UpdateOutcome { matched_count: 1, upserted: Some(bad) }), &upd).is_none());
}

#[test]
fn registration_of_an_existing_user_is_refused() {
    let s = UserService::new();
    let new_user = user(Some("a@b.com"), Some("pw"));
    let existing = Ok(user(Some("a@b.com"), Some("pw")));
    let e = s.register_user_after_lookup(KEY, &new_user, &existing).unwrap_err();
    assert_eq!(e.status, status_code::INTERNAL_SERVER_ERROR);
    assert_eq!(e.message, Some("Email was exits".to_string()));
    assert!(e.data.is_none());
}

#[test]
fn registration_stores_a_sealed_password_and_answers_the_plain_one() {
    let s = UserService::new();
    let new_user = user(Some("a@b.com"), Some("pw"));
    let doc = s.register_user_after_lookup(KEY, &new_user, &Err(UserModel::not_found(None))).unwrap();
    assert_eq!(doc.password, Some(encryption(KEY, "pw".to_string())));
    assert_eq!(doc.email, Some("a@b.com".to_string()));
    let created = s.register_user_after_insert(&new_user, Ok(Some(oid(9)))).unwrap();
    assert_eq!(created.password, Some("pw".to_string()));
    assert_eq!(created.id.unwrap().bytes(), [9; 12]);
    let e = s.register_user_after_insert(&new_user, Err("dup".to_string())).unwrap_err();
    assert_eq!(e.status, 500);
    assert_eq!(e.message, Some("dup".to_string()));
    // The stored document reads back as the password that was registered.
    let back = try_find_user_result(KEY, Ok(Some(doc))).unwrap().unwrap();
    assert_eq!(back.password, Some("pw".to_string()));
}

#[test]
fn token_renewal_steps() {
    let s = UserService::new();
    let q = s.renew_token_query(oid(4));
    assert_eq!(q.id.unwrap().bytes(), [4; 12]);
    assert!(q.email.is_none() && q.password.is_none() && q.token.is_none());
    let mut found = user(Some("a@b.com"), Some("pw"));
    found.id = Some(oid(4));
    assert_eq!(s.renew_token_after_lookup(Ok(found)).unwrap().bytes(), [4; 12]);
    let e = s.renew_token_after_lookup(Err(UserModel::not_found(None))).unwrap_err();
    assert_eq!(e.status, 404);
    let u = s.renew_token_update(&q, "new-token".to_string());
    assert_eq!(u.token, Some("new-token".to_string()));
    assert_eq!(u.id.unwrap().bytes(), [4; 12]);
}

#[test]
fn plain_models() {
    let m = ChatMessageModel::default();
    assert_eq!(m.room, 0);
    assert!(m.sender_id.is_empty() && m.message.is_empty());
    let c = Claims { id: oid(1), exp: 10 };
    let j = JWT { claims: c };
    assert_eq!(j.claims.exp, 10);
    assert_eq!(constants::EXPIRED_TOKEN_TIME, 1);
}


#[test]
fn user_ids_are_parsed_from_hex() {
    let id = parse_user_id("0102030405060708090a0B0c").unwrap();
    assert_eq!(id.bytes(), [1, 2, 3, 4, 5, 6, 7, 8, 9, 10, 11, 12]);
    assert!(parse_user_id("").is_none());
    assert!(parse_user_id("0102030405060708090a0b").is_none());
    assert!(parse_user_id("0102030405060708090a0b0g").is_none());
    let q = find_by_id_query("ffffffffffffffffffffffff").unwrap();
    assert_eq!(q.id.unwrap().bytes(), [255; 12]);
    assert!(q.email.is_none() && q.password.is_none() && q.token.is_none());
    assert!(find_by_id_query("zz").is_none());
}

#[test]
fn token_claims_expire_one_second_later() {
    let c = token_claims(oid(2), 1_700_000_000).unwrap();
    assert_eq!(c.exp, 1_700_000_001);
    assert_eq!(c.id.bytes(), [2; 12]);
    assert!(token_claims(oid(2), i64::MAX).is_none());
}

#[test]
fn route_registration_keeps_three_fields() {
    let mut u = user(Some("a@b.com"), Some("pw"));
    u.display_name = Some("A".to_string());
    u.token = Some("t".to_string());
    u.image_path = Some("p".to_string());
    let d = registration_document(&u);
    assert_eq!(d.email, Some("a@b.com".to_string()));
    assert_eq!(d.password, Some("pw".to_string()));
    assert_eq!(d.display_name, Some("A".to_string()));
    assert!(d.token.is_none() && d.image_path.is_none() && d.id.is_none());
    let r = registration_reply(d.duplicate(), Ok(oid(5)));
    assert_eq!(r.status, status_code::SUCCESS);
    assert_eq!(r.data.unwrap().id.unwrap().bytes(), [5; 12]);
    let r = registration_reply(d.duplicate(), Err(InsertFailure::Deserialization("bad doc".to_string())));
    assert_eq!((r.status, r.message), (400, Some("bad doc".to_string())));
    let r = registration_reply(d, Err(InsertFailure::Other("down".to_string())));
    assert_eq!((r.status, r.message), (500, Some("down".to_string())));
}

#[test]
fn route_login_steps() {
    let u = user(Some("a@b.com"), Some("pw"));
    assert_eq!(login_lookup(KEY, &u).password, Some(encryption(KEY, "pw".to_string())));
    let (q, upd) = login_update_documents(KEY, &u, "tok".to_string());
    assert_eq!(q.password, Some(encryption(KEY, "pw".to_string())));
    assert_eq!(upd.token, Some("tok".to_string()));
    assert_eq!(upd.password, q.password);
    let r = login_reply(KEY, Ok(upd.duplicate()));
    assert_eq!(r.status, status_code::SUCCESS);
    let d = r.data.unwrap();
    assert_eq!(d.password, Some("pw".to_string()));
    assert_eq!(d.token, Some("tok".to_string()));
    let r = login_reply(KEY, Err("nope".to_string()));
    assert_eq!((r.status, r.message), (500, Some("nope".to_string())));
    assert!(try_login_reply(KEY, Ok(u)).is_none());
    assert!(try_login_reply(KEY, Ok(upd)).is_some());
}

#[test]
fn json_values_follow_the_text() {
    let v = decode_json("{\"room\": 3, \"message\": \"hi\"}").unwrap();
    assert_eq!(v["room"], 3);
    assert_eq!(v["message"], "hi");
    assert_ne!(decode_json("0").unwrap(), v);
}

#[test]
fn models_clone() {
    let u = user(Some("a@b.com"), Some("pw"));
    let c = u.clone();
    assert_eq!(c.email, u.email);
    let r = UserModel::not_found(None);
    assert_eq!(r.clone().status, r.status);
}

#[test]
fn decryptability() {
    let sealed = encryption(KEY, "pw".to_string());
    assert!(chat_server::helper::can_decrypt(KEY, &sealed));
    assert!(!chat_server::helper::can_decrypt(KEY, "pw"));
}
