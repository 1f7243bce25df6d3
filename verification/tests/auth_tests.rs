use fresh_product_backend::auth_api::{
    check_registration, check_user_registration, get_auth_user, register, register_reply, VerifyUserErr,
};
use fresh_product_backend::hashing_api::{hashing_password, verify_password};
use fresh_product_backend::http::{Body, DbOutcome, JsonBody, Reply, Status};
use fresh_product_backend::models::{AuthUser, User};

fn stored(login: &str, password: &str) -> AuthUser {
    AuthUser { user_id: 7, login: login.to_string(), hash_password: hashing_password(password).unwrap() }
}

fn answer_of(r: &Reply) -> Option<String> {
    match &r.body {
        Body::Json(JsonBody::Answer(a)) => Some(a.answer.clone()),
        _ => None,
    }
}

fn text_of(r: &Reply) -> Option<String> {
    match &r.body {
        Body::Text(t) => Some(t.clone()),
        _ => None,
    }
}

#[test]
fn the_right_password_is_accepted() {
    let u = check_user_registration(DbOutcome::Done(vec![stored("ann", "pw1")]), "pw1").ok().unwrap();
    assert_eq!(u.user_id, 7);
    assert_eq!(u.login, "ann");
}

#[test]
fn a_wrong_password_is_refused() {
    let r = check_user_registration(DbOutcome::Done(vec![stored("ann", "pw1")]), "pw2");
    assert!(matches!(r, Err(VerifyUserErr::InvalidPassword)));
}

#[test]
fn an_unknown_login_is_refused() {
    let r = check_user_registration(DbOutcome::Done(vec![]), "pw1");
    assert!(matches!(r, Err(VerifyUserErr::InvalidLogin)));
}

#[test]
fn database_failures_are_internal_errors() {
    let r = check_user_registration(DbOutcome::Failed("connection lost".to_string()), "pw");
    assert!(matches!(r, Err(VerifyUserErr::InternalError(ref m)) if m == "connection lost"));
    let r = check_user_registration(DbOutcome::Blocked, "pw");
    assert!(matches!(r, Err(VerifyUserErr::InternalError(ref m)) if m == "blocking error"));
}

#[test]
fn a_corrupt_stored_hash_is_an_internal_error() {
    let row = AuthUser { user_id: 1, login: "bob".to_string(), hash_password: "garbage".to_string() };
    let r = check_user_registration(DbOutcome::Done(vec![row]), "pw");
    assert!(matches!(r, Err(VerifyUserErr::InternalError(_))));
}

#[test]
fn refusals_become_replies() {
    let r = get_auth_user(Err(VerifyUserErr::InvalidLogin)).err().unwrap();
    assert_eq!(r.status, Status::Success);
    assert_eq!(answer_of(&r).unwrap(), "user not found");
    let r = get_auth_user(Err(VerifyUserErr::InvalidPassword)).err().unwrap();
    assert_eq!(r.status, Status::Success);
    assert_eq!(answer_of(&r).unwrap(), "invalid password");
    let r = get_auth_user(Err(VerifyUserErr::InternalError("x".to_string()))).err().unwrap();
    assert_eq!(r.status, Status::InternalServerError);
    assert!(matches!(r.body, Body::Empty));
    let u = get_auth_user(Ok(stored("ann", "pw"))).ok().unwrap();
    assert_eq!(u.user_id, 7);
}

#[test]
fn registration_check_answers() {
    let user = User { login: "ann".to_string(), password: "pw1".to_string() };
    let r = check_registration(user, DbOutcome::Done(vec![stored("ann", "pw1")]));
    assert_eq!(r.status, Status::Success);
    assert_eq!(answer_of(&r).unwrap(), "registered");
    let user = User { login: "ann".to_string(), password: "pw1".to_string() };
    let r = check_registration(user, DbOutcome::Done(vec![]));
    assert_eq!(answer_of(&r).unwrap(), "user not found");
}

#[test]
fn a_registered_user_can_log_in() {
    let new_user = register(User { login: "carl".to_string(), password: "s3cret".to_string() }).ok().unwrap();
    assert_eq!(new_user.login, "carl");
    assert!(verify_password("s3cret", &new_user.hash_password).is_ok());
    let row = AuthUser { user_id: 3, login: new_user.login.clone(), hash_password: new_user.hash_password.clone() };
    let u = check_user_registration(DbOutcome::Done(vec![row]), "s3cret").ok().unwrap();
    assert_eq!(u.user_id, 3);
}

#[test]
fn registration_outcomes() {
    let r = register_reply(DbOutcome::Done(1));
    assert_eq!(r.status, Status::Success);
    assert_eq!(text_of(&r).unwrap(), "success");
    let r = register_reply(DbOutcome::Failed(
        "duplicate key value violates unique constraint \"auth_login_key\"".to_string(),
    ));
    assert_eq!(r.status, Status::Success);
    assert_eq!(answer_of(&r).unwrap(), "this entry already exists");
    let r = register_reply(DbOutcome::Failed("value too long for type character varying(50)".to_string()));
    assert_eq!(r.status, Status::InternalServerError);
    assert!(matches!(r.body, Body::Empty));
    let r = register_reply(DbOutcome::Blocked);
    assert_eq!(r.status, Status::InternalServerError);
}
