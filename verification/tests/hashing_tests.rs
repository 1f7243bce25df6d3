use fresh_product_backend::hashing_api::{hashing_password, verify_password, VerifyPasswordErr};

#[test]
fn a_hash_verifies_against_its_password() {
    let hash = hashing_password("hunter42").unwrap();
    assert!(hash.starts_with("$argon2id$v=19$m=4096,t=3,p=1$"));
    assert_eq!(hash.chars().count(), 96);
    assert!(verify_password("hunter42", &hash).is_ok());
}

#[test]
fn a_wrong_password_is_invalid() {
    let hash = hashing_password("hunter42").unwrap();
    match verify_password("hunter43", &hash) {
        Err(VerifyPasswordErr::InvalidPassword(_)) => {}
        _ => panic!("expected an invalid password"),
    }
}

#[test]
fn a_malformed_hash_is_an_internal_error() {
    match verify_password("hunter42", "not a phc string") {
        Err(VerifyPasswordErr::InternalError(m)) => assert!(!m.is_empty()),
        _ => panic!("expected an internal error"),
    }
}

#[test]
fn each_hash_has_its_own_salt() {
    let a = hashing_password("same").unwrap();
    let b = hashing_password("same").unwrap();
    assert_ne!(a, b);
    assert!(verify_password("same", &a).is_ok());
    assert!(verify_password("same", &b).is_ok());
}

#[test]
fn the_empty_password_round_trips() {
    let hash = hashing_password("").unwrap();
    assert!(verify_password("", &hash).is_ok());
    assert!(verify_password(" ", &hash).is_err());
}
