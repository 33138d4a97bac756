use stock_opname::credentials::HASH_COST;
use stock_opname::{hash_password, verify_password};

#[test]
fn hash_password_abc123_has_version_prefix() {
    let hashed = hash_password("abc123".to_string()).unwrap();
    assert!(hashed.starts_with("$2b$"));
    assert_eq!(hashed.len(), 60);
}

#[test]
fn verify_password_accepts_hashed_password() {
    let hashed = hash_password("abc123".to_string()).unwrap();
    assert!(verify_password("abc123".to_string(), hashed));
}

#[test]
fn verify_password_rejects_wrong_password() {
    let hashed = hash_password("abc123".to_string()).unwrap();
    assert!(!verify_password("wrong".to_string(), hashed));
}

#[test]
fn empty_password_round_trips() {
    let hashed = hash_password(String::new()).unwrap();
    assert!(verify_password(String::new(), hashed));
}

#[test]
fn verify_password_rejects_hash_of_other_password() {
    // A cheap externally produced hash keeps this test fast.
    let hashed = bcrypt::hash("first password", 4).unwrap();
    assert!(!verify_password("second password".to_string(), hashed));
}

#[test]
fn verify_password_accepts_externally_produced_hash() {
    let hashed = bcrypt::hash("hunter2", 4).unwrap();
    assert!(verify_password("hunter2".to_string(), hashed));
}

#[test]
fn verify_password_malformed_hash_is_false_not_error() {
    assert!(!verify_password(
        "anything".to_string(),
        "not-a-valid-hash-string".to_string(),
    ));
}

#[test]
fn hash_cost_is_the_bcrypt_default() {
    assert_eq!(HASH_COST, bcrypt::DEFAULT_COST);
}
