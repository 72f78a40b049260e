use task_auth::security::{hash_password, verify_password};

#[test]
fn hashes_and_verifies_password() {
    let hash = hash_password("Admin@123").expect("hash should be generated");
    let ok = verify_password("Admin@123", &hash).expect("verification should run");
    assert!(ok);
}

#[test]
fn rejects_wrong_password() {
    let hash = hash_password("Admin@123").expect("hash should be generated");
    let ok = verify_password("Wrong@123", &hash).expect("verification should run");
    assert!(!ok);
}

#[test]
fn hash_is_a_phc_string_not_the_password() {
    let hash = hash_password("Bond@123").expect("hash should be generated");
    assert!(hash.starts_with("$argon2id$"));
    assert_ne!(hash, "Bond@123");
}

#[test]
fn two_hashes_of_one_password_differ_but_both_verify() {
    let a = hash_password("123456").expect("hash should be generated");
    let b = hash_password("123456").expect("hash should be generated");
    assert_ne!(a, b);
    assert!(verify_password("123456", &a).unwrap());
    assert!(verify_password("123456", &b).unwrap());
}

#[test]
fn malformed_stored_hash_is_an_error() {
    let r = verify_password("Admin@123", "not-a-phc-string");
    assert!(r.is_err());
    assert!(r.unwrap_err().starts_with("invalid stored password hash"));
}
