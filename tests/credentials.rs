use sf_auth::password::{check_password, hash_password, hash_password_with_salt, SALT_LEN};

#[test]
fn hash_then_check() {
    let hash = hash_password("correct-horse").unwrap();
    assert!(hash.starts_with("$argon2id$"));
    assert!(check_password(&hash, "correct-horse"));
    assert!(!check_password(&hash, "correct-horsf"));
    assert!(!check_password(&hash, ""));
}

#[test]
fn hashes_of_one_password_differ() {
    let a = hash_password("correct-horse").unwrap();
    let b = hash_password("correct-horse").unwrap();
    assert_ne!(a, b);
}

#[test]
fn malformed_hash_is_false() {
    assert!(!check_password("not a hash", "correct-horse"));
    assert!(!check_password("", ""));
}

#[test]
fn fixed_salt_is_deterministic() {
    let salt = vec![7u8; SALT_LEN];
    let a = hash_password_with_salt("pw", &salt).unwrap();
    let b = hash_password_with_salt("pw", &salt).unwrap();
    assert_eq!(a, b);
    assert!(a.contains("$BwcHBwcHBwcHBwcHBwcHBwcHBwcHBwcH$"));
    assert!(check_password(&a, "pw"));
    let c = hash_password_with_salt("pw", &vec![8u8; SALT_LEN]).unwrap();
    assert_ne!(a, c);
}

#[test]
fn too_short_salt_fails() {
    assert_eq!(hash_password_with_salt("pw", &vec![1u8; 2]), None);
}
