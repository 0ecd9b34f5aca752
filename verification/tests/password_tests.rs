use auth_core::password::{hash_password, hash_password_with_salt, verify_password, HashingFailed};

#[test]
fn hash_then_verify_is_true_on_repeated_calls() {
    let hash = hash_password("secret1").unwrap();
    assert!(verify_password("secret1", &hash));
    assert!(verify_password("secret1", &hash));
}

#[test]
fn hashing_twice_gives_two_different_strings() {
    let first = hash_password("secret1").unwrap();
    let second = hash_password("secret1").unwrap();
    assert_ne!(first, second);
    assert!(verify_password("secret1", &first));
    assert!(verify_password("secret1", &second));
}

#[test]
fn another_password_does_not_verify() {
    let hash = hash_password("secret1").unwrap();
    assert!(!verify_password("secret2", &hash));
    assert!(!verify_password("", &hash));
    assert!(!verify_password("secret1 ", &hash));
}

#[test]
fn encoded_hash_is_self_describing_and_not_the_password() {
    let hash = hash_password("secret1").unwrap();
    assert!(hash.starts_with("$argon2id$v=19$m=19456,t=2,p=1$"));
    assert_eq!(hash.split('$').count(), 6);
    assert_ne!(hash, "secret1");
    assert!(!hash.contains("secret1"));
}

#[test]
fn malformed_or_foreign_hash_is_false_not_an_error() {
    assert!(!verify_password("secret1", ""));
    assert!(!verify_password("secret1", "secret1"));
    assert!(!verify_password("secret1", "not a hash"));
    assert!(!verify_password("secret1", "$2b$12$abcdefghijklmnopqrstuuJ0cGZ0aWhlcmVpc25vdGhpbmc"));
    assert!(!verify_password("secret1", "$argon2id$v=19$m=19456,t=2,p=1$c29tZXNhbHQ"));
}

#[test]
fn the_same_salt_gives_the_same_hash() {
    let first = hash_password_with_salt("hunter42", "examplesaltvalue").unwrap();
    let second = hash_password_with_salt("hunter42", "examplesaltvalue").unwrap();
    assert_eq!(first, second);
    assert!(first.starts_with("$argon2id$v=19$m=19456,t=2,p=1$examplesaltvalue$"));
    assert!(verify_password("hunter42", &first));
    let other = hash_password_with_salt("hunter43", "examplesaltvalue").unwrap();
    assert_ne!(first, other);
}

#[test]
fn a_salt_the_hasher_refuses_is_hashing_failed() {
    assert_eq!(hash_password_with_salt("secret1", "a"), Err(HashingFailed));
    assert_eq!(hash_password_with_salt("secret1", "not base64 !!"), Err(HashingFailed));
}

#[test]
fn empty_and_non_ascii_passwords_hash_and_verify() {
    let empty = hash_password("").unwrap();
    assert!(verify_password("", &empty));
    assert!(!verify_password("x", &empty));
    let wide = hash_password("密码123").unwrap();
    assert!(verify_password("密码123", &wide));
    assert!(!verify_password("密码124", &wide));
}

#[test]
fn the_text_of_a_sixteen_byte_salt_always_hashes() {
    for salt in [
        "AAAAAAAAAAAAAAAAAAAAAA",
        "abcdefghijklmnopqrstuQ",
        "0123456789+/ABCDEFGHIg",
        "zzzzzzzzzzzzzzzzzzzzzw",
    ] {
        let hash = hash_password_with_salt("secret1", salt).unwrap();
        assert!(hash.contains(salt));
        assert!(verify_password("secret1", &hash));
    }
}

#[test]
fn a_salt_with_stray_bits_or_foreign_characters_is_refused() {
    assert_eq!(hash_password_with_salt("secret1", "AAAAAAAAAAAAAAAAAAAAAB"), Err(HashingFailed));
    assert_eq!(hash_password_with_salt("secret1", "AAAAAAAAAAAAAAAAAAAA.A"), Err(HashingFailed));
    assert_eq!(hash_password_with_salt("secret1", ""), Err(HashingFailed));
}

#[test]
fn the_salt_of_a_stored_hash_has_the_shape_of_sixteen_bytes() {
    let hash = hash_password("secret1").unwrap();
    let salt = hash.split('$').nth(4).unwrap();
    assert_eq!(salt.len(), 22);
    assert!(salt.chars().all(|c| c.is_ascii_alphanumeric() || c == '+' || c == '/'));
    assert!(matches!(salt.as_bytes()[21], b'A' | b'Q' | b'g' | b'w'));
}
