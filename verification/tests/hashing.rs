use base64::prelude::BASE64_STANDARD;
use base64::Engine;
use food_tracker::util::{
    default_hash_password, gen_uniq_b64_string, hash_with_salt, verify_pass, HashError,
};

#[test]
fn test_hash_password() {
    let password = "test_password";
    (default_hash_password(password)).unwrap();
}

#[test]
fn test_hash_verify() {
    let password = "test_password2";
    let password_hash = (default_hash_password(password)).unwrap();

    verify_pass(password, &password_hash).expect("should same pass");
}

#[test]
fn hash_is_a_self_describing_argon2_string() {
    let hash = default_hash_password("secret").unwrap();
    assert!(hash.starts_with("$argon2id$v=19$m=19456,t=2,p=1$"));
    assert_eq!(hash.split('$').count(), 6);
    assert_ne!(hash, "secret");
}

#[test]
fn two_hashes_of_one_password_differ_and_both_verify() {
    let first = default_hash_password("secret").unwrap();
    let second = default_hash_password("secret").unwrap();
    assert_ne!(first, second);
    assert_eq!(verify_pass("secret", &first), Ok(()));
    assert_eq!(verify_pass("secret", &second), Ok(()));
}

#[test]
fn verify_rejects_another_password() {
    let hash = default_hash_password("secret").unwrap();
    assert_eq!(verify_pass("Secret", &hash), Err(HashError::Hash));
    assert_eq!(verify_pass("", &hash), Err(HashError::Hash));
}

#[test]
fn verify_rejects_what_is_no_hash() {
    assert_eq!(verify_pass("secret", "secret"), Err(HashError::Hash));
    assert_eq!(verify_pass("secret", ""), Err(HashError::Hash));
    assert_eq!(verify_pass("secret", "$argon2id$v=19$m=19456,t=2,p=1"), Err(HashError::Hash));
}

#[test]
fn uniq_string_is_the_base64_of_a_uuid() {
    let text = gen_uniq_b64_string();
    assert_eq!(text.len(), 48);
    let decoded = BASE64_STANDARD.decode(&text).unwrap();
    let id = String::from_utf8(decoded).unwrap();
    assert_eq!(id.len(), 36);
    let parsed = uuid::Uuid::parse_str(&id).unwrap();
    assert_eq!(parsed.get_version_num(), 4);
    assert_eq!(parsed.to_string(), id);
}

#[test]
fn uniq_strings_differ() {
    assert_ne!(gen_uniq_b64_string(), gen_uniq_b64_string());
}

#[test]
fn hash_with_salt_is_repeatable() {
    let first = hash_with_salt("secret", "c29tZXNhbHQxMjM0").unwrap();
    let second = hash_with_salt("secret", "c29tZXNhbHQxMjM0").unwrap();
    assert_eq!(first, second);
    assert!(first.starts_with("$argon2id$v=19$m=19456,t=2,p=1$c29tZXNhbHQxMjM0$"));
    assert_eq!(verify_pass("secret", &first), Ok(()));
    let other = hash_with_salt("secret", "b3RoZXJzYWx0MTIz").unwrap();
    assert_ne!(first, other);
}

#[test]
fn hash_with_salt_refuses_a_bad_salt() {
    assert_eq!(hash_with_salt("secret", "abc"), Err(HashError::Salt));
    assert_eq!(hash_with_salt("secret", ""), Err(HashError::Salt));
    assert_eq!(hash_with_salt("secret", "c29tZXNhbHQ="), Err(HashError::Salt));
    assert_eq!(hash_with_salt("secret", "some_salt"), Err(HashError::Salt));
    let long = "a".repeat(65);
    assert_eq!(hash_with_salt("secret", &long), Err(HashError::Salt));
}

#[test]
fn hash_with_salt_accepts_the_shortest_and_longest_salt_text() {
    // four characters pass as a salt text, but decode to fewer bytes than
    // the key derivation takes
    assert_eq!(hash_with_salt("secret", "abcd"), Err(HashError::Hash));
    let longest = "a".repeat(64);
    assert!(hash_with_salt("secret", &longest).is_ok());
}

#[test]
fn hash_with_salt_fails_on_a_salt_that_is_no_base64() {
    assert_eq!(hash_with_salt("secret", "salt.with-dots.and-dashes"), Err(HashError::Hash));
}

#[test]
fn hash_error_messages() {
    assert_eq!(HashError::Salt.message(), "failed to create salt");
    assert_eq!(HashError::Hash.message(), "failed to hash password");
}
