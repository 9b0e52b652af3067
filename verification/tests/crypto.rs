use qwiz::crypto::{encode_password, encode_password_with_iterations, validate_password, validate_username, verify_password, MAX_ITERATIONS};
use sha2::{Digest, Sha512};

fn rehash(password: &str, n: u32) -> String {
    let mut bytes = Sha512::digest(password.as_bytes()).to_vec();
    for _ in 0..n {
        bytes = Sha512::digest(&bytes).to_vec();
    }
    hex::encode(bytes)
}

#[test]
fn sha512_known_vector_with_no_rehash() {
    let s = encode_password_with_iterations(&"abc".to_string(), 0);
    assert_eq!(
        s,
        "ddaf35a193617abacc417349ae20413112e6fa4e89a97ea20a9eeee64b55d39a2192992a274fc1a836ba3c23a3feebbd454d4423643ce80e2a9ac94fa54ca49f"
    );
}

#[test]
fn encoding_rehashes_the_digest() {
    let s = encode_password_with_iterations(&"Secret#1".to_string(), 3);
    assert_eq!(s, rehash("Secret#1", 3));
    assert_ne!(s, rehash("Secret#1", 2));
    assert_eq!(s.len(), 128);
}

#[test]
fn encoded_password_verifies() {
    let password = "Correct#Horse9".to_string();
    for _ in 0..20 {
        let hash = encode_password(&password);
        assert!(verify_password(&password, &hash));
        assert!(!verify_password(&"correct#Horse9".to_string(), &hash));
    }
}

#[test]
fn verify_bounds_on_rehash_count() {
    let password = "Pa55word!".to_string();
    assert!(verify_password(&password, &rehash("Pa55word!", 1)));
    assert!(verify_password(&password, &rehash("Pa55word!", MAX_ITERATIONS)));
    assert!(!verify_password(&password, &rehash("Pa55word!", MAX_ITERATIONS + 1)));
    assert!(!verify_password(&password, &rehash("Pa55word!", 0)));
}

#[test]
fn password_rules() {
    assert!(validate_password(&"Abcdef1!".to_string()));
    assert!(!validate_password(&"Abcde1!".to_string()));
    assert!(!validate_password(&"abcdef1!".to_string()));
    assert!(!validate_password(&"ABCDEF1!".to_string()));
    assert!(!validate_password(&"Abcdefg!".to_string()));
    assert!(!validate_password(&"Abcdefg1".to_string()));
    assert!(!validate_password(&"Abcd ef1!".to_string()));
    assert!(!validate_password(&"Abcdéf1!".to_string()));
    assert!(validate_password(&"zZ9~zZ9~".to_string()));
    assert!(validate_password(&"{Aa0aaaaa".to_string()));
}

#[test]
fn username_rules() {
    assert!(validate_username(&"abc".to_string()));
    assert!(validate_username(&"A_b9".to_string()));
    assert!(!validate_username(&"ab".to_string()));
    assert!(!validate_username(&"ab-c".to_string()));
    assert!(!validate_username(&"abé".to_string()));
    assert!(!validate_username(&"a b".to_string()));
}

#[test]
fn password_check_ignores_byte_order() {
    assert!(validate_password(&"Abcdef1!".to_string()));
    assert!(validate_password(&"1!fedcbA".to_string()));
    assert!(!validate_password(&"abcdef1!".to_string()));
    assert!(!validate_password(&"!1fedcba".to_string()));
}

#[test]
fn joined_valid_usernames_stay_valid() {
    let u = "ab_".to_string();
    let v = "C9x".to_string();
    assert!(validate_username(&u) && validate_username(&v));
    assert!(validate_username(&(u.clone() + &v)));
}
