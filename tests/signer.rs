use base64::Engine;
use switchbot_cli_tool::signer::{generate_signature, random_nonce, sign_with};

#[test]
fn known_signature() {
    let s = sign_with("my-token", "my-secret", 1700000000000, "abcdefghijklmnop".to_string());
    assert_eq!(s.timestamp, "1700000000000");
    assert_eq!(s.nonce, "abcdefghijklmnop");
    assert_eq!(s.sign, "T5HCgKiR2ZUkyaUcsE9Cn1S5EP619Q2uWQ/tk6ecbio=");
}

#[test]
fn empty_secret_is_a_valid_key() {
    let s = sign_with("my-token", "", 1700000000000, "abcdefghijklmnop".to_string());
    assert_eq!(s.sign, "3DKeCg76nChVRcssUvtMOPM7jpINs5enwUwLdKs628g=");
}

#[test]
fn nonce_shape() {
    let n = random_nonce();
    assert_eq!(n.chars().count(), 16);
    assert!(n.chars().all(|c| c.is_ascii_alphanumeric()));
}

#[test]
fn signing_twice_differs_and_decodes_to_32_bytes() {
    let a = generate_signature("token", "secret").unwrap();
    let b = generate_signature("token", "secret").unwrap();
    assert_ne!(a.nonce, b.nonce);
    assert_ne!(a.sign, b.sign);
    for s in [&a, &b] {
        assert_eq!(s.sign.len(), 44);
        let bytes = base64::engine::general_purpose::STANDARD.decode(&s.sign).unwrap();
        assert_eq!(bytes.len(), 32);
        assert!(!s.timestamp.is_empty());
        assert!(s.timestamp.chars().all(|c| c.is_ascii_digit()));
        let again = sign_with("token", "secret", s.timestamp.parse().unwrap(), s.nonce.clone());
        assert_eq!(again.sign, s.sign);
    }
}
