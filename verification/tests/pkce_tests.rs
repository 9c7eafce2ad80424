use base64::Engine;
use oauth_pkce::pkce::{random_url_safe, PkceMaterial};
use sha2::Digest;
use std::collections::HashSet;

#[test]
fn challenge_is_b64url_sha256_of_verifier() {
    let m = PkceMaterial::generate();
    let digest = sha2::Sha256::digest(m.verifier.as_bytes());
    let expected = base64::engine::general_purpose::URL_SAFE_NO_PAD.encode(digest);
    assert_eq!(m.challenge, expected);
}

#[test]
fn verifier_length_within_pkce_bounds() {
    let m = PkceMaterial::generate();
    assert!(m.verifier.len() >= 43);
    assert!(m.verifier.len() <= 128);
    assert_eq!(m.verifier.len(), 86);
}

#[test]
fn state_has_thirty_two_urlsafe_chars() {
    let m = PkceMaterial::generate();
    assert_eq!(m.state.len(), 32);
    assert!(m
        .state
        .chars()
        .all(|c| c.is_ascii_alphanumeric() || c == '-' || c == '_'));
    assert!(m
        .verifier
        .chars()
        .all(|c| c.is_ascii_alphanumeric() || c == '-' || c == '_'));
}

#[test]
fn thousand_states_are_distinct() {
    let mut seen: HashSet<String> = HashSet::new();
    for _ in 0..1000 {
        let m = PkceMaterial::generate();
        seen.insert(m.state);
    }
    assert_eq!(seen.len(), 1000);
}

#[test]
fn fresh_material_differs_between_attempts() {
    let a = PkceMaterial::generate();
    let b = PkceMaterial::generate();
    assert_ne!(a.state, b.state);
    assert_ne!(a.verifier, b.verifier);
    assert_ne!(a.challenge, b.challenge);
}

#[test]
fn random_url_safe_lengths() {
    assert_eq!(random_url_safe(0).len(), 0);
    assert_eq!(random_url_safe(1).len(), 2);
    assert_eq!(random_url_safe(2).len(), 3);
    assert_eq!(random_url_safe(3).len(), 4);
    assert_eq!(random_url_safe(24).len(), 32);
    assert_eq!(random_url_safe(64).len(), 86);
}
