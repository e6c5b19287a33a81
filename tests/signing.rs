use base64::engine::Engine;
use hmac::{Hmac, Mac};
use jwt::VerifyWithKey;
use sf_auth::token::{sign_identity_token, ISSUER};
use sha2::Sha256;
use std::collections::BTreeMap;

#[test]
fn identity_token_layout() {
    let token = sign_identity_token("server-secret", "user-1").unwrap();
    let parts: Vec<&str> = token.split('.').collect();
    assert_eq!(parts.len(), 3);
    let engine = base64::engine::general_purpose::URL_SAFE_NO_PAD;
    assert_eq!(engine.decode(parts[0]).unwrap(), br#"{"alg":"HS256"}"#.to_vec());
    let claims = String::from_utf8(engine.decode(parts[1]).unwrap()).unwrap();
    assert_eq!(
        claims,
        format!("{{\"iss\":\"{}\",\"sub\":\"user-1\"}}", ISSUER)
    );
}

#[test]
fn identity_token_verifies_with_secret() {
    let token = sign_identity_token("server-secret", "user-1").unwrap();
    let key: Hmac<Sha256> = Hmac::new_from_slice(b"server-secret").unwrap();
    let claims: BTreeMap<String, String> = token.as_str().verify_with_key(&key).unwrap();
    assert_eq!(claims["sub"], "user-1");
    assert_eq!(claims["iss"], "https://auth.snazzyfellas.com");
    let other: Hmac<Sha256> = Hmac::new_from_slice(b"other-secret").unwrap();
    let refused: Result<BTreeMap<String, String>, _> = token.as_str().verify_with_key(&other);
    assert!(refused.is_err());
}

#[test]
fn identity_token_is_deterministic() {
    assert_eq!(
        sign_identity_token("k", "u"),
        sign_identity_token("k", "u")
    );
    assert_ne!(
        sign_identity_token("k", "u"),
        sign_identity_token("k", "v")
    );
}
