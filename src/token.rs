//! Signed identity tokens: a compact JWS over HMAC-SHA256.
use hmac::{Hmac, Mac};
use jwt::SignWithKey;
use sha2::Sha256;
use std::collections::BTreeMap;
use vstd::prelude::*;

use crate::password::opt_view;

verus! {

/// The issuer named in every identity token.
pub const ISSUER: &'static str = "https://auth.snazzyfellas.com";

/// The compact HS256 token that signs the JSON object of `claims` with the
/// key `secret`, or `None` where signing fails.
pub uninterp spec fn hs256_token_of(secret: Seq<char>, claims: Seq<(Seq<char>, Seq<char>)>) -> Option<Seq<char>>;

/// The text of each claim name and value.
pub open spec fn claims_view(claims: Seq<(String, String)>) -> Seq<(Seq<char>, Seq<char>)> {
    claims.map_values(|c: (String, String)| (c.0@, c.1@))
}

/// The claims of an identity token for the subject `sub`.
pub open spec fn identity_claims(sub: Seq<char>) -> Seq<(Seq<char>, Seq<char>)> {
    seq![("sub"@, sub), ("iss"@, ISSUER@)]
}

/// Relies on hmac's `Hmac::<Sha256>::new_from_slice` and jwt's
/// `sign_with_key` on a `BTreeMap` of claims: a deterministic token for the
/// secret and the claims.
#[verifier::external_body]
fn sign_hs256(secret: &str, claims: &Vec<(String, String)>) -> (r: Option<String>)
    ensures
        opt_view(r) == hs256_token_of(secret@, claims_view(claims@)),
{
    let key: Hmac<Sha256> = match Hmac::new_from_slice(secret.as_bytes()) {
        Ok(k) => k,
        Err(_) => return None,
    };
    let map: BTreeMap<&str, &str> = claims.iter().map(|c| (c.0.as_str(), c.1.as_str())).collect();
    map.sign_with_key(&key).ok()
}

/// Signs an identity token asserting `subject`, issued by `ISSUER`.
pub fn sign_identity_token(secret: &str, subject: &str) -> (r: Option<String>)
    ensures
        opt_view(r) == hs256_token_of(secret@, identity_claims(subject@)),
{
    let claims: Vec<(String, String)> = vec![
        ("sub".to_owned(), subject.to_owned()),
        ("iss".to_owned(), ISSUER.to_owned()),
    ];
    assert(claims_view(claims@) =~= identity_claims(subject@));
    sign_hs256(secret, &claims)
}

} // verus!
