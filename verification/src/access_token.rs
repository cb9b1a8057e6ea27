//! Access tokens: JSON Web Tokens of a user's id and an expiry, signed with
//! HMAC-SHA256 under the server's key.
use vstd::prelude::*;
use crate::api::JwtClaims;
use crate::ids::{format_uuid, uuid_text};

verus! {

/// The compact JSON Web Token with the default header (`{"typ":"JWT","alg":"HS256"}`)
/// and the claims object `{"sub":sub,"exp":exp}`, signed with HMAC-SHA256 under
/// the UTF-8 bytes of `key`.
pub uninterp spec fn hs256_token(sub: Seq<char>, exp: u64, key: Seq<char>) -> Seq<char>;

/// Trusted: `jsonwebtoken::encode` with `Header::default()` (HS256), the
/// claims as a JSON object with `sub` then `exp`, and
/// `EncodingKey::from_secret` over the bytes of `key`. The contract claims
/// that it succeeds and returns the token named `hs256_token` of these values.
/// It succeeds because `encode` fails only when the key's family differs from
/// the algorithm's (`from_secret` makes an HMAC key, HS256 is HMAC), when the
/// HMAC signer cannot be made (`Hmac::new_from_slice` takes a key of any
/// length), or when the header or claims cannot be serialised (a string and a
/// number cannot fail); its HMAC `try_sign` always returns `Ok`. The token
/// depends on these values alone. An error, were there one, would come back
/// as its text.
#[verifier::external_body]
fn sign_hs256(sub: &str, exp: u64, key: &str) -> (signed: Result<String, String>)
    ensures
        signed is Ok,
        signed matches Ok(token) ==> token@ == hs256_token(sub@, exp, key@),
{
    let mut claims = serde_json::Map::new();
    claims.insert("sub".to_string(), serde_json::Value::String(sub.to_string()));
    claims.insert("exp".to_string(), serde_json::Value::from(exp));
    let header = jsonwebtoken::Header::default();
    let secret = jsonwebtoken::EncodingKey::from_secret(key.as_bytes());
    match jsonwebtoken::encode(&header, &serde_json::Value::Object(claims), &secret) {
        Ok(token) => Ok(token),
        Err(e) => Err(e.to_string()),
    }
}

/// Whether `signed` is the result of signing `claims` with `key`: the HS256
/// token of the claims.
pub open spec fn is_signing_of(signed: Result<String, String>, claims: JwtClaims, key: Seq<char>) -> bool {
    signed matches Ok(token) && token@ == hs256_token(claims.sub@, claims.exp, key)
}

/// The access token of the user `user_id` that expires at `exp` (seconds
/// since the epoch), signed with `key`: its claims are the user's id in
/// hyphenated form and the expiry.
pub open spec fn access_token_of(user_id: u128, exp: u64, key: Seq<char>) -> Seq<char> {
    hs256_token(uuid_text(user_id), exp, key)
}

/// Whether `signed` is the result of signing the access token of `user_id`
/// with expiry `exp` and key `key`: that token.
pub open spec fn is_access_token_signing(signed: Result<String, String>, user_id: u128, exp: u64, key: Seq<char>) -> bool {
    signed matches Ok(token) && token@ == access_token_of(user_id, exp, key)
}

/// Signs the access-token claims `claims` with `key` (HS256): the compact
/// token. Signing with an HMAC key does not fail.
pub fn sign_access_token(claims: &JwtClaims, key: &str) -> (signed: Result<String, String>)
    ensures
        is_signing_of(signed, *claims, key@),
{
    sign_hs256(claims.sub.as_str(), claims.exp, key)
}

/// Signs the access token of the user `user_id` that expires at `exp`, with
/// `key`: the claims are the user's id in hyphenated form and the expiry.
pub fn sign_user_token(user_id: u128, exp: u64, key: &str) -> (signed: Result<String, String>)
    ensures
        is_access_token_signing(signed, user_id, exp, key@),
{
    let claims = JwtClaims { sub: format_uuid(user_id), exp };
    sign_access_token(&claims, key)
}

} // verus!
