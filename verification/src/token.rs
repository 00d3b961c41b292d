//! The trusted boundary to the token signing library and to the clock. The
//! compact token format is outside material: its two operations are given
//! names here, and the rest of the core is specified and proved against
//! those names.

use vstd::prelude::*;

verus! {

/// The compact token that signing the claims (subject `username`, expiry
/// `exp`) with `secret` produces. The default header fixes the algorithm
/// and the claims are serialized with sorted keys, so the token is a
/// function of the three arguments alone.
pub uninterp spec fn token_of(secret: Seq<u8>, username: Seq<char>, exp: u64) -> Seq<char>;

/// What decoding `token` against `secret` yields: the embedded subject and
/// expiry when the signature checks out, nothing otherwise. A function of
/// the two arguments alone; the expiry is compared with the clock by the
/// caller, never here.
pub uninterp spec fn claims_of(secret: Seq<u8>, token: Seq<char>) -> Option<(Seq<char>, u64)>;

/// A decoded subject-and-expiry pair as mathematical values.
pub open spec fn decoded_view(r: Option<(String, u64)>) -> Option<(Seq<char>, u64)> {
    match r {
        Some(p) => Some((p.0@, p.1)),
        None => None,
    }
}

/// Relies on jsonwebtoken::encode with the default header (HMAC-SHA256):
/// the claims are serialized deterministically and signed with `secret`,
/// so the token that comes back is `token_of` the arguments. Signing
/// cannot fail on this path — the key family always matches the default
/// header, serializing a string-and-integer object cannot fail, and the
/// HMAC itself is infallible — and a token is never empty (it is three
/// dot-separated segments, the first never blank).
#[verifier::external_body]
pub(crate) fn encode_claims(secret: &Vec<u8>, username: &String, exp: u64) -> (r: Option<
    String,
>)
    ensures
        r is Some,
        r matches Some(t) ==> t@ == token_of(secret@, username@, exp) && t@.len() > 0,
{
    let mut claims = serde_json::Map::new();
    claims.insert("username".to_string(), serde_json::Value::String(username.clone()));
    claims.insert("exp".to_string(), serde_json::Value::Number(serde_json::Number::from(exp)));
    jsonwebtoken::encode(
        &jsonwebtoken::Header::default(),
        &serde_json::Value::Object(claims),
        &jsonwebtoken::EncodingKey::from_secret(secret),
    ).ok()
}

/// Relies on jsonwebtoken::decode with HMAC-SHA256 and expiry validation
/// turned off: decoding is a function of the token and the secret alone,
/// it yields the embedded claims exactly when the signature verifies, and
/// in particular a token produced by jsonwebtoken::encode under the same
/// secret decodes to the claims it was minted from.
#[verifier::external_body]
pub(crate) fn decode_claims(secret: &Vec<u8>, token: &String) -> (r: Option<(String, u64)>)
    ensures
        decoded_view(r) == claims_of(secret@, token@),
        forall|u: Seq<char>, e: u64|
            token@ == token_of(secret@, u, e) ==> decoded_view(r) == Some((u, e)),
{
    let mut validation = jsonwebtoken::Validation::default();
    validation.validate_exp = false;
    validation.required_spec_claims.clear();
    let data = jsonwebtoken::decode::<serde_json::Value>(
        token,
        &jsonwebtoken::DecodingKey::from_secret(secret),
        &validation,
    ).ok()?;
    let username = data.claims.get("username")?.as_str()?.to_string();
    let exp = data.claims.get("exp")?.as_u64()?;
    Some((username, exp))
}

/// Relies on chrono::Utc::now for the current time, in whole seconds since
/// the epoch. Nothing is promised of the value.
#[verifier::external_body]
pub(crate) fn now_seconds() -> (r: i64) {
    chrono::Utc::now().timestamp()
}

} // verus!
