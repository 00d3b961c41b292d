use svg_server::auth::{
    authenticate, authorize, extract_bearer, issue_at, protected, verify_bearer, verify_token,
    AuthBody, AuthPayload, TOKEN_VALIDITY_SECS,
};
use svg_server::errors::AuthError;
use svg_server::keys::Keys;

const NOW: u64 = 1_700_000_000;

fn payload(id: &str, secret: &str) -> AuthPayload {
    AuthPayload { client_id: id.to_string(), client_secret: secret.to_string() }
}

#[test]
fn issue_and_verify_roundtrip() {
    let keys = Keys::generate();
    let body = issue_at(&payload("foo", "bar"), &keys, NOW).unwrap();
    assert_eq!(body.token_type, "Bearer");
    assert!(!body.access_token.is_empty());
    let claims = verify_token(&body.access_token, &keys, NOW).unwrap();
    assert_eq!(claims.username, "foo");
    assert_eq!(claims.exp, NOW + TOKEN_VALIDITY_SECS);
}

#[test]
fn verify_just_before_expiry() {
    let keys = Keys::generate();
    let body = issue_at(&payload("foo", "bar"), &keys, NOW).unwrap();
    let at = NOW + TOKEN_VALIDITY_SECS - 1;
    let claims = verify_token(&body.access_token, &keys, at).unwrap();
    assert_eq!(claims.username, "foo");
}

#[test]
fn verify_expired_token_fails() {
    let keys = Keys::generate();
    let body = issue_at(&payload("foo", "bar"), &keys, NOW).unwrap();
    let r = verify_token(&body.access_token, &keys, NOW + TOKEN_VALIDITY_SECS);
    assert!(matches!(r, Err(AuthError::InvalidToken)));
    let r = verify_token(&body.access_token, &keys, NOW + TOKEN_VALIDITY_SECS + 1);
    assert!(matches!(r, Err(AuthError::InvalidToken)));
}

#[test]
fn issue_missing_credentials() {
    let keys = Keys::generate();
    let r = issue_at(&payload("", "bar"), &keys, NOW);
    assert!(matches!(r, Err(AuthError::MissingCredentials)));
    let r = issue_at(&payload("foo", ""), &keys, NOW);
    assert!(matches!(r, Err(AuthError::MissingCredentials)));
    let r = issue_at(&payload("", ""), &keys, NOW);
    assert!(matches!(r, Err(AuthError::MissingCredentials)));
    // An empty field wins over a mismatch: emptiness is checked first.
    let r = issue_at(&payload("", "wrong"), &keys, NOW);
    assert!(matches!(r, Err(AuthError::MissingCredentials)));
}

#[test]
fn issue_wrong_credentials() {
    let keys = Keys::generate();
    let r = issue_at(&payload("foo", "wrong"), &keys, NOW);
    assert!(matches!(r, Err(AuthError::WrongCredentials)));
    let r = issue_at(&payload("baz", "bar"), &keys, NOW);
    assert!(matches!(r, Err(AuthError::WrongCredentials)));
    let r = issue_at(&payload("bar", "foo"), &keys, NOW);
    assert!(matches!(r, Err(AuthError::WrongCredentials)));
}

#[test]
fn tampered_signature_fails() {
    let keys = Keys::generate();
    let body = issue_at(&payload("foo", "bar"), &keys, NOW).unwrap();
    let token = body.access_token;
    let sig_start = token.rfind('.').unwrap() + 1;
    assert!(sig_start < token.len());
    for i in sig_start..token.len() {
        let mut bytes = token.clone().into_bytes();
        bytes[i] = if bytes[i] == b'A' { b'B' } else { b'A' };
        let tampered = String::from_utf8(bytes).unwrap();
        if tampered == token {
            continue;
        }
        let r = verify_token(&tampered, &keys, NOW);
        assert!(matches!(r, Err(AuthError::InvalidToken)));
    }
}

#[test]
fn wrong_key_fails() {
    let keys = Keys::generate();
    let other = Keys::generate();
    let body = issue_at(&payload("foo", "bar"), &keys, NOW).unwrap();
    let r = verify_token(&body.access_token, &other, NOW);
    assert!(matches!(r, Err(AuthError::InvalidToken)));
}

#[test]
fn garbage_token_fails() {
    let keys = Keys::generate();
    let r = verify_token(&"not.a.token".to_string(), &keys, NOW);
    assert!(matches!(r, Err(AuthError::InvalidToken)));
    let r = verify_token(&String::new(), &keys, NOW);
    assert!(matches!(r, Err(AuthError::InvalidToken)));
}

#[test]
fn bearer_extraction() {
    let r = extract_bearer(&None);
    assert!(matches!(r, Err(AuthError::InvalidToken)));
    let r = extract_bearer(&Some("Basic Zm9vOmJhcg==".to_string()));
    assert!(matches!(r, Err(AuthError::InvalidToken)));
    let r = extract_bearer(&Some("abc".to_string()));
    assert!(matches!(r, Err(AuthError::InvalidToken)));
    let r = extract_bearer(&Some("Bearer abc.def.ghi".to_string()));
    assert_eq!(r.unwrap(), "abc.def.ghi");
}

#[test]
fn bearer_scheme_is_case_insensitive() {
    let r = extract_bearer(&Some("bearer abc.def.ghi".to_string()));
    assert_eq!(r.unwrap(), "abc.def.ghi");
    let r = extract_bearer(&Some("BEARER abc.def.ghi".to_string()));
    assert_eq!(r.unwrap(), "abc.def.ghi");
    let r = extract_bearer(&Some("BeArEr abc.def.ghi".to_string()));
    assert_eq!(r.unwrap(), "abc.def.ghi");
    // The space after the scheme is required, and no other scheme passes.
    let r = extract_bearer(&Some("Bearerabc.def.ghi".to_string()));
    assert!(matches!(r, Err(AuthError::InvalidToken)));
    let r = extract_bearer(&Some("Bearded abc.def.ghi".to_string()));
    assert!(matches!(r, Err(AuthError::InvalidToken)));
}

#[test]
fn admission_with_lowercase_scheme_succeeds() {
    let keys = Keys::generate();
    let body = issue_at(&payload("foo", "bar"), &keys, NOW).unwrap();
    let header = Some(format!("bearer {}", body.access_token));
    let claims = verify_bearer(&header, &keys, NOW).unwrap();
    assert_eq!(claims.username, "foo");
}

#[test]
fn admission_without_header_fails() {
    let keys = Keys::generate();
    let r = verify_bearer(&None, &keys, NOW);
    assert!(matches!(r, Err(AuthError::InvalidToken)));
    let r = authenticate(&None, &keys);
    assert!(matches!(r, Err(AuthError::InvalidToken)));
}

#[test]
fn admission_with_wrong_scheme_fails() {
    let keys = Keys::generate();
    let body = issue_at(&payload("foo", "bar"), &keys, NOW).unwrap();
    let header = Some(format!("Basic {}", body.access_token));
    let r = verify_bearer(&header, &keys, NOW);
    assert!(matches!(r, Err(AuthError::InvalidToken)));
    let header = Some(body.access_token);
    let r = verify_bearer(&header, &keys, NOW);
    assert!(matches!(r, Err(AuthError::InvalidToken)));
}

#[test]
fn admission_with_valid_bearer_succeeds() {
    let keys = Keys::generate();
    let body = issue_at(&payload("foo", "bar"), &keys, NOW).unwrap();
    let header = Some(format!("Bearer {}", body.access_token));
    let claims = verify_bearer(&header, &keys, NOW).unwrap();
    assert_eq!(claims.username, "foo");
    assert_eq!(claims.exp, NOW + TOKEN_VALIDITY_SECS);
}

#[test]
fn authorize_and_authenticate_at_the_real_clock() {
    let keys = Keys::generate();
    let body = authorize(&payload("foo", "bar"), &keys).unwrap();
    assert_eq!(body.token_type, "Bearer");
    let header = Some(format!("Bearer {}", body.access_token));
    let claims = authenticate(&header, &keys).unwrap();
    assert_eq!(claims.username, "foo");
    let r = authorize(&payload("foo", "wrong"), &keys);
    assert!(matches!(r, Err(AuthError::WrongCredentials)));
}

#[test]
fn protected_greets_the_subject() {
    let keys = Keys::generate();
    let body = issue_at(&payload("foo", "bar"), &keys, NOW).unwrap();
    let claims = verify_token(&body.access_token, &keys, NOW).unwrap();
    assert_eq!(protected(&claims), "Welcome to the protected area, foo!");
}

#[test]
fn auth_body_carries_bearer_label() {
    let b = AuthBody::new("abc".to_string());
    assert_eq!(b.access_token, "abc");
    assert_eq!(b.token_type, "Bearer");
}

#[test]
fn error_mapping_table() {
    assert_eq!(AuthError::WrongCredentials.status_code(), 401);
    assert_eq!(AuthError::MissingCredentials.status_code(), 400);
    assert_eq!(AuthError::TokenCreation.status_code(), 500);
    assert_eq!(AuthError::InvalidToken.status_code(), 400);
    assert_eq!(AuthError::WrongCredentials.message(), "Wrong credentials");
    assert_eq!(AuthError::MissingCredentials.message(), "Missing credentials");
    assert_eq!(AuthError::TokenCreation.message(), "Token creation error");
    assert_eq!(AuthError::InvalidToken.message(), "Invalid token");
    assert_eq!(AuthError::WrongCredentials.body_json(), "{\"error\":\"Wrong credentials\"}");
    assert_eq!(AuthError::MissingCredentials.body_json(), "{\"error\":\"Missing credentials\"}");
    assert_eq!(AuthError::TokenCreation.body_json(), "{\"error\":\"Token creation error\"}");
    assert_eq!(AuthError::InvalidToken.body_json(), "{\"error\":\"Invalid token\"}");
}

#[test]
fn generated_keys_differ_across_calls() {
    let keys = Keys::generate();
    let other = Keys::generate();
    let body = issue_at(&payload("foo", "bar"), &keys, NOW).unwrap();
    let same = verify_token(&body.access_token, &keys, NOW);
    let cross = verify_token(&body.access_token, &other, NOW);
    assert!(same.is_ok());
    assert!(matches!(cross, Err(AuthError::InvalidToken)));
}
