//! The token authenticator: issuance of signed, time-limited tokens from a
//! credential check, and verification of presented tokens as a
//! request-admission gate.

use crate::errors::AuthError;
use crate::keys::Keys;
use crate::token::claims_of;
use crate::token::decode_claims;
use crate::token::encode_claims;
use crate::token::now_seconds;
use crate::token::token_of;
use vstd::prelude::*;

verus! {

/// How long a freshly issued token stays valid, in seconds: 24 hours.
pub const TOKEN_VALIDITY_SECS: u64 = 86400;

/// A credential pair presented for issuance: a client identifier and a
/// client secret. Transient; it exists only for one issuance request and
/// is never stored.
pub struct AuthPayload {
    pub client_id: String,
    pub client_secret: String,
}

impl AuthPayload {
    /// Either field is empty.
    pub open spec fn missing(&self) -> bool {
        self.client_id@.len() == 0 || self.client_secret@.len() == 0
    }

    /// The pair equals the configured expected pair.
    pub open spec fn matches_expected(&self) -> bool {
        self.client_id@ == "foo"@ && self.client_secret@ == "bar"@
    }
}

/// The authenticated identity embedded in a token: a subject identifier
/// and an absolute expiry in seconds since the epoch. Immutable once
/// minted; it is the token's entire semantic content.
#[derive(Debug)]
pub struct Claims {
    pub username: String,
    pub exp: u64,
}

/// The success body of an issuance call: the token and the fixed
/// token-type label.
#[derive(Debug)]
pub struct AuthBody {
    pub access_token: String,
    pub token_type: String,
}

impl AuthBody {
    pub fn new(access_token: String) -> (r: Self)
        ensures
            r.access_token@ == access_token@,
            r.token_type@ == "Bearer"@,
    {
        AuthBody { access_token, token_type: String::from_str("Bearer") }
    }
}

/// Issue a token for `payload` as of time `now` (seconds since the epoch):
/// reject an empty field first, then a pair other than the expected one,
/// and otherwise sign claims that expire one validity window after `now`.
pub fn issue_at(payload: &AuthPayload, keys: &Keys, now: u64) -> (r: Result<
    AuthBody,
    AuthError,
>)
    requires
        now + TOKEN_VALIDITY_SECS <= u64::MAX,
    ensures
        payload.missing() ==> r matches Err(AuthError::MissingCredentials),
        !payload.missing() && !payload.matches_expected() ==> r matches Err(
            AuthError::WrongCredentials,
        ),
        !payload.missing() && payload.matches_expected() ==> (r matches Ok(b)
            && b.access_token@ == token_of(
            keys@,
            payload.client_id@,
            (now + TOKEN_VALIDITY_SECS) as u64,
        ) && b.access_token@.len() > 0 && b.token_type@ == "Bearer"@),
{
    if payload.client_id.as_str().is_empty() || payload.client_secret.as_str().is_empty() {
        return Err(AuthError::MissingCredentials);
    }
    if !(payload.client_id == String::from_str("foo")) || !(payload.client_secret
        == String::from_str("bar")) {
        return Err(AuthError::WrongCredentials);
    }
    let exp: u64 = now + TOKEN_VALIDITY_SECS;
    match encode_claims(keys.secret_bytes(), &payload.client_id, exp) {
        Some(token) => Ok(AuthBody::new(token)),
        None => Err(AuthError::TokenCreation),
    }
}

/// Issue a token for `payload` as of the current clock.
pub fn authorize(payload: &AuthPayload, keys: &Keys) -> (r: Result<AuthBody, AuthError>)
    ensures
        payload.missing() ==> r matches Err(AuthError::MissingCredentials),
        !payload.missing() && !payload.matches_expected() ==> r matches Err(
            AuthError::WrongCredentials,
        ),
        !payload.missing() && payload.matches_expected() ==> (r matches Ok(b)
            && b.token_type@ == "Bearer"@ && b.access_token@.len() > 0 && (exists|xp: u64|
            b.access_token@ == token_of(keys@, payload.client_id@, xp))),
{
    let t = now_seconds();
    let now: u64 = if t >= 0 {
        t as u64
    } else {
        0
    };
    issue_at(payload, keys, now)
}

/// Verify a presented token against the key material as of time `now`:
/// a token whose signature does not check out, or whose embedded expiry is
/// not in the future, is rejected, and every cause collapses into
/// `InvalidToken`. A token that decodes and has not expired yields the
/// claims it embeds; in particular every token minted by the signing call
/// under the same secret decodes to the claims it was minted from.
pub fn verify_token(token: &String, keys: &Keys, now: u64) -> (r: Result<Claims, AuthError>)
    ensures
        match claims_of(keys@, token@) {
            Some(c) => {
                &&& c.1 > now ==> (r matches Ok(cl) && cl.username@ == c.0 && cl.exp == c.1)
                &&& c.1 <= now ==> r matches Err(AuthError::InvalidToken)
            },
            None => r matches Err(AuthError::InvalidToken),
        },
        forall|u: Seq<char>, e: u64|
            token@ == token_of(keys@, u, e) ==> claims_of(keys@, token@) == Some((u, e)),
{
    match decode_claims(keys.secret_bytes(), token) {
        Some(p) => {
            if p.1 > now {
                Ok(Claims { username: p.0, exp: p.1 })
            } else {
                Err(AuthError::InvalidToken)
            }
        },
        None => Err(AuthError::InvalidToken),
    }
}

/// The view of an optional authorization header value.
pub open spec fn header_view(h: &Option<String>) -> Option<Seq<char>> {
    match *h {
        Some(s) => Some(s@),
        None => None,
    }
}

/// A header value opens with the bearer scheme: the word `Bearer` — in any
/// letter case, as HTTP authentication schemes are case-insensitive — and
/// one space.
pub open spec fn is_bearer_scheme(h: Seq<char>) -> bool {
    &&& h.len() >= 7
    &&& (h[0] == 'B' || h[0] == 'b')
    &&& (h[1] == 'e' || h[1] == 'E')
    &&& (h[2] == 'a' || h[2] == 'A')
    &&& (h[3] == 'r' || h[3] == 'R')
    &&& (h[4] == 'e' || h[4] == 'E')
    &&& (h[5] == 'r' || h[5] == 'R')
    &&& h[6] == ' '
}

/// The token carried by an authorization header value, when the value uses
/// the bearer scheme: what follows the scheme and its space. An absent
/// header, a value too short, or another scheme carries no token.
pub open spec fn bearer_of(header: Option<Seq<char>>) -> Option<Seq<char>> {
    match header {
        Some(h) => if is_bearer_scheme(h) {
            Some(h.subrange(7, h.len() as int))
        } else {
            None
        },
        None => None,
    }
}

/// Law: a header value built by prefixing any token with the bearer
/// scheme carries exactly that token, so extraction undoes what a client
/// that follows the scheme does.
pub proof fn lemma_bearer_roundtrip(t: Seq<char>)
    ensures
        bearer_of(Some("Bearer "@ + t)) == Some(t),
{
    reveal_strlit("Bearer ");
    let h = "Bearer "@ + t;
    assert(is_bearer_scheme(h));
    assert(h.subrange(7, h.len() as int) =~= t);
}

/// Extract the bearer token from an authorization header value. An absent
/// header, a malformed value or a non-bearer scheme fails with
/// `InvalidToken`.
pub fn extract_bearer(header: &Option<String>) -> (r: Result<String, AuthError>)
    ensures
        match bearer_of(header_view(header)) {
            Some(t) => r matches Ok(s) && s@ == t,
            None => r matches Err(AuthError::InvalidToken),
        },
{
    match header {
        None => Err(AuthError::InvalidToken),
        Some(h) => {
            let n = h.as_str().unicode_len();
            if n < 7 {
                return Err(AuthError::InvalidToken);
            }
            if has_bearer_scheme(h.as_str()) {
                Ok(String::from_str(h.as_str().substring_char(7, n)))
            } else {
                Err(AuthError::InvalidToken)
            }
        },
    }
}

/// Case-insensitive check of the bearer scheme at the front of a header
/// value.
fn has_bearer_scheme(h: &str) -> (r: bool)
    requires
        h@.len() >= 7,
    ensures
        r == is_bearer_scheme(h@),
{
    let c0 = h.get_char(0);
    let c1 = h.get_char(1);
    let c2 = h.get_char(2);
    let c3 = h.get_char(3);
    let c4 = h.get_char(4);
    let c5 = h.get_char(5);
    let c6 = h.get_char(6);
    (c0 == 'B' || c0 == 'b') && (c1 == 'e' || c1 == 'E') && (c2 == 'a' || c2 == 'A') && (c3 == 'r'
        || c3 == 'R') && (c4 == 'e' || c4 == 'E') && (c5 == 'r' || c5 == 'R') && c6 == ' '
}

/// Verify the authorization header of a request as of time `now`: extract
/// the bearer token, then verify it. Requests without a valid bearer token
/// never yield claims.
pub fn verify_bearer(header: &Option<String>, keys: &Keys, now: u64) -> (r: Result<
    Claims,
    AuthError,
>)
    ensures
        bearer_of(header_view(header)) is None ==> r matches Err(AuthError::InvalidToken),
        bearer_of(header_view(header)) matches Some(t) ==> (match claims_of(keys@, t) {
            Some(c) => {
                &&& c.1 > now ==> (r matches Ok(cl) && cl.username@ == c.0 && cl.exp == c.1)
                &&& c.1 <= now ==> r matches Err(AuthError::InvalidToken)
            },
            None => r matches Err(AuthError::InvalidToken),
        }),
        bearer_of(header_view(header)) matches Some(t) ==> (forall|u: Seq<char>, e: u64|
            t == token_of(keys@, u, e) ==> claims_of(keys@, t) == Some((u, e))),
{
    match extract_bearer(header) {
        Err(e) => Err(e),
        Ok(token) => verify_token(&token, keys, now),
    }
}

/// The admission gate: verify the authorization header of a request as of
/// the current clock. It runs before any protected handler logic; a
/// request that fails it never reaches the handler, and every failure
/// cause collapses into `InvalidToken`.
pub fn authenticate(header: &Option<String>, keys: &Keys) -> (r: Result<Claims, AuthError>)
    ensures
        bearer_of(header_view(header)) is None ==> r matches Err(AuthError::InvalidToken),
        r matches Err(e) ==> e == AuthError::InvalidToken,
        r matches Ok(c) ==> (bearer_of(header_view(header)) matches Some(t) && claims_of(
            keys@,
            t,
        ) == Some((c.username@, c.exp))),
{
    let t = now_seconds();
    let now: u64 = if t >= 0 {
        t as u64
    } else {
        0
    };
    verify_bearer(header, keys, now)
}

/// The protected resource body: greet the authenticated subject. It runs
/// only for requests the admission gate let through.
pub fn protected(claims: &Claims) -> (r: String)
    ensures
        r@ == "Welcome to the protected area, "@ + claims.username@ + "!"@,
{
    let mut s = String::from_str("Welcome to the protected area, ");
    s.append(claims.username.as_str());
    s.append("!");
    s
}

} // verus!
