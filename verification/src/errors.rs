//! The error taxonomy of the authentication core and its fixed mapping to
//! HTTP status codes and response bodies.

use vstd::prelude::*;

verus! {

/// The four failure kinds of the authentication core. Every failure of
/// issuance or verification is one of these. Each kind maps to a fixed
/// status and a fixed message, with no detail interpolated, so that no
/// internal state leaks to the caller.
#[derive(Clone, Copy, Debug, PartialEq, Eq, Structural)]
pub enum AuthError {
    InvalidToken,
    WrongCredentials,
    TokenCreation,
    MissingCredentials,
}

impl AuthError {
    /// The HTTP status this kind maps to.
    pub open spec fn status_spec(self) -> u16 {
        match self {
            AuthError::WrongCredentials => 401,
            AuthError::MissingCredentials => 400,
            AuthError::TokenCreation => 500,
            AuthError::InvalidToken => 400,
        }
    }

    pub fn status_code(&self) -> (r: u16)
        ensures
            r == self.status_spec(),
    {
        match self {
            AuthError::WrongCredentials => 401,
            AuthError::MissingCredentials => 400,
            AuthError::TokenCreation => 500,
            AuthError::InvalidToken => 400,
        }
    }

    /// The fixed human-readable message of this kind.
    pub open spec fn message_spec(self) -> Seq<char> {
        match self {
            AuthError::WrongCredentials => "Wrong credentials"@,
            AuthError::MissingCredentials => "Missing credentials"@,
            AuthError::TokenCreation => "Token creation error"@,
            AuthError::InvalidToken => "Invalid token"@,
        }
    }

    pub fn message(&self) -> (r: String)
        ensures
            r@ == self.message_spec(),
    {
        match self {
            AuthError::WrongCredentials => String::from_str("Wrong credentials"),
            AuthError::MissingCredentials => String::from_str("Missing credentials"),
            AuthError::TokenCreation => String::from_str("Token creation error"),
            AuthError::InvalidToken => String::from_str("Invalid token"),
        }
    }

    /// The response body of this kind: a JSON object with a single `error`
    /// field carrying the message.
    pub open spec fn body_spec(self) -> Seq<char> {
        match self {
            AuthError::WrongCredentials => "{\"error\":\"Wrong credentials\"}"@,
            AuthError::MissingCredentials => "{\"error\":\"Missing credentials\"}"@,
            AuthError::TokenCreation => "{\"error\":\"Token creation error\"}"@,
            AuthError::InvalidToken => "{\"error\":\"Invalid token\"}"@,
        }
    }

    pub fn body_json(&self) -> (r: String)
        ensures
            r@ == self.body_spec(),
    {
        match self {
            AuthError::WrongCredentials => String::from_str("{\"error\":\"Wrong credentials\"}"),
            AuthError::MissingCredentials => String::from_str(
                "{\"error\":\"Missing credentials\"}",
            ),
            AuthError::TokenCreation => String::from_str("{\"error\":\"Token creation error\"}"),
            AuthError::InvalidToken => String::from_str("{\"error\":\"Invalid token\"}"),
        }
    }
}

/// Law: every error renders as a JSON object with a single `error` field
/// carrying exactly the error's message, independent of which operation
/// produced it.
pub proof fn lemma_body_wraps_message(e: AuthError)
    ensures
        e.body_spec() == "{\"error\":\""@ + e.message_spec() + "\"}"@,
{
    reveal_strlit("{\"error\":\"");
    reveal_strlit("\"}");
    reveal_strlit("Wrong credentials");
    reveal_strlit("Missing credentials");
    reveal_strlit("Token creation error");
    reveal_strlit("Invalid token");
    reveal_strlit("{\"error\":\"Wrong credentials\"}");
    reveal_strlit("{\"error\":\"Missing credentials\"}");
    reveal_strlit("{\"error\":\"Token creation error\"}");
    reveal_strlit("{\"error\":\"Invalid token\"}");
    match e {
        AuthError::WrongCredentials => {
            assert(e.body_spec() =~= "{\"error\":\""@ + e.message_spec() + "\"}"@);
        },
        AuthError::MissingCredentials => {
            assert(e.body_spec() =~= "{\"error\":\""@ + e.message_spec() + "\"}"@);
        },
        AuthError::TokenCreation => {
            assert(e.body_spec() =~= "{\"error\":\""@ + e.message_spec() + "\"}"@);
        },
        AuthError::InvalidToken => {
            assert(e.body_spec() =~= "{\"error\":\""@ + e.message_spec() + "\"}"@);
        },
    }
}

} // verus!
