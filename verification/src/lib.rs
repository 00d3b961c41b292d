//! A stateless bearer-token authentication core: a process-lifetime symmetric
//! signing key, token issuance against a configured credential pair, and
//! token verification used as a request-admission gate.

pub mod auth;
pub mod errors;
pub mod keys;
pub mod token;
