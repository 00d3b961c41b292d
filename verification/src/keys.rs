//! The key material provider: one symmetric secret for the process
//! lifetime, used both to sign and to verify tokens. It is generated from a
//! cryptographically sourced random alphanumeric string and never leaves
//! the process.

use rand::distributions::DistString;
use vstd::prelude::*;
use vstd::slice::slice_to_vec;

verus! {

/// Length of a generated secret, in bytes.
pub const SECRET_LEN: usize = 60;

/// The byte of an ASCII alphanumeric character: `0`..`9`, `A`..`Z` or
/// `a`..`z`.
pub open spec fn is_alphanumeric_byte(b: u8) -> bool {
    (48 <= b && b <= 57) || (65 <= b && b <= 90) || (97 <= b && b <= 122)
}

/// Relies on rand's `Alphanumeric` distribution: `sample_string` draws
/// `len` characters uniformly from `A`..`Z`, `a`..`z` and `0`..`9`, each of
/// which is a single byte. Which bytes come back is random; nothing more is
/// promised of them.
#[verifier::external_body]
fn random_alphanumeric_bytes(len: usize) -> (r: Vec<u8>)
    ensures
        r@.len() == len,
        forall|i: int| 0 <= i < r@.len() ==> is_alphanumeric_byte(r@[i]),
{
    rand::distributions::Alphanumeric.sample_string(&mut rand::thread_rng(), len).into_bytes()
}

/// The signing and verification key material: one opaque symmetric secret,
/// whose two operational forms (signing and verification) are derived from
/// the same bytes. Owned exclusively by the process; invalidating it is as
/// simple as dropping it.
pub struct Keys {
    secret: Vec<u8>,
}

impl View for Keys {
    type V = Seq<u8>;

    closed spec fn view(&self) -> Seq<u8> {
        self.secret@
    }
}

impl Keys {
    /// Well-formed key material: a secret of the configured length, all of
    /// whose bytes are alphanumeric.
    pub open spec fn wf(&self) -> bool {
        &&& self@.len() == SECRET_LEN
        &&& forall|i: int| 0 <= i < self@.len() ==> is_alphanumeric_byte(self@[i])
    }

    pub fn new(secret: &[u8]) -> (r: Self)
        ensures
            r@ == secret@,
    {
        Keys { secret: slice_to_vec(secret) }
    }

    /// Generate fresh key material from a random alphanumeric secret of the
    /// configured length.
    pub fn generate() -> (r: Self)
        ensures
            r.wf(),
    {
        Keys { secret: random_alphanumeric_bytes(SECRET_LEN) }
    }

    /// The raw secret, for the trusted signing and verification calls.
    pub(crate) fn secret_bytes(&self) -> (r: &Vec<u8>)
        ensures
            r@ == self@,
    {
        &self.secret
    }
}

} // verus!
