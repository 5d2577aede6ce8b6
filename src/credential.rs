use vstd::prelude::*;

use crate::errors::ServiceError;

verus! {

#[verifier::external_type_specification]
#[verifier::external_body]
pub struct ExArgon2Error(argon2::Error);

/// What argon2 verification says of a password and a secret against an encoded
/// hash: `Some(matches)`, or `None` where the hash cannot be decoded or names
/// parameters that argon2 refuses.
pub uninterp spec fn argon2_verdict(encoded: Seq<char>, pwd: Seq<char>, secret: Seq<char>) -> Option<bool>;

/// Relies on argon2::verify_encoded_ext, with no associated data: it decodes
/// the hash, recomputes it from the password and the secret, and compares the
/// two in constant time. The outcome depends on its arguments alone.
#[verifier::external_body]
fn verify_encoded(encoded: &str, pwd: &str, secret: &str) -> (r: Result<bool, argon2::Error>)
    ensures
        match r {
            Ok(b) => argon2_verdict(encoded@, pwd@, secret@) == Some(b),
            Err(_) => argon2_verdict(encoded@, pwd@, secret@) is None,
        },
{
    argon2::verify_encoded_ext(encoded, pwd.as_bytes(), secret.as_bytes(), &[])
}

/// The outcome of checking `password` with `pepper` against `hash`; a hash
/// that cannot be used reads as a failed login.
pub open spec fn verify_spec(hash: Seq<char>, password: Seq<char>, pepper: Seq<char>) -> Result<
    bool,
    ServiceError,
> {
    match argon2_verdict(hash, password, pepper) {
        Some(b) => Ok(b),
        None => Err(ServiceError::Unauthorized),
    }
}

/// Checks a plaintext password, combined with the deployment's pepper, against
/// a stored encoded hash.
pub fn verify(hash: &str, password: &str, pepper: &str) -> (r: Result<bool, ServiceError>)
    ensures
        r == verify_spec(hash@, password@, pepper@),
{
    match verify_encoded(hash, password, pepper) {
        Ok(b) => Ok(b),
        Err(_) => Err(ServiceError::Unauthorized),
    }
}

} // verus!
