use vstd::prelude::*;

verus! {

/// What `bcrypt::verify` answers for a password and a stored hash: `None`
/// where the hash cannot be read, else whether the password matches it.
pub uninterp spec fn bcrypt_verdict(password: Seq<char>, hash: Seq<char>) -> Option<bool>;

/// Whether a password is accepted against a stored hash.
pub open spec fn password_matches(password: Seq<char>, hash: Seq<char>) -> bool {
    bcrypt_verdict(password, hash) == Some(true)
}

/// Relies on `bcrypt::hash` at the default cost: a fresh random salt on each
/// call, and a hash that `bcrypt::verify` accepts for the same password.
#[verifier::external_body]
fn bcrypt_hash(password: &str) -> (r: Option<String>)
    ensures
        r is Some ==> bcrypt_verdict(password@, r->Some_0@) == Some(true),
{
    bcrypt::hash(password, bcrypt::DEFAULT_COST).ok()
}

/// Relies on `bcrypt::verify`: it recomputes the hash with the salt and cost
/// that the stored hash carries, and fails on a hash it cannot read.
#[verifier::external_body]
fn bcrypt_verify(password: &str, hash: &str) -> (r: Option<bool>)
    ensures
        r == bcrypt_verdict(password@, hash@),
{
    bcrypt::verify(password, hash).ok()
}

/// Hashes a password with a fresh salt. `None` only where the hasher fails.
/// Whatever hash comes back, `verify_password` accepts the same password
/// against it.
pub fn hash_password(password: &str) -> (r: Option<String>)
    ensures
        r is Some ==> password_matches(password@, r->Some_0@),
{
    bcrypt_hash(password)
}

/// Checks a password against a stored hash. A hash that cannot be read is a
/// plain `false`, never an error.
pub fn verify_password(password: &str, hash: &str) -> (r: bool)
    ensures
        r == password_matches(password@, hash@),
{
    match bcrypt_verify(password, hash) {
        Some(ok) => ok,
        None => false,
    }
}

} // verus!
