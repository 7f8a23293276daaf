use vstd::prelude::*;
use jsonwebtoken::errors::ErrorKind;
use jsonwebtoken::{Algorithm, DecodingKey, EncodingKey, Header, Validation};
use serde_json::Value;

verus! {

/// How long a token stays valid after it is issued, in seconds.
pub const TOKEN_TTL_SECONDS: u64 = 600;

/// What a token carries: the subject's email, its role name, and the moment
/// (in unix seconds) from which it is no longer accepted.
#[derive(Debug, Clone)]
pub struct Claims {
    pub sub: String,
    pub role: String,
    pub exp: u64,
}

/// Why a token was refused. Callers treat all three alike.
#[derive(Debug, Clone, Copy, PartialEq, Eq, Structural)]
pub enum TokenError {
    /// Not a readable HS256 token with a subject, a role and an expiry.
    Malformed,
    /// The signature does not match the secret.
    SignatureInvalid,
    /// The expiry has passed.
    Expired,
}

/// The claims that `jsonwebtoken::decode` reads from a token under a secret,
/// with the signature checked and no claim validated; `None` where it fails
/// or the claims lack a string `sub`, a string `role` or an integer `exp`.
pub uninterp spec fn jwt_claims(token: Seq<char>, secret: Seq<u8>) -> Option<(Seq<char>, Seq<char>, u64)>;

/// Whether `jsonwebtoken::decode` refuses a token under a secret because of
/// its signature.
pub uninterp spec fn jwt_signature_rejected(token: Seq<char>, secret: Seq<u8>) -> bool;

/// The token that `jsonwebtoken::encode` writes, with the default header
/// (HS256), for these claims under this secret.
pub uninterp spec fn jwt_signed(sub: Seq<char>, role: Seq<char>, exp: u64, secret: Seq<u8>) -> Seq<char>;

/// Relies on `jsonwebtoken::encode` with the default header (HS256): for an
/// HMAC key and a JSON map it always succeeds, the token depends on the
/// claims and the secret alone, and it decodes, under the same secret, to
/// the claims given.
#[verifier::external_body]
fn jwt_encode(sub: &str, role: &str, exp: u64, secret: &[u8]) -> (r: String)
    ensures
        r@ == jwt_signed(sub@, role@, exp, secret@),
        jwt_claims(r@, secret@) == Some((sub@, role@, exp)),
{
    let mut m = serde_json::Map::new();
    m.insert("sub".to_string(), Value::from(sub));
    m.insert("role".to_string(), Value::from(role));
    m.insert("exp".to_string(), Value::from(exp));
    jsonwebtoken::encode(&Header::default(), &m, &EncodingKey::from_secret(secret)).unwrap_or_default()
}

/// Relies on `jsonwebtoken::decode` (HS256, signature checked, expiry left to
/// the caller) and on its `InvalidSignature` error kind.
#[verifier::external_body]
fn jwt_decode(token: &str, secret: &[u8]) -> (r: Result<(String, String, u64), bool>)
    ensures
        r is Ok <==> jwt_claims(token@, secret@) is Some,
        r is Ok ==> jwt_claims(token@, secret@) == Some((r->Ok_0.0@, r->Ok_0.1@, r->Ok_0.2)),
        r is Err ==> r->Err_0 == jwt_signature_rejected(token@, secret@),
{
    let mut v = Validation::new(Algorithm::HS256);
    v.validate_exp = false;
    v.required_spec_claims.clear();
    match jsonwebtoken::decode::<serde_json::Map<String, Value>>(token, &DecodingKey::from_secret(secret), &v) {
        Ok(d) => match (d.claims.get("sub"), d.claims.get("role"), d.claims.get("exp")) {
            (Some(Value::String(s)), Some(Value::String(r)), Some(e)) => e.as_u64().map(|e| (s.clone(), r.clone(), e)).ok_or(false),
            _ => Err(false),
        },
        Err(e) => Err(*e.kind() == ErrorKind::InvalidSignature),
    }
}

/// Relies on `std::time::SystemTime::now` and chrono's conversion of it to a
/// UTC time: the current time in unix seconds, negative before 1970.
#[verifier::external_body]
fn unix_now() -> (r: i64) {
    chrono::DateTime::<chrono::Utc>::from(std::time::SystemTime::now()).timestamp()
}

/// The current time in unix seconds; a clock set before 1970 reads as zero.
/// The clock cannot pass `i64::MAX`, so a token issued now has room for its
/// expiry.
fn clock_seconds() -> (r: u64)
    ensures
        r <= i64::MAX,
{
    let t = unix_now();
    if t < 0 {
        0
    } else {
        t as u64
    }
}

/// The claims of a `Claims` value as plain values.
pub open spec fn claims_view(c: Claims) -> (Seq<char>, Seq<char>, u64) {
    (c.sub@, c.role@, c.exp)
}

/// Whether `token`, under `secret`, carries the claims of a token issued at
/// `now` to `sub` with role `role`.
pub open spec fn issued_at(token: Seq<char>, sub: Seq<char>, role: Seq<char>, now: int, secret: Seq<u8>) -> bool {
    match jwt_claims(token, secret) {
        Some(c) => c.0 == sub && c.1 == role && c.2 == now + TOKEN_TTL_SECONDS,
        None => false,
    }
}

/// The verdict on a token under a secret at a moment: its claims while the
/// expiry lies strictly ahead, else the reason for refusing it.
pub open spec fn verdict(token: Seq<char>, secret: Seq<u8>, now: u64) -> Result<(Seq<char>, Seq<char>, u64), TokenError> {
    match jwt_claims(token, secret) {
        Some(c) => if c.2 > now {
            Ok(c)
        } else {
            Err(TokenError::Expired)
        },
        None => if jwt_signature_rejected(token, secret) {
            Err(TokenError::SignatureInvalid)
        } else {
            Err(TokenError::Malformed)
        },
    }
}

/// Whether a decoding result is the verdict on a token at a moment.
pub open spec fn decoded_as(r: Result<Claims, TokenError>, token: Seq<char>, secret: Seq<u8>, now: u64) -> bool {
    match r {
        Ok(c) => verdict(token, secret, now) == Ok::<(Seq<char>, Seq<char>, u64), TokenError>(claims_view(c)),
        Err(e) => verdict(token, secret, now) == Err::<(Seq<char>, Seq<char>, u64), TokenError>(e),
    }
}

/// Whether `token` is the one token issued at `now` to `sub` with role
/// `role` under `secret`: signed over exactly `{sub, role, exp: now + 600}`.
pub open spec fn issued_token(token: Seq<char>, sub: Seq<char>, role: Seq<char>, now: u64, secret: Seq<u8>) -> bool {
    &&& now + TOKEN_TTL_SECONDS <= u64::MAX
    &&& token == jwt_signed(sub, role, (now + TOKEN_TTL_SECONDS) as u64, secret)
    &&& issued_at(token, sub, role, now as int, secret)
}

/// Issues the token for `email` with role `role`, as of `now`, signed with
/// `secret`; it expires `TOKEN_TTL_SECONDS` later. Equal arguments give
/// equal tokens.
pub fn create_token_at(email: &str, role: &str, now: u64, secret: &[u8]) -> (r: String)
    requires
        now + TOKEN_TTL_SECONDS <= u64::MAX,
    ensures
        issued_token(r@, email@, role@, now, secret@),
{
    jwt_encode(email, role, now + TOKEN_TTL_SECONDS, secret)
}

/// Issues a token as of the current time.
pub fn create_token(email: &str, role: &str, secret: &[u8]) -> (r: String)
    ensures
        exists|now: u64| issued_token(r@, email@, role@, now, secret@),
{
    let now = clock_seconds();
    create_token_at(email, role, now, secret)
}

/// Checks a token's signature under `secret` and its expiry against `now`.
pub fn decode_token_at(token: &str, secret: &[u8], now: u64) -> (r: Result<Claims, TokenError>)
    ensures
        decoded_as(r, token@, secret@, now),
{
    match jwt_decode(token, secret) {
        Ok((sub, role, exp)) => {
            if exp > now {
                Ok(Claims { sub, role, exp })
            } else {
                Err(TokenError::Expired)
            }
        },
        Err(bad_signature) => {
            if bad_signature {
                Err(TokenError::SignatureInvalid)
            } else {
                Err(TokenError::Malformed)
            }
        },
    }
}

/// Checks a token as of the current time.
pub fn decode_token(token: &str, secret: &[u8]) -> (r: Result<Claims, TokenError>)
    ensures
        exists|now: u64| decoded_as(r, token@, secret@, now),
{
    let now = clock_seconds();
    decode_token_at(token, secret, now)
}

/// A token is accepted, with the subject and role it was issued with, at any
/// moment from its issue until its lifetime ends.
pub proof fn issued_token_accepted(token: Seq<char>, sub: Seq<char>, role: Seq<char>, issued: u64, now: u64, secret: Seq<u8>)
    requires
        issued_token(token, sub, role, issued, secret),
        issued <= now < issued + TOKEN_TTL_SECONDS,
    ensures
        verdict(token, secret, now) is Ok,
        verdict(token, secret, now)->Ok_0.0 == sub,
        verdict(token, secret, now)->Ok_0.1 == role,
{
}

/// A token is refused as expired once its lifetime has run out: in
/// particular when it is checked again 601 seconds after any check made
/// since its issue.
pub proof fn issued_token_expires(token: Seq<char>, sub: Seq<char>, role: Seq<char>, issued: u64, checked: u64, secret: Seq<u8>)
    requires
        issued_token(token, sub, role, issued, secret),
        issued <= checked,
        checked + 601 <= u64::MAX,
    ensures
        verdict(token, secret, (checked + 601) as u64) == Err::<(Seq<char>, Seq<char>, u64), TokenError>(TokenError::Expired),
{
}

/// Issuing is deterministic: the same subject, role, moment and secret give
/// the same token.
pub proof fn issuing_deterministic(t1: Seq<char>, t2: Seq<char>, sub: Seq<char>, role: Seq<char>, now: u64, secret: Seq<u8>)
    requires
        issued_token(t1, sub, role, now, secret),
        issued_token(t2, sub, role, now, secret),
    ensures
        t1 == t2,
{
}

} // verus!
