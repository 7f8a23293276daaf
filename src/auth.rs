use vstd::prelude::*;
use vstd::string::StrSliceExecFns;
use crate::text::owned;
use crate::token::{decode_token_at, verdict, Claims, TokenError};
use crate::user::User;

verus! {

/// A space or a tab.
pub open spec fn is_blank(c: char) -> bool {
    c == ' ' || c == '\t'
}

/// Whether a header value opens with the scheme `Bearer` (in any letter case)
/// followed by a space.
pub open spec fn has_bearer_scheme(h: Seq<char>) -> bool {
    &&& h.len() > 6
    &&& (h[0] == 'b' || h[0] == 'B')
    &&& (h[1] == 'e' || h[1] == 'E')
    &&& (h[2] == 'a' || h[2] == 'A')
    &&& (h[3] == 'r' || h[3] == 'R')
    &&& (h[4] == 'e' || h[4] == 'E')
    &&& (h[5] == 'r' || h[5] == 'R')
    &&& h[6] == ' '
}

/// The first position at or after `from` that holds no blank, or the length.
pub open spec fn first_non_blank(h: Seq<char>, from: int) -> int
    decreases h.len() - from,
{
    if from >= h.len() {
        h.len() as int
    } else if !is_blank(h[from]) {
        from
    } else {
        first_non_blank(h, from + 1)
    }
}

/// The token that an `Authorization` header value carries: what follows the
/// scheme and the blanks after it, where that is not empty.
pub open spec fn bearer_token(h: Seq<char>) -> Option<Seq<char>> {
    if has_bearer_scheme(h) && first_non_blank(h, 7) < h.len() {
        Some(h.subrange(first_non_blank(h, 7), h.len() as int))
    } else {
        None
    }
}

/// Reads the bearer token from an `Authorization` header value.
pub fn parse_bearer(header: &str) -> (r: Option<String>)
    ensures
        r is Some <==> bearer_token(header@) is Some,
        r is Some ==> r->Some_0@ == bearer_token(header@)->Some_0,
{
    let n = header.unicode_len();
    if n <= 6 {
        return None;
    }
    let c0 = header.get_char(0);
    let c1 = header.get_char(1);
    let c2 = header.get_char(2);
    let c3 = header.get_char(3);
    let c4 = header.get_char(4);
    let c5 = header.get_char(5);
    let c6 = header.get_char(6);
    if !((c0 == 'b' || c0 == 'B') && (c1 == 'e' || c1 == 'E') && (c2 == 'a' || c2 == 'A') && (c3
        == 'r' || c3 == 'R') && (c4 == 'e' || c4 == 'E') && (c5 == 'r' || c5 == 'R') && c6 == ' ') {
        return None;
    }
    let mut i: usize = 7;
    let mut found = false;
    while !found && i < n
        invariant
            n == header@.len(),
            7 <= i <= n,
            first_non_blank(header@, i as int) == first_non_blank(header@, 7),
            found ==> i < n && !is_blank(header@[i as int]),
        decreases n - i + (if found { 0int } else { 1int }),
    {
        let c = header.get_char(i);
        if c == ' ' || c == '\t' {
            i = i + 1;
        } else {
            found = true;
        }
    }
    if i == n {
        return None;
    }
    Some(owned(header.substring_char(i, n)))
}

/// Why a request was refused. All of them answer 401 but a store outage,
/// which answers 503 so that it is not taken for bad credentials.
#[derive(Debug, Clone, Copy, PartialEq, Eq, Structural)]
pub enum AuthFailure {
    /// No `Authorization` header, another scheme, or an empty token.
    MissingCredentials,
    /// The token was refused.
    InvalidToken(TokenError),
    /// The token was good but names no stored user.
    UserNotFound,
    /// The store could not answer the lookup.
    StoreUnavailable,
}

/// The HTTP status that answers a refused request.
pub open spec fn failure_status(f: AuthFailure) -> u16 {
    match f {
        AuthFailure::StoreUnavailable => 503,
        _ => 401,
    }
}

/// The text that answers a refused request.
pub open spec fn failure_text(f: AuthFailure) -> Seq<char> {
    match f {
        AuthFailure::MissingCredentials => "Missing or malformed Authorization header"@,
        AuthFailure::InvalidToken(_) => "Invalid token"@,
        AuthFailure::UserNotFound => "User not found"@,
        AuthFailure::StoreUnavailable => "User store unavailable"@,
    }
}

impl AuthFailure {
    /// The HTTP status that answers a refused request.
    pub fn status(&self) -> (r: u16)
        ensures
            r == failure_status(*self),
    {
        match self {
            AuthFailure::StoreUnavailable => 503,
            _ => 401,
        }
    }

    /// The text that answers a refused request. It never tells which check
    /// refused a token.
    pub fn message(&self) -> (r: String)
        ensures
            r@ == failure_text(*self),
    {
        proof {
            reveal_strlit("Missing or malformed Authorization header");
            reveal_strlit("Invalid token");
            reveal_strlit("User not found");
            reveal_strlit("User store unavailable");
        }
        match self {
            AuthFailure::MissingCredentials => owned("Missing or malformed Authorization header"),
            AuthFailure::InvalidToken(_) => owned("Invalid token"),
            AuthFailure::UserNotFound => owned("User not found"),
            AuthFailure::StoreUnavailable => owned("User store unavailable"),
        }
    }
}

/// What the guard does next with a request: look up the user with this
/// email, or refuse the request.
#[derive(Debug, Clone)]
pub enum AuthStep {
    Lookup(String),
    Reject(AuthFailure),
}

/// The guard's first step, from the `Authorization` header value (if any), the
/// signing secret and the current time.
pub open spec fn first_step(header: Option<Seq<char>>, secret: Seq<u8>, now: u64) -> Result<Seq<char>, AuthFailure> {
    match header {
        None => Err(AuthFailure::MissingCredentials),
        Some(h) => match bearer_token(h) {
            None => Err(AuthFailure::MissingCredentials),
            Some(t) => match verdict(t, secret, now) {
                Ok(c) => Ok(c.0),
                Err(e) => Err(AuthFailure::InvalidToken(e)),
            },
        },
    }
}

/// The guard's first step: read the bearer token and check it. A request
/// without a usable header is refused before any token is read, and no
/// lookup is asked for unless the token is accepted; the lookup is by the
/// token's subject.
pub fn begin_auth(header: Option<&str>, secret: &[u8], now: u64) -> (r: AuthStep)
    ensures
        match header {
            Some(h) => match r {
                AuthStep::Lookup(email) => first_step(Some(h@), secret@, now) == Ok::<Seq<char>, AuthFailure>(email@),
                AuthStep::Reject(f) => first_step(Some(h@), secret@, now) == Err::<Seq<char>, AuthFailure>(f),
            },
            None => r == AuthStep::Reject(AuthFailure::MissingCredentials),
        },
{
    let h = match header {
        Some(h) => h,
        None => return AuthStep::Reject(AuthFailure::MissingCredentials),
    };
    let token = match parse_bearer(h) {
        Some(t) => t,
        None => return AuthStep::Reject(AuthFailure::MissingCredentials),
    };
    match decode_token_at(token.as_str(), secret, now) {
        Ok(claims) => {
            let Claims { sub, role: _, exp: _ } = claims;
            AuthStep::Lookup(sub)
        },
        Err(e) => AuthStep::Reject(AuthFailure::InvalidToken(e)),
    }
}

/// A header value that carries no bearer token is refused as missing
/// credentials, so that no lookup is asked for, whatever the secret and time.
pub proof fn unusable_header_refused_early(h: Seq<char>, secret: Seq<u8>, now: u64)
    requires
        bearer_token(h) is None,
    ensures
        first_step(Some(h), secret, now) == Err::<Seq<char>, AuthFailure>(AuthFailure::MissingCredentials),
{
}

/// `Bearer` alone, or followed by blanks only, carries no token.
pub proof fn empty_bearer_refused(h: Seq<char>)
    requires
        has_bearer_scheme(h),
        forall|i: int| 7 <= i < h.len() ==> is_blank(#[trigger] h[i]),
    ensures
        bearer_token(h) is None,
{
    blank_tail_skipped(h, 7);
}

proof fn blank_tail_skipped(h: Seq<char>, from: int)
    requires
        0 <= from,
        forall|i: int| from <= i < h.len() ==> is_blank(#[trigger] h[i]),
    ensures
        first_non_blank(h, from) >= h.len(),
    decreases h.len() - from,
{
    if from < h.len() {
        blank_tail_skipped(h, from + 1);
    }
}

/// What the store answered to the lookup by email.
#[derive(Debug, Clone)]
pub enum UserLookup {
    /// The current stored record.
    Found(User),
    /// No user has that email.
    Missing,
    /// The store failed or timed out.
    Unavailable,
}

/// The guard's last step on what the lookup answered.
pub open spec fn last_step(found: UserLookup) -> Result<User, AuthFailure> {
    match found {
        UserLookup::Found(u) => Ok(u),
        UserLookup::Missing => Err(AuthFailure::UserNotFound),
        UserLookup::Unavailable => Err(AuthFailure::StoreUnavailable),
    }
}

/// The guard's last step, from what the lookup answered: the current stored
/// record is let through; a missing one refuses the request as a bad token
/// would, and a store outage refuses it with its own failure.
pub fn finish_auth(found: UserLookup) -> (r: Result<User, AuthFailure>)
    ensures
        r == last_step(found),
{
    match found {
        UserLookup::Found(u) => Ok(u),
        UserLookup::Missing => Err(AuthFailure::UserNotFound),
        UserLookup::Unavailable => Err(AuthFailure::StoreUnavailable),
    }
}

} // verus!
