use vstd::prelude::*;
use vstd::string::StrSliceExecFns;
use validator::ValidateEmail;
use crate::password::{hash_password, password_matches, verify_password};
use crate::text::owned;
use crate::auth::{begin_auth, failure_status, failure_text, finish_auth, first_step, last_step, AuthFailure, AuthStep, UserLookup};
use crate::token::{create_token_at, issued_token, TOKEN_TTL_SECONDS};
use crate::user::{LoginRequest, RegisterRequest, TokenResponse, User};

verus! {

/// A refused request: the HTTP status and the text that answers it.
#[derive(Debug, Clone)]
pub struct ApiError {
    pub status: u16,
    pub message: String,
}

/// Whether `validator` accepts a text as an email address.
pub uninterp spec fn email_accepted(s: Seq<char>) -> bool;

/// Relies on `validator::ValidateEmail::validate_email` for `&str`: a user
/// part and a domain part around the last `@`, each of the allowed form.
#[verifier::external_body]
fn email_is_valid(s: &str) -> (r: bool)
    ensures
        r == email_accepted(s@),
{
    s.validate_email()
}

/// A name of 2 to 50 characters.
pub open spec fn name_ok(s: Seq<char>) -> bool {
    2 <= s.len() <= 50
}

/// Whether a registration may go ahead: both names of 2 to 50 characters, an
/// email address of valid form, and a password of at least 6 characters.
pub open spec fn registration_ok(firstname: Seq<char>, lastname: Seq<char>, email: Seq<char>, password: Seq<char>) -> bool {
    &&& name_ok(firstname)
    &&& name_ok(lastname)
    &&& email_accepted(email)
    &&& password.len() >= 6
}

/// Whether a refusal is a 400 whose text opens with `Validation error: `.
pub open spec fn is_validation_error(e: ApiError) -> bool {
    &&& e.status == 400
    &&& e.message@.len() >= "Validation error: "@.len()
    &&& e.message@.subrange(0, "Validation error: "@.len() as int) == "Validation error: "@
}

/// A 400 refusal of registration input, with its detail.
fn validation_error(detail: &str) -> (r: ApiError)
    ensures
        is_validation_error(r),
{
    let mut m = owned("Validation error: ");
    m.append(detail);
    proof {
        let p = "Validation error: "@;
        assert(m@.subrange(0, p.len() as int) =~= p);
    }
    ApiError { status: 400, message: m }
}

/// A record ready to be stored: the password is only kept as its hash.
#[derive(Debug, Clone)]
pub struct NewUser {
    pub firstname: String,
    pub lastname: String,
    pub email: String,
    pub password_hash: String,
    pub role: String,
}

/// The first part of registering: checks the fields, answering 400 where one
/// is refused, and hashes the password (500 only where the hasher fails).
/// Every new user gets the role `User`.
pub fn prepare_registration(req: &RegisterRequest) -> (r: Result<NewUser, ApiError>)
    ensures
        !registration_ok(req.firstname@, req.lastname@, req.email@, req.password@) ==> r is Err
            && is_validation_error(r->Err_0),
        registration_ok(req.firstname@, req.lastname@, req.email@, req.password@) ==> match r {
            Ok(n) => {
                &&& n.firstname@ == req.firstname@
                &&& n.lastname@ == req.lastname@
                &&& n.email@ == req.email@
                &&& n.role@ == "User"@
                &&& password_matches(req.password@, n.password_hash@)
            },
            Err(e) => e.status == 500 && !is_validation_error(e),
        },
{
    let f = req.firstname.as_str().unicode_len();
    let l = req.lastname.as_str().unicode_len();
    if f < 2 || f > 50 || l < 2 || l > 50 {
        return Err(validation_error("names must hold 2 to 50 characters"));
    }
    if !email_is_valid(req.email.as_str()) {
        return Err(validation_error("invalid email address"));
    }
    if req.password.as_str().unicode_len() < 6 {
        return Err(validation_error("password must hold at least 6 characters"));
    }
    match hash_password(req.password.as_str()) {
        Some(h) => {
            proof {
                reveal_strlit("User");
            }
            Ok(NewUser {
                firstname: owned(req.firstname.as_str()),
                lastname: owned(req.lastname.as_str()),
                email: owned(req.email.as_str()),
                password_hash: h,
                role: owned("User"),
            })
        },
        None => Err(ApiError { status: 500, message: owned("Failed to hash password") }),
    }
}

/// The last part of registering, from what the store answered: the stored
/// record, or `None` where the email was already taken (409). A stored user
/// always gets 201 and the token for its email and role as of `now`.
pub fn register(created: Option<&User>, secret: &[u8], now: u64) -> (r: Result<(u16, TokenResponse), ApiError>)
    requires
        now + TOKEN_TTL_SECONDS <= u64::MAX,
    ensures
        match created {
            None => r is Err && r->Err_0.status == 409 && r->Err_0.message@ == "Email already exists"@,
            Some(u) => r is Ok && r->Ok_0.0 == 201 && issued_token(r->Ok_0.1.token@, u.email@, u.role@, now, secret@),
        },
{
    match created {
        None => {
            proof {
                reveal_strlit("Email already exists");
            }
            Err(ApiError { status: 409, message: owned("Email already exists") })
        },
        Some(u) => {
            let token = create_token_at(u.email.as_str(), u.role.as_str(), now, secret);
            Ok((201, TokenResponse { token }))
        },
    }
}

/// Whether a login succeeds on what the lookup by email found.
pub open spec fn credentials_ok(found: Option<User>, password: Seq<char>) -> bool {
    match found {
        Some(u) => password_matches(password, u.password@),
        None => false,
    }
}

/// The answer that refuses a login, status and text, where the login fails.
pub open spec fn login_refusal(found: Option<User>, password: Seq<char>) -> Option<(u16, Seq<char>)> {
    if credentials_ok(found, password) {
        None
    } else {
        Some((401u16, "Invalid email or password"@))
    }
}

/// What a lookup result is, as a value.
pub open spec fn found_view(found: Option<&User>) -> Option<User> {
    match found {
        Some(u) => Some(*u),
        None => None,
    }
}

/// Logs in with what the lookup by the request's email found. An unknown
/// email and a wrong password give the same 401 answer; a good password
/// always gives the token for the stored email and role as of `now`.
pub fn login(found: Option<&User>, req: &LoginRequest, secret: &[u8], now: u64) -> (r: Result<TokenResponse, ApiError>)
    requires
        now + TOKEN_TTL_SECONDS <= u64::MAX,
    ensures
        match login_refusal(found_view(found), req.password@) {
            Some(x) => r is Err && r->Err_0.status == x.0 && r->Err_0.message@ == x.1,
            None => r is Ok && issued_token(r->Ok_0.token@, found->Some_0.email@, found->Some_0.role@, now, secret@),
        },
{
    proof {
        reveal_strlit("Invalid email or password");
    }
    let u = match found {
        Some(u) => u,
        None => return Err(ApiError { status: 401, message: owned("Invalid email or password") }),
    };
    if !verify_password(req.password.as_str(), u.password.as_str()) {
        return Err(ApiError { status: 401, message: owned("Invalid email or password") });
    }
    let token = create_token_at(u.email.as_str(), u.role.as_str(), now, secret);
    Ok(TokenResponse { token })
}

/// A login with an unknown email and one with a known email and a wrong
/// password are refused with the same status and the same text.
pub proof fn failed_logins_alike(u: User, password: Seq<char>)
    requires
        !password_matches(password, u.password@),
    ensures
        login_refusal(None, password) is Some,
        login_refusal(None, password) == login_refusal(Some(u), password),
{
}

/// What a protected route shows of the caller: never the password hash.
#[derive(Debug, Clone)]
pub struct Profile {
    pub firstname: String,
    pub lastname: String,
    pub email: String,
    pub role: String,
}

/// The answer of a protected route: a greeting and the caller's profile.
#[derive(Debug, Clone)]
pub struct RouteReply {
    pub status: u16,
    pub message: String,
    pub user: Profile,
}

/// Whether a profile shows exactly the given user's own fields.
pub open spec fn profile_of(p: Profile, u: User) -> bool {
    &&& p.firstname@ == u.firstname@
    &&& p.lastname@ == u.lastname@
    &&& p.email@ == u.email@
    &&& p.role@ == u.role@
}

/// The caller's profile.
pub fn profile(u: &User) -> (r: Profile)
    ensures
        profile_of(r, *u),
{
    Profile {
        firstname: owned(u.firstname.as_str()),
        lastname: owned(u.lastname.as_str()),
        email: owned(u.email.as_str()),
        role: owned(u.role.as_str()),
    }
}

/// The route documented for administrators. Like the route for all users it
/// asks only that the caller be authenticated: no role is compared.
pub fn admin_route(u: &User) -> (r: RouteReply)
    ensures
        r.status == 200,
        r.message@ == "Welcome to admin route"@,
        profile_of(r.user, *u),
{
    proof {
        reveal_strlit("Welcome to admin route");
    }
    RouteReply { status: 200, message: owned("Welcome to admin route"), user: profile(u) }
}

/// The route for every authenticated user.
pub fn user_route(u: &User) -> (r: RouteReply)
    ensures
        r.status == 200,
        r.message@ == "Welcome to user route"@,
        profile_of(r.user, *u),
{
    proof {
        reveal_strlit("Welcome to user route");
    }
    RouteReply { status: 200, message: owned("Welcome to user route"), user: profile(u) }
}

/// A stored user as an answer shows it: never the password hash.
#[derive(Debug, Clone)]
pub struct UserView {
    pub id: i32,
    pub firstname: String,
    pub lastname: String,
    pub email: String,
    pub role: String,
}

/// Whether a view shows exactly the given user's fields but the hash.
pub open spec fn view_of(v: UserView, u: User) -> bool {
    &&& v.id == u.id
    &&& v.firstname@ == u.firstname@
    &&& v.lastname@ == u.lastname@
    &&& v.email@ == u.email@
    &&& v.role@ == u.role@
}

/// The answer to a refused request.
pub fn refusal(f: AuthFailure) -> (r: ApiError)
    ensures
        r.status == failure_status(f),
        r.message@ == failure_text(f),
{
    ApiError { status: f.status(), message: f.message() }
}

/// The guard's whole decision on a request: its `Authorization` header value,
/// and what the lookup by the token's subject answered (`None` where no
/// lookup was made).
pub open spec fn guard_outcome(header: Option<Seq<char>>, secret: Seq<u8>, now: u64, found: Option<UserLookup>) -> Result<User, AuthFailure> {
    match first_step(header, secret, now) {
        Err(f) => Err(f),
        Ok(_) => match found {
            Some(l) => last_step(l),
            None => Err(AuthFailure::UserNotFound),
        },
    }
}

/// What a header value is, as a value.
pub open spec fn header_view(header: Option<&str>) -> Option<Seq<char>> {
    match header {
        Some(h) => Some(h@),
        None => None,
    }
}

/// The profile route: the caller's own stored record, without its password
/// hash, from the request's `Authorization` header value and what the lookup
/// by the token's subject answered (`None` where no lookup was made). A
/// refused token, a vanished user and a store outage answer as the guard
/// does: 401, 401 and 503.
pub fn get_profile(header: Option<&str>, secret: &[u8], now: u64, found: Option<UserLookup>) -> (r: Result<UserView, ApiError>)
    ensures
        match guard_outcome(header_view(header), secret@, now, found) {
            Ok(u) => r is Ok && view_of(r->Ok_0, u),
            Err(f) => r is Err && r->Err_0.status == failure_status(f) && r->Err_0.message@ == failure_text(f),
        },
{
    match begin_auth(header, secret, now) {
        AuthStep::Reject(f) => Err(refusal(f)),
        AuthStep::Lookup(_) => {
            let l = match found {
                Some(l) => l,
                None => UserLookup::Missing,
            };
            match finish_auth(l) {
                Ok(u) => Ok(UserView {
                    id: u.id,
                    firstname: u.firstname,
                    lastname: u.lastname,
                    email: u.email,
                    role: u.role,
                }),
                Err(f) => Err(refusal(f)),
            }
        },
    }
}

} // verus!
