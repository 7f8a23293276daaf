use auth_backend::config::parse_port;
use auth_backend::auth::{begin_auth, finish_auth, parse_bearer, AuthFailure, AuthStep, UserLookup};
use auth_backend::flows::{admin_route, get_profile, login, prepare_registration, register, user_route};
use auth_backend::password::{hash_password, verify_password};
use auth_backend::token::{create_token, create_token_at, decode_token, decode_token_at, TokenError};
use auth_backend::user::{LoginRequest, RegisterRequest, Role, User};

const SECRET_A: &[u8] = b"first signing secret";
const SECRET_B: &[u8] = b"second signing secret";
const T0: u64 = 1_700_000_000;
// A bcrypt hash (cost 4) of the password "password".
const KNOWN_HASH: &str = "$2a$04$UuTkLRZZ6QofpDOlMz32MuuxEHA43WOemOYHPz6.SjsVsyO1tDU96";

fn stored(id: i32, email: &str, hash: &str, role: &str) -> User {
    User {
        id,
        firstname: "Grace".to_string(),
        lastname: "Hopper".to_string(),
        email: email.to_string(),
        password: hash.to_string(),
        role: role.to_string(),
    }
}

fn login_req(email: &str, password: &str) -> LoginRequest {
    LoginRequest { email: email.to_string(), password: password.to_string() }
}

#[test]
fn role_reads_and_writes_names() {
    assert_eq!(Role::from_str("Admin"), Ok(Role::Admin));
    assert_eq!(Role::from_str("User"), Ok(Role::User));
    assert_eq!(Role::from_str("admin"), Err("Invalid role: admin".to_string()));
    assert_eq!(Role::Admin.to_string(), "Admin");
    assert_eq!(Role::User.to_string(), "User");
}

#[test]
fn stored_role_reads_as_role() {
    assert_eq!(stored(1, "a@x.com", KNOWN_HASH, "Admin").get_role(), Role::Admin);
    assert_eq!(stored(1, "a@x.com", KNOWN_HASH, "User").get_role(), Role::User);
    assert_eq!(stored(1, "a@x.com", KNOWN_HASH, "Owner").get_role(), Role::User);
}

#[test]
fn hashed_password_verifies_and_others_do_not() {
    let h = hash_password("secret1").expect("hashing works");
    assert_ne!(h, "secret1");
    assert!(verify_password("secret1", &h));
    assert!(!verify_password("secret2", &h));
}

#[test]
fn known_hash_verifies() {
    assert!(verify_password("password", KNOWN_HASH));
    assert!(!verify_password("Password", KNOWN_HASH));
}

#[test]
fn unreadable_hash_is_plain_false() {
    assert!(!verify_password("password", "not a hash"));
    assert!(!verify_password("password", ""));
}

#[test]
fn token_carries_its_claims() {
    let t = create_token_at("ann@x.com", "User", T0, SECRET_A);
    assert_eq!(t.split('.').count(), 3);
    let c = decode_token_at(&t, SECRET_A, T0).unwrap();
    assert_eq!(c.sub, "ann@x.com");
    assert_eq!(c.role, "User");
    assert_eq!(c.exp, T0 + 600);
    let c = decode_token_at(&t, SECRET_A, T0 + 599).unwrap();
    assert_eq!(c.sub, "ann@x.com");
}

#[test]
fn token_expires_after_its_lifetime() {
    let t = create_token_at("ann@x.com", "User", T0, SECRET_A);
    assert!(decode_token_at(&t, SECRET_A, T0).is_ok());
    assert_eq!(decode_token_at(&t, SECRET_A, T0 + 601).unwrap_err(), TokenError::Expired);
    assert_eq!(decode_token_at(&t, SECRET_A, T0 + 600).unwrap_err(), TokenError::Expired);
}

#[test]
fn token_under_other_secret_has_bad_signature() {
    let t = create_token_at("ann@x.com", "User", T0, SECRET_A);
    assert_eq!(decode_token_at(&t, SECRET_B, T0).unwrap_err(), TokenError::SignatureInvalid);
}

#[test]
fn garbage_token_is_malformed() {
    assert_eq!(decode_token_at("abc", SECRET_A, T0).unwrap_err(), TokenError::Malformed);
    assert_eq!(decode_token_at("", SECRET_A, T0).unwrap_err(), TokenError::Malformed);
}

#[test]
fn token_with_current_time_round_trips() {
    let t = create_token("bob@x.com", "Admin", SECRET_A);
    let c = decode_token(&t, SECRET_A).unwrap();
    assert_eq!(c.sub, "bob@x.com");
    assert_eq!(c.role, "Admin");
}

#[test]
fn bearer_header_is_read() {
    assert_eq!(parse_bearer("Bearer abc.def.ghi"), Some("abc.def.ghi".to_string()));
    assert_eq!(parse_bearer("bEaReR   tok"), Some("tok".to_string()));
    assert_eq!(parse_bearer("Bearer"), None);
    assert_eq!(parse_bearer("Bearer "), None);
    assert_eq!(parse_bearer("Bearer  \t "), None);
    assert_eq!(parse_bearer("Basic abc"), None);
    assert_eq!(parse_bearer("Bearerabc"), None);
}

#[test]
fn malformed_header_refused_before_lookup() {
    let missing = AuthFailure::MissingCredentials;
    assert!(matches!(begin_auth(None, SECRET_A, T0), AuthStep::Reject(f) if f == missing));
    assert!(matches!(begin_auth(Some("Bearer"), SECRET_A, T0), AuthStep::Reject(f) if f == missing));
    assert!(matches!(begin_auth(Some("Bearer "), SECRET_A, T0), AuthStep::Reject(f) if f == missing));
    assert_eq!(missing.status(), 401);
}

#[test]
fn good_header_asks_lookup_of_subject() {
    let t = create_token_at("ann@x.com", "User", T0, SECRET_A);
    let h = format!("Bearer {}", t);
    match begin_auth(Some(&h), SECRET_A, T0 + 10) {
        AuthStep::Lookup(email) => assert_eq!(email, "ann@x.com"),
        AuthStep::Reject(f) => panic!("refused: {:?}", f),
    }
    assert!(matches!(
        begin_auth(Some(&h), SECRET_A, T0 + 601),
        AuthStep::Reject(AuthFailure::InvalidToken(TokenError::Expired))
    ));
    assert!(matches!(
        begin_auth(Some(&h), SECRET_B, T0),
        AuthStep::Reject(AuthFailure::InvalidToken(TokenError::SignatureInvalid))
    ));
}

#[test]
fn lookup_result_decides() {
    let u = stored(4, "ann@x.com", KNOWN_HASH, "User");
    assert_eq!(finish_auth(UserLookup::Found(u)).unwrap().id, 4);
    let f = finish_auth(UserLookup::Missing).unwrap_err();
    assert_eq!(f, AuthFailure::UserNotFound);
    assert_eq!(f.status(), 401);
    assert_eq!(f.message(), "User not found");
    assert_eq!(AuthFailure::InvalidToken(TokenError::Expired).message(), "Invalid token");
    let f = finish_auth(UserLookup::Unavailable).unwrap_err();
    assert_eq!(f, AuthFailure::StoreUnavailable);
    assert_eq!(f.status(), 503);
}

#[test]
fn failed_logins_answer_identically() {
    let u = stored(2, "grace@x.com", KNOWN_HASH, "User");
    let unknown = login(None, &login_req("nobody@x.com", "password"), SECRET_A, T0).unwrap_err();
    let wrong = login(Some(&u), &login_req("grace@x.com", "wrong"), SECRET_A, T0).unwrap_err();
    assert_eq!(unknown.status, 401);
    assert_eq!(unknown.status, wrong.status);
    assert_eq!(unknown.message, wrong.message);
    assert_eq!(unknown.message, "Invalid email or password");
}

#[test]
fn register_then_register_again() {
    let req = RegisterRequest {
        firstname: "Ann".to_string(),
        lastname: "Lee".to_string(),
        email: "ann@x.com".to_string(),
        password: "secret1".to_string(),
    };
    let new_user = prepare_registration(&req).unwrap();
    assert_eq!(new_user.email, "ann@x.com");
    assert_eq!(new_user.role, "User");
    assert!(verify_password("secret1", &new_user.password_hash));
    let user = User {
        id: 1,
        firstname: new_user.firstname.clone(),
        lastname: new_user.lastname.clone(),
        email: new_user.email.clone(),
        password: new_user.password_hash.clone(),
        role: new_user.role.clone(),
    };
    let (status, resp) = register(Some(&user), SECRET_A, T0).unwrap();
    assert_eq!(status, 201);
    let c = decode_token_at(&resp.token, SECRET_A, T0).unwrap();
    assert_eq!(c.sub, "ann@x.com");
    assert_eq!(c.role, "User");
    let dup = register(None, SECRET_A, T0).unwrap_err();
    assert_eq!(dup.status, 409);
    assert_eq!(dup.message, "Email already exists");
}

#[test]
fn registration_fields_are_checked() {
    let good = RegisterRequest {
        firstname: "Ann".to_string(),
        lastname: "Lee".to_string(),
        email: "ann@x.com".to_string(),
        password: "secret1".to_string(),
    };
    let mut r = good.clone();
    r.firstname = "A".to_string();
    let e = prepare_registration(&r).unwrap_err();
    assert_eq!(e.status, 400);
    assert!(e.message.starts_with("Validation error: "));
    let mut r = good.clone();
    r.lastname = "L".repeat(51);
    assert_eq!(prepare_registration(&r).unwrap_err().status, 400);
    let mut r = good.clone();
    r.email = "not-an-email".to_string();
    let e = prepare_registration(&r).unwrap_err();
    assert_eq!(e.status, 400);
    assert!(e.message.starts_with("Validation error: "));
    let mut r = good.clone();
    r.password = "12345".to_string();
    assert_eq!(prepare_registration(&r).unwrap_err().status, 400);
}

#[test]
fn admin_login_then_protected_route() {
    let admin = stored(9, "root@x.com", KNOWN_HASH, "Admin");
    let other = stored(10, "someone@x.com", KNOWN_HASH, "User");
    let resp = login(Some(&admin), &login_req("root@x.com", "password"), SECRET_A, T0).unwrap();
    let c = decode_token_at(&resp.token, SECRET_A, T0 + 1).unwrap();
    assert_eq!(c.role, "Admin");
    assert_eq!(c.sub, "root@x.com");
    let h = format!("Bearer {}", resp.token);
    let email = match begin_auth(Some(&h), SECRET_A, T0 + 1) {
        AuthStep::Lookup(e) => e,
        AuthStep::Reject(f) => panic!("refused: {:?}", f),
    };
    let found = [admin.clone(), other].into_iter().find(|u| u.email == email);
    let caller = finish_auth(found.map(UserLookup::Found).unwrap_or(UserLookup::Missing)).unwrap();
    let reply = admin_route(&caller);
    assert_eq!(reply.status, 200);
    assert_eq!(reply.message, "Welcome to admin route");
    assert_eq!(reply.user.email, "root@x.com");
    assert_eq!(reply.user.firstname, "Grace");
    assert_eq!(reply.user.role, "Admin");
    let reply = user_route(&caller);
    assert_eq!(reply.message, "Welcome to user route");
    assert_eq!(reply.user.email, "root@x.com");
}

#[test]
fn profile_shows_stored_record_or_fails() {
    let u = stored(7, "ann@x.com", KNOWN_HASH, "User");
    let t = create_token_at("ann@x.com", "User", T0, SECRET_A);
    let h = format!("Bearer {}", t);
    let p = get_profile(Some(&h), SECRET_A, T0, Some(UserLookup::Found(u))).unwrap();
    assert_eq!(p.id, 7);
    assert_eq!(p.email, "ann@x.com");
    assert_eq!(p.lastname, "Hopper");
    assert_eq!(p.role, "User");
    let gone = get_profile(Some(&h), SECRET_A, T0, Some(UserLookup::Missing)).unwrap_err();
    assert_eq!(gone.status, 401);
    assert_eq!(gone.message, "User not found");
    let down = get_profile(Some(&h), SECRET_A, T0, Some(UserLookup::Unavailable)).unwrap_err();
    assert_eq!(down.status, 503);
    let bad = get_profile(Some(&h), SECRET_B, T0, None).unwrap_err();
    assert_eq!(bad.status, 401);
    assert_eq!(bad.message, "Invalid token");
    let none = get_profile(None, SECRET_A, T0, None).unwrap_err();
    assert_eq!(none.status, 401);
}

#[test]
fn same_claims_give_same_token() {
    let a = create_token_at("ann@x.com", "User", T0, SECRET_A);
    let b = create_token_at("ann@x.com", "User", T0, SECRET_A);
    assert_eq!(a, b);
    assert_ne!(a, create_token_at("ann@x.com", "User", T0 + 1, SECRET_A));
    assert_ne!(a, create_token_at("ann@x.com", "User", T0, SECRET_B));
}

#[test]
fn port_numbers_are_read() {
    assert_eq!(parse_port("8080"), Some(8080));
    assert_eq!(parse_port("+80"), Some(80));
    assert_eq!(parse_port("0"), Some(0));
    assert_eq!(parse_port("65535"), Some(65535));
    assert_eq!(parse_port("65536"), None);
    assert_eq!(parse_port("99999999999"), None);
    assert_eq!(parse_port(""), None);
    assert_eq!(parse_port("+"), None);
    assert_eq!(parse_port("-1"), None);
    assert_eq!(parse_port("80a"), None);
    assert_eq!(parse_port(" 80"), None);
}
