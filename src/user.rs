use vstd::prelude::*;
use crate::text::{owned, same_text};

verus! {

/// The role of a user: a closed set of two.
#[derive(Debug, Clone, Copy, PartialEq, Eq, Structural)]
pub enum Role {
    /// Administrator with full access.
    Admin,
    /// Regular user with limited access.
    User,
}

/// The stored name of a role.
pub open spec fn role_name(r: Role) -> Seq<char> {
    match r {
        Role::Admin => "Admin"@,
        Role::User => "User"@,
    }
}

/// The role that a stored role name reads as: `"Admin"` is an administrator,
/// any other text a regular user.
pub open spec fn role_of_name(s: Seq<char>) -> Role {
    if s == "Admin"@ {
        Role::Admin
    } else {
        Role::User
    }
}

impl Role {
    /// Reads a role from its exact name; any other text is refused with a
    /// message that quotes it.
    pub fn from_str(s: &str) -> (r: Result<Role, String>)
        ensures
            s@ == "Admin"@ ==> r == Ok::<Role, String>(Role::Admin),
            s@ == "User"@ ==> r == Ok::<Role, String>(Role::User),
            s@ != "Admin"@ && s@ != "User"@ ==> r is Err && r->Err_0@ == "Invalid role: "@ + s@,
    {
        proof {
            reveal_strlit("Admin");
            reveal_strlit("User");
            reveal_strlit("Invalid role: ");
            assert("Admin"@.len() != "User"@.len());
        }
        if same_text(s, "Admin") {
            Ok(Role::Admin)
        } else if same_text(s, "User") {
            Ok(Role::User)
        } else {
            let mut m = owned("Invalid role: ");
            m.append(s);
            Err(m)
        }
    }

    /// The role's stored name.
    pub fn to_string(&self) -> (r: String)
        ensures
            r@ == role_name(*self),
    {
        proof {
            reveal_strlit("Admin");
            reveal_strlit("User");
        }
        match self {
            Role::Admin => owned("Admin"),
            Role::User => owned("User"),
        }
    }
}

/// A stored user record. `role` holds the role's stored name.
#[derive(Debug, Clone)]
pub struct User {
    pub id: i32,
    pub firstname: String,
    pub lastname: String,
    pub email: String,
    /// The password's salted hash, never the password itself.
    pub password: String,
    pub role: String,
}

impl User {
    /// The user's role: `"Admin"` reads as an administrator, anything else as
    /// a regular user.
    pub fn get_role(&self) -> (r: Role)
        ensures
            r == role_of_name(self.role@),
    {
        proof {
            reveal_strlit("Admin");
        }
        if same_text(self.role.as_str(), "Admin") {
            Role::Admin
        } else {
            Role::User
        }
    }
}

/// What a client sends to register.
#[derive(Debug, Clone)]
pub struct RegisterRequest {
    pub firstname: String,
    pub lastname: String,
    pub email: String,
    pub password: String,
}

/// What a client sends to log in.
#[derive(Debug, Clone)]
pub struct LoginRequest {
    pub email: String,
    pub password: String,
}

/// What a successful login or registration returns.
#[derive(Debug, Clone)]
pub struct TokenResponse {
    pub token: String,
}

} // verus!
