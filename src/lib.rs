//! Authentication core: user records and roles, password hashing, signed
//! bearer tokens, and the decisions of the request guard and of the login and
//! registration flows.
pub mod text;
pub mod auth;
pub mod config;
pub mod flows;
pub mod password;
pub mod token;
pub mod user;
