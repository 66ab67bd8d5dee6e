//! Credential and session authentication core.
//!
//! The crate validates user-supplied names, e-mail addresses and passwords,
//! keeps user records keyed by e-mail address, establishes and renews
//! sessions, and decides who the logged-in user of a session is.
//!
//! Every function carries a contract, and Verus proves each of them but
//! three: the function that draws random numbers from the operating system
//! and the two that call the password hash function. What is taken on trust
//! of those is said where they stand, in `entropy` and `credential`.

pub mod api;
pub mod auth;
pub mod credential;
pub mod directory;
pub mod domain;
mod entropy;
pub mod session;
