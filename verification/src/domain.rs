//! Validated value types: a value of one of these types exists only if the
//! raw text it was parsed from met the rules of its kind.

pub mod email;
pub mod name;
pub mod password;

pub use email::{valid_email, EmailError, UserEmail};
pub use name::{valid_name, NameError, UserName};
pub use password::{valid_password, InvalidPassword, UserPassword};
