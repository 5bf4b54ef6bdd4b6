//! Password hashing and verification with Argon2id.
//!
//! Two operations are offered: [`hash`] turns a password into a
//! self-describing encoded string, and [`verify`] checks a password against
//! such a string. The memory-hard function itself is the `argon2` crate's; it
//! is reached through the small trusted wrappers of [`primitive`], and every
//! decision around it is verified here.

pub mod error;
pub mod hashing;
pub mod options;
pub mod phc;
pub mod primitive;
pub mod verifying;

pub use crate::error::{Failure, PasswordError};
pub use crate::hashing::{hash, hash_with_salt};
pub use crate::options::HashOptions;
pub use crate::primitive::{Fields, Verification};
pub use crate::verifying::{verify, VerifyRequest};
