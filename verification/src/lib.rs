//! Credential subsystem of a desktop application: a machine-bound secret
//! vault (PBKDF2 + AES-256-GCM, one payload file per provider) and a
//! loopback OAuth authorization-code flow modelled as a verified state
//! machine driven by an unverified I/O shell.

use vstd::prelude::*;

pub mod b64;
pub mod bytes;
pub mod crypto;
pub mod flow;
pub mod pages;
pub mod payload;
pub mod profile;
pub mod query;
pub mod text;
pub mod vault;

verus! {

/// One payload file is kept per provider; the salt it stores is this long.
pub const SALT_LEN: usize = 16;

/// AES-256-GCM nonce length in bytes.
pub const NONCE_LEN: usize = 12;

/// AES-256-GCM authentication tag length in bytes.
pub const TAG_LEN: usize = 16;

} // verus!
