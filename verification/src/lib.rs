pub mod base64;
pub mod cli;
pub mod clipboard;
pub mod config;
pub mod crypto;
pub mod hash;
pub mod keyboard;
pub mod memory;
pub mod timer;

use vstd::prelude::*;

verus! {

/// Number of bytes in an AES-GCM-SIV nonce.
pub const NONCE_LENGTH: usize = 12;

/// Number of bytes in an AES-256 key.
pub const KEY_LENGTH: usize = 32;

} // verus!
