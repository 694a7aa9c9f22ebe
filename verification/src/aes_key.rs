//! Fresh AES-256 keys.

use rand::RngCore;
use vstd::prelude::*;

verus! {

/// Calls `rand::RngCore::fill_bytes` on `rand::thread_rng()` to fill 32 bytes. The bytes
/// come from the operating system's randomness, so nothing is claimed of them.
#[verifier::external_body]
fn random_key_bytes() -> (key: [u8; 32]) {
    let mut key = [0u8; 32];
    rand::thread_rng().fill_bytes(&mut key);
    key
}

/// A fresh random AES-256 key, one per encrypted upload.
pub fn set_aes_key() -> (key: [u8; 32]) {
    random_key_bytes()
}

} // verus!
