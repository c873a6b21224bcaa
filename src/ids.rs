//! Random 128-bit identifiers, used for user ids and session tokens.

use vstd::prelude::*;
use argon2::password_hash::rand_core::{OsRng, RngCore};

verus! {

/// Relies on `OsRng::try_fill_bytes` for 16 random bytes, which fails only
/// when the operating system's generator does, and on
/// `uuid::Builder::from_random_bytes` to make them a version-4 UUID.
/// Nothing is promised of the value; a failed draw gives `None`.
#[verifier::external_body]
pub(crate) fn random_uuid() -> (r: Option<u128>) {
    let mut bytes = [0u8; 16];
    match OsRng.try_fill_bytes(&mut bytes) {
        Ok(()) => Some(uuid::Builder::from_random_bytes(bytes).into_uuid().as_u128()),
        Err(_) => None,
    }
}

} // verus!
