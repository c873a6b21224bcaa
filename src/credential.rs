//! Password hashing and verification with Argon2id and PHC-encoded strings.

use vstd::prelude::*;
use argon2::password_hash::rand_core::{OsRng, RngCore};
use argon2::password_hash::{PasswordHash, PasswordHasher, PasswordVerifier, Salt, SaltString};
use argon2::Argon2;

verus! {

/// Failures of the credential manager.
#[derive(Clone, Copy, Debug, PartialEq, Eq, Structural)]
pub enum CredentialError {
    /// Deriving a hash failed (randomness or resource failure).
    Hashing,
    /// A stored encoded hash could not be parsed or carries unusable parameters.
    MalformedHash,
}

/// The number of random salt bytes drawn for each hash.
pub const SALT_LEN: usize = 16;

/// Longest password, in characters, that Argon2 is sure to take: its limit
/// is `0xFFFF_FFFF` bytes, and a character takes at most four.
pub const MAX_PASSWORD_CHARS: usize = 0x3FFF_FFFF;

/// Whether Argon2 accepts `password` against the PHC string `encoded`: the
/// key derived from `password` under the algorithm, version, parameters and
/// salt embedded in `encoded` equals the key stored in it.
pub uninterp spec fn argon2_accepts(password: Seq<char>, encoded: Seq<char>) -> bool;

/// Whether the PHC string `encoded` parses and names an algorithm, version,
/// parameters, salt and key length that Argon2 can check a password under.
pub uninterp spec fn argon2_usable(encoded: Seq<char>) -> bool;

/// How every hash made here begins: Argon2id, version 19, and the default
/// cost parameters (19 MiB of memory, two passes, one lane).
pub open spec fn phc_prefix() -> Seq<char> {
    seq!['$', 'a', 'r', 'g', 'o', 'n', '2', 'i', 'd', '$', 'v', '=', '1', '9', '$',
        'm', '=', '1', '9', '4', '5', '6', ',', 't', '=', '2', ',', 'p', '=', '1', '$']
}

/// What Argon2id under the default parameters encodes for `password` and
/// the salt bytes `salt`: the whole PHC string, key included.
pub uninterp spec fn argon2_phc(password: Seq<char>, salt: Seq<u8>) -> Seq<char>;

/// The standard Base64 alphabet.
pub open spec fn b64_alphabet() -> Seq<char> {
    seq!['A', 'B', 'C', 'D', 'E', 'F', 'G', 'H', 'I', 'J', 'K', 'L', 'M', 'N', 'O', 'P',
        'Q', 'R', 'S', 'T', 'U', 'V', 'W', 'X', 'Y', 'Z', 'a', 'b', 'c', 'd', 'e', 'f',
        'g', 'h', 'i', 'j', 'k', 'l', 'm', 'n', 'o', 'p', 'q', 'r', 's', 't', 'u', 'v',
        'w', 'x', 'y', 'z', '0', '1', '2', '3', '4', '5', '6', '7', '8', '9', '+', '/']
}

/// The Base64 digit of a six-bit value.
pub open spec fn b64_digit(v: int) -> char {
    b64_alphabet()[v % 64]
}

/// Standard Base64 without padding: each three bytes become four digits, a
/// trailing pair three, a trailing byte two.
pub open spec fn b64_unpadded(s: Seq<u8>) -> Seq<char>
    decreases s.len(),
{
    if s.len() >= 3 {
        let (a, b, c) = (s[0] as int, s[1] as int, s[2] as int);
        seq![b64_digit(a / 4), b64_digit((a % 4) * 16 + b / 16), b64_digit((b % 16) * 4 + c / 64), b64_digit(c % 64)]
            + b64_unpadded(s.subrange(3, s.len() as int))
    } else if s.len() == 2 {
        let (a, b) = (s[0] as int, s[1] as int);
        seq![b64_digit(a / 4), b64_digit((a % 4) * 16 + b / 16), b64_digit((b % 16) * 4)]
    } else if s.len() == 1 {
        let a = s[0] as int;
        seq![b64_digit(a / 4), b64_digit((a % 4) * 16)]
    } else {
        Seq::<char>::empty()
    }
}

/// Length of the Base64 key field: a 32-byte key is 43 digits.
pub open spec fn key_field_len() -> nat {
    43
}

/// The layout of a PHC string made here: the prefix, the salt in Base64,
/// a separator and the key in Base64.
pub open spec fn phc_layout(h: Seq<char>, salt: Seq<u8>) -> bool {
    let head = phc_prefix() + b64_unpadded(salt) + seq!['$'];
    &&& starts_with(h, head)
    &&& h.len() == head.len() + key_field_len()
}

/// `s` begins with `prefix`.
pub open spec fn starts_with(s: Seq<char>, prefix: Seq<char>) -> bool {
    prefix.len() <= s.len() && s.subrange(0, prefix.len() as int) == prefix
}

/// Relies on `OsRng::try_fill_bytes` for fresh random salt bytes; it fails
/// only when the operating system's generator does.
#[verifier::external_body]
fn random_salt() -> (r: Result<Vec<u8>, CredentialError>)
    ensures
        r matches Ok(s) ==> s@.len() == SALT_LEN,
{
    let mut bytes = [0u8; Salt::RECOMMENDED_LENGTH];
    match OsRng.try_fill_bytes(&mut bytes) {
        Ok(()) => Ok(bytes.to_vec()),
        Err(_) => Err(CredentialError::Hashing),
    }
}

/// Relies on `SaltString::encode_b64` and `Argon2::default().hash_password`,
/// shown through `PasswordHash`'s `Display`. The result depends on the
/// password and salt alone. The PHC string records Argon2id, version 19, the
/// default parameters, the salt in unpadded Base64 and the 32-byte key, so
/// that it parses back and `verify_password` re-derives the
/// same key from the same password. Argon2 fails only on a password over
/// `0xFFFF_FFFF` bytes or a salt outside its bounds, which a salt of
/// `SALT_LEN` bytes is not.
#[verifier::external_body]
fn argon2_hash(password: &str, salt: &[u8]) -> (r: Result<String, CredentialError>)
    requires
        salt@.len() == SALT_LEN,
    ensures
        password@.len() <= MAX_PASSWORD_CHARS ==> r is Ok,
        r matches Ok(h) ==> h@ == argon2_phc(password@, salt@),
        r matches Ok(h) ==> argon2_accepts(password@, h@) && argon2_usable(h@)
            && phc_layout(h@, salt@),
{
    let salt = SaltString::encode_b64(salt).map_err(|_| CredentialError::Hashing)?;
    match Argon2::default().hash_password(password.as_bytes(), &salt) {
        Ok(h) => Ok(h.to_string()),
        Err(_) => Err(CredentialError::Hashing),
    }
}

/// Relies on `PasswordHash::new` to parse the PHC string and on
/// `Argon2::verify_password`, which answers `Ok(())` exactly when the
/// re-derived key matches and `Error::Password` on a mismatch, an over-long
/// password included. Its other errors depend on the stored string alone.
#[verifier::external_body]
fn argon2_verify(password: &str, encoded: &str) -> (r: Result<bool, CredentialError>)
    ensures
        (r == Ok::<bool, CredentialError>(true)) == argon2_accepts(password@, encoded@),
        r is Err ==> !argon2_usable(encoded@),
        password@.len() <= MAX_PASSWORD_CHARS && !argon2_usable(encoded@) ==> r is Err,
{
    let parsed = match PasswordHash::new(encoded) {
        Ok(p) => p,
        Err(_) => return Err(CredentialError::MalformedHash),
    };
    match Argon2::default().verify_password(password.as_bytes(), &parsed) {
        Ok(()) => Ok(true),
        Err(argon2::password_hash::Error::Password) => Ok(false),
        Err(_) => Err(CredentialError::MalformedHash),
    }
}

/// Hashes `password` under the given salt into a self-describing encoded
/// string; any password within Argon2's limit, the empty one included,
/// succeeds.
pub fn hash_password_with_salt(password: &str, salt: &[u8]) -> (r: Result<String, CredentialError>)
    requires
        salt@.len() == SALT_LEN,
    ensures
        password@.len() <= MAX_PASSWORD_CHARS ==> r is Ok,
        r matches Ok(h) ==> h@ == argon2_phc(password@, salt@),
        r matches Ok(h) ==> argon2_accepts(password@, h@) && argon2_usable(h@)
            && phc_layout(h@, salt@) && starts_with(h@, phc_prefix()),
        r matches Err(e) ==> e == CredentialError::Hashing,
{
    match argon2_hash(password, salt) {
        Ok(h) => {
            proof {
                let head = phc_prefix() + b64_unpadded(salt@) + seq!['$'];
                let n = phc_prefix().len() as int;
                assert(h@.subrange(0, n) =~= h@.subrange(0, head.len() as int).subrange(0, n));
                assert(head.subrange(0, n) =~= phc_prefix());
            }
            Ok(h)
        },
        Err(_) => Err(CredentialError::Hashing),
    }
}

/// Hashes `password` under a fresh random salt. It fails, with `Hashing`,
/// only when no salt can be drawn or the password is beyond Argon2's limit.
pub fn hash_password(password: &str) -> (r: Result<String, CredentialError>)
    ensures
        r matches Ok(h) ==> argon2_accepts(password@, h@) && argon2_usable(h@)
            && starts_with(h@, phc_prefix())
            && exists|salt: Seq<u8>| salt.len() == SALT_LEN && h@ == argon2_phc(password@, salt)
                && phc_layout(h@, salt),
        r matches Err(e) ==> e == CredentialError::Hashing,
{
    match random_salt() {
        Ok(salt) => {
            let r = hash_password_with_salt(password, salt.as_slice());
            assert(r matches Ok(h) ==> salt@.len() == SALT_LEN && h@ == argon2_phc(password@, salt@)
                && phc_layout(h@, salt@));
            r
        },
        Err(_) => Err(CredentialError::Hashing),
    }
}

/// Checks `password` against a stored encoded hash. A wrong password gives
/// `Ok(false)`; a stored string that cannot be used gives `MalformedHash`.
pub fn verify_password(password: &str, encoded: &str) -> (r: Result<bool, CredentialError>)
    ensures
        (r == Ok::<bool, CredentialError>(true)) == argon2_accepts(password@, encoded@),
        r is Err ==> !argon2_usable(encoded@),
        password@.len() <= MAX_PASSWORD_CHARS && !argon2_usable(encoded@) ==> r is Err,
        r matches Err(e) ==> e == CredentialError::MalformedHash,
{
    match argon2_verify(password, encoded) {
        Ok(b) => Ok(b),
        Err(_) => Err(CredentialError::MalformedHash),
    }
}

} // verus!
