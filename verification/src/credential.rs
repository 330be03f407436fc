//! The credential engine: derives and verifies password hashes.
//!
//! The key-derivation function is pinned, and changing any parameter is a
//! breaking change to stored credentials: PBKDF2 with HMAC-SHA-256, 100 000
//! iterations, 32-byte output, 32-byte salt from a cryptographically secure
//! RNG. The plaintext password exists only in the callers' frames; the core
//! stores and compares credentials alone.

use vstd::prelude::*;
use vstd::string::StringSliceAdditionalSpecFns;

verus! {

/// Length in bytes of a credential, the output of the pinned KDF.
pub const CREDENTIAL_LEN: usize = 32;

/// Length in bytes of a salt.
pub const SALT_LEN: usize = 32;

/// The pinned PBKDF2 iteration count.
pub const HASH_ITERATIONS: u32 = 100000;

/// Passwords longer than this many bytes are outside the engine's domain.
/// The bound is far below the underlying digest's input limit, so every
/// password within it derives and verifies without failure.
pub const MAX_PASSWORD_BYTES: usize = 0x10000000;

/// A password hash: the 32-byte PBKDF2 output stored in place of the
/// plaintext password.
pub type Credential = [u8; CREDENTIAL_LEN];

/// Password salt: 32 random bytes, unique per user, combined with the
/// password before key derivation.
pub type Salt = [u8; SALT_LEN];

/// The sole result of a failed verification. Every internal cause (wrong
/// password, corrupted credential bytes, parameter mismatch) collapses into
/// this one value so that callers cannot tell them apart.
#[derive(Debug, Copy, Clone, PartialEq, Eq, Structural)]
pub enum PasswordError {
    IncorrectPassword,
}

/// Failure of the CSPRNG to produce bytes. Fatal: it indicates a broken
/// host, and the caller decides how to stop.
#[derive(Debug, Copy, Clone, PartialEq, Eq, Structural)]
pub enum RngError {
    RngFailure,
}

/// The 32-byte output of PBKDF2 with HMAC-SHA-256 at the pinned iteration
/// count, as a function of the password bytes and the salt alone. The value
/// is fixed by RFC 2898; this name stands for it, and `ring` computes it.
pub uninterp spec fn pbkdf2_hmac_sha256(password: Seq<u8>, salt: Seq<u8>) -> Seq<u8>;

/// What a successful verification means: the stored credential is exactly
/// the pinned KDF's output for these password bytes and this salt.
pub open spec fn credential_matches(credential: Seq<u8>, salt: Seq<u8>, password: Seq<u8>) -> bool {
    credential == pbkdf2_hmac_sha256(password, salt)
}

/// Relies on `ring::pbkdf2::derive` with `PBKDF2_HMAC_SHA256` and the pinned
/// iteration count: fills the output with the PBKDF2 value of the password
/// and salt, deterministic in those two inputs alone. `derive` panics only
/// on inputs of astronomical length, which the precondition rules out.
#[verifier::external_body]
fn pbkdf2_derive(password: &[u8], salt: &[u8; 32]) -> (r: [u8; 32])
    requires
        password@.len() <= MAX_PASSWORD_BYTES,
    ensures
        r@ == pbkdf2_hmac_sha256(password@, salt@),
{
    let mut out = [0u8; 32];
    let iterations = core::num::NonZeroU32::new(HASH_ITERATIONS).unwrap();
    ring::pbkdf2::derive(
        ring::pbkdf2::PBKDF2_HMAC_SHA256,
        iterations,
        salt.as_slice(),
        password,
        &mut out,
    );
    out
}

/// Relies on `ring::pbkdf2::verify` with `PBKDF2_HMAC_SHA256` and the pinned
/// iteration count: recomputes the derivation and compares it against
/// `previously_derived` in constant time, `Ok` exactly when they match. It
/// returns an error rather than panicking on oversized inputs, so success
/// is promised only below the length bound.
#[verifier::external_body]
fn pbkdf2_verify(password: &[u8], salt: &[u8; 32], previously_derived: &[u8; 32]) -> (r: bool)
    ensures
        r ==> previously_derived@ == pbkdf2_hmac_sha256(password@, salt@),
        previously_derived@ == pbkdf2_hmac_sha256(password@, salt@) && password@.len()
            <= MAX_PASSWORD_BYTES ==> r,
{
    let iterations = core::num::NonZeroU32::new(HASH_ITERATIONS).unwrap();
    ring::pbkdf2::verify(
        ring::pbkdf2::PBKDF2_HMAC_SHA256,
        iterations,
        salt.as_slice(),
        password,
        previously_derived.as_slice(),
    ).is_ok()
}

/// Declares `ring::rand::SystemRandom` so that a CSPRNG handle can pass
/// through signatures; the value is opaque here.
#[verifier::external_type_specification]
#[verifier::external_body]
pub struct ExSystemRandom(ring::rand::SystemRandom);

/// Relies on `ring::rand::SystemRandom::new`: a handle to the OS-seeded
/// CSPRNG. It holds no state of its own, so nothing is promised of it.
#[verifier::external_body]
fn system_random() -> ring::rand::SystemRandom {
    ring::rand::SystemRandom::new()
}

/// Relies on `ring::rand::SecureRandom::fill` on `SystemRandom`: 32
/// cryptographically secure random bytes, or `None` when the CSPRNG refuses.
/// The bytes are random, so nothing is promised of the value.
#[verifier::external_body]
fn fill_random_32(rng: &ring::rand::SystemRandom) -> Option<[u8; 32]> {
    let mut out = [0u8; 32];
    match ring::rand::SecureRandom::fill(rng, &mut out) {
        Ok(()) => Some(out),
        Err(_) => None,
    }
}

/// Compute the credential for a password and salt under the pinned KDF
/// parameters: deterministic for a fixed `(password, salt)`.
pub fn derive(password: &str, salt: &Salt) -> (r: Credential)
    requires
        password.spec_bytes().len() <= MAX_PASSWORD_BYTES,
    ensures
        r@ == pbkdf2_hmac_sha256(password.spec_bytes(), salt@),
        credential_matches(r@, salt@, password.spec_bytes()),
{
    pbkdf2_derive(password.as_bytes(), salt)
}

/// Recompute the derivation for `password` and compare it against
/// `credential` in constant time: `Ok` exactly when the credential is the
/// pinned KDF's output for this password and salt, and otherwise the single
/// undistinguished `IncorrectPassword`.
pub fn verify(credential: &Credential, salt: &Salt, password: &str) -> (r: Result<
    (),
    PasswordError,
>)
    ensures
        r is Ok ==> credential_matches(credential@, salt@, password.spec_bytes()),
        credential_matches(credential@, salt@, password.spec_bytes())
            && password.spec_bytes().len() <= MAX_PASSWORD_BYTES ==> r is Ok,
        r is Err ==> r == Err::<(), PasswordError>(PasswordError::IncorrectPassword),
{
    if pbkdf2_verify(password.as_bytes(), salt, credential) {
        Ok(())
    } else {
        Err(PasswordError::IncorrectPassword)
    }
}

/// Sample a fresh 32-byte salt from the CSPRNG. Failure of the CSPRNG is
/// the only error, and it is fatal to the caller.
pub fn fresh_salt() -> (r: Result<Salt, RngError>)
    ensures
        r is Err ==> r == Err::<Salt, RngError>(RngError::RngFailure),
{
    let rng = system_random();
    match fill_random_32(&rng) {
        Some(salt) => Ok(salt),
        None => Err(RngError::RngFailure),
    }
}

/// Credential round-trip: for any password bytes and salt, the credential
/// derived from them matches under the same password bytes and salt, so a
/// stored credential always verifies against the password it came from.
pub proof fn lemma_credential_round_trip(password: Seq<u8>, salt: Seq<u8>)
    ensures
        credential_matches(pbkdf2_hmac_sha256(password, salt), salt, password),
{
}

/// Credential sensitivity, the provable part: an attempt matches a
/// credential derived from another password exactly when the pinned KDF
/// maps both to the same output under that salt. A wrong password is
/// accepted only on such a KDF collision; that collisions are negligibly
/// rare is a property of the KDF itself, outside what the core states.
pub proof fn lemma_acceptance_needs_kdf_collision(
    password: Seq<u8>,
    attempt: Seq<u8>,
    salt: Seq<u8>,
)
    ensures
        credential_matches(pbkdf2_hmac_sha256(password, salt), salt, attempt)
            <==> pbkdf2_hmac_sha256(attempt, salt) == pbkdf2_hmac_sha256(password, salt),
{
}

} // verus!
