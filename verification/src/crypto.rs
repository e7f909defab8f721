//! SHA-256 and operating-system entropy, both supplied by `ring`.

use vstd::prelude::*;

use crate::pairing::{PairingEntropy, PairingEntropyError};

verus! {

/// The SHA-256 digest of a byte string, as computed by `ring::digest::digest`.
pub uninterp spec fn sha256_digest(data: Seq<u8>) -> Seq<u8>;

/// Trusted: `ring::digest::digest(&SHA256, data)`, copied into a 32-byte array.
///
/// Claims only that the result is the named SHA-256 digest of the input and,
/// as ring documents for SHA-256, that it is 32 bytes long. ring panics on
/// inputs of 2^61 bytes or more (the SHA-256 length limit), so `requires`
/// excludes them.
#[verifier::external_body]
pub(crate) fn sha256(data: &[u8]) -> (digest: [u8; 32])
    requires
        data@.len() < 0x2000_0000_0000_0000,
    ensures
        digest@ == sha256_digest(data@),
{
    let computed = ring::digest::digest(&ring::digest::SHA256, data);
    let mut output = [0_u8; 32];
    output.copy_from_slice(computed.as_ref());
    output
}

#[verifier::external_type_specification]
#[verifier::external_body]
pub struct ExSystemRandom(ring::rand::SystemRandom);

/// Trusted: `ring::rand::SystemRandom::new`, which never fails.
#[verifier::external_body]
fn system_random_new() -> (random: ring::rand::SystemRandom) {
    ring::rand::SystemRandom::new()
}

/// Trusted: `SecureRandom::fill` on ring's system generator.
///
/// States only that the call reports success or failure; which bytes come back
/// is chance and is not stated.
#[verifier::external_body]
fn system_random_fill(random: &ring::rand::SystemRandom, destination: &mut [u8]) -> (filled: bool)
    ensures
        final(destination)@.len() == old(destination)@.len(),
{
    ring::rand::SecureRandom::fill(random, destination).is_ok()
}

/// Production entropy backed exclusively by ring's operating-system RNG.
pub struct SystemPairingEntropy {
    random: ring::rand::SystemRandom,
}

impl SystemPairingEntropy {
    /// Constructs the production entropy source.
    pub fn new() -> (entropy: SystemPairingEntropy) {
        SystemPairingEntropy { random: system_random_new() }
    }
}

impl PairingEntropy for SystemPairingEntropy {
    fn fill(&self, destination: &mut [u8]) -> (result: Result<(), PairingEntropyError>) {
        if system_random_fill(&self.random, destination) {
            Ok(())
        } else {
            Err(PairingEntropyError)
        }
    }
}

} // verus!
