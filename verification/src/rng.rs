//! The entropy seeding protocol: exactly 32 bytes of externally obtained
//! entropy seed a cryptographically secure generator, or the request fails.

use rand::distributions::DistString;
use rand::SeedableRng;
use vstd::prelude::*;

verus! {

/// The number of entropy bytes a seed must hold.
pub const SEED_BYTE_LENGTH: usize = 32;

/// The external entropy call did not deliver usable seed material: the
/// payload's length was not the expected number of bytes. Fatal for the
/// current request; no weaker randomness source is ever substituted.
#[derive(Debug, PartialEq, Eq, Structural)]
pub struct EntropySourceError {
    /// The number of bytes the protocol requires.
    pub expected: usize,
    /// The number of bytes the provider returned.
    pub got: usize,
}

/// A character of the 62-symbol alphanumeric alphabet: `0-9`, `A-Z`, `a-z`.
pub open spec fn is_alphanumeric(c: char) -> bool {
    ('0' <= c && c <= '9') || ('A' <= c && c <= 'Z') || ('a' <= c && c <= 'z')
}

#[verifier::external_type_specification]
#[verifier::external_body]
pub struct ExChaCha20Rng(rand_chacha::ChaCha20Rng);

/// A ChaCha20 generator seeded with 32 bytes of external entropy. Every
/// token-generation request seeds and consumes its own instance; instances
/// are never shared, pooled, or reused across requests.
pub struct SeededRng {
    rng: rand_chacha::ChaCha20Rng,
}

/// The generator that the ChaCha20 seeded construction yields for a given
/// seed: `ChaCha20Rng::from_seed` is a pure function of the seed bytes, so
/// the generator a seed produces is determined by those bytes alone.
pub uninterp spec fn seeded_from(seed: Seq<u8>) -> SeededRng;

impl SeededRng {
    /// Relies on `rand_chacha::ChaCha20Rng::from_seed`: the generator is
    /// built from the 32 seed bytes, taken verbatim, and is a deterministic
    /// function of them.
    #[verifier::external_body]
    fn from_entropy_bytes(seed: &[u8]) -> (r: SeededRng)
        requires
            seed@.len() == 32,
        ensures
            r == seeded_from(seed@),
    {
        SeededRng { rng: rand_chacha::ChaCha20Rng::from_seed(seed.try_into().unwrap()) }
    }

    /// Relies on rand's `Alphanumeric` distribution: `sample_string` draws
    /// exactly `len` characters from `0-9`, `A-Z`, `a-z`, consuming the
    /// generator's stream in a single pass. Which characters come back
    /// depends on the generator's state; nothing more is assumed of them.
    #[verifier::external_body]
    pub(crate) fn sample_alphanumeric(&mut self, len: usize) -> (r: String)
        ensures
            r@.len() == len,
            forall|i: int| 0 <= i < r@.len() ==> is_alphanumeric(#[trigger] r@[i]),
    {
        rand::distributions::Alphanumeric.sample_string(&mut self.rng, len)
    }
}

/// Seeds a fresh generator from entropy handed over by the external trusted
/// provider. Succeeds exactly when `entropy` holds 32 bytes, which become the
/// seed verbatim; any other length is rejected with the expected and the
/// received count, and no weaker randomness source takes its place.
pub fn seed_rng(entropy: &[u8]) -> (r: Result<SeededRng, EntropySourceError>)
    ensures
        match r {
            Ok(g) => entropy@.len() == SEED_BYTE_LENGTH && g == seeded_from(entropy@),
            Err(e) => {
                &&& entropy@.len() != SEED_BYTE_LENGTH
                &&& e.expected == SEED_BYTE_LENGTH
                &&& e.got == entropy@.len()
            },
        },
{
    if entropy.len() == SEED_BYTE_LENGTH {
        Ok(SeededRng::from_entropy_bytes(entropy))
    } else {
        Err(EntropySourceError { expected: SEED_BYTE_LENGTH, got: entropy.len() })
    }
}

} // verus!
