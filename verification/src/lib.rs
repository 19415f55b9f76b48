//! Self-checking authentication tokens.
//!
//! A token is `<prefix>_<random sample><base-62 checksum>`: a caller-chosen
//! namespace prefix, a single separator, an alphanumeric sample drawn from a
//! seeded cryptographically secure generator, and the CRC-32/ISO-HDLC checksum
//! of the sample rendered in base 62, zero-padded to a fixed width of six
//! characters. The fixed width keeps the total token length constant for a
//! given configuration and lets the checksum be sliced off positionally.

pub mod checksum;
pub mod encoding;
pub mod rng;
pub mod token;

pub use checksum::{checksum_of, crc32_of, lemma_checksum_deterministic, make_checksum, Checksum};
pub use encoding::{
    base62_encode_checksum, encoded_checksum, lemma_encoded_checksum_len, Base62EncodedChecksum,
    CHECKSUM_CHAR_LENGTH,
};
pub use rng::{
    is_alphanumeric, seed_rng, seeded_from, EntropySourceError, SeededRng, SEED_BYTE_LENGTH,
};
pub use token::{
    lemma_token_round_trip, make_auth_token, make_auth_token_with_length,
    make_auth_token_with_value, token_generation_post, token_matches, token_of, valid_prefix,
    verify_token, AuthToken, ChecksumMismatchError, LengthBudgetError, Prefix,
    DEFAULT_AUTH_TOKEN_CHAR_LENGTH, PREFIX_SEPARATOR,
};
