//! The checksum engine: a fixed-size integrity value over a byte string.

use vstd::prelude::*;

verus! {

/// A 32-bit integrity value computed over the bytes of a token's random
/// sample with the CRC-32/ISO-HDLC algorithm.
#[derive(Debug, PartialEq, Eq, Structural)]
pub struct Checksum(pub u32);

/// The CRC-32/ISO-HDLC value of a byte string (reflected input and output,
/// polynomial 0xEDB88320, initial value 0xFFFFFFFF, final xor 0xFFFFFFFF).
/// A pure function of the bytes: no hidden state.
pub uninterp spec fn crc32_of(bytes: Seq<u8>) -> u32;

/// The checksum of a string: the CRC-32/ISO-HDLC value of its UTF-8 bytes.
pub open spec fn checksum_of(s: Seq<char>) -> u32 {
    crc32_of(vstd::utf8::encode_utf8(s))
}

/// Relies on `crc::Crc::<u32>::checksum` with the `CRC_32_ISO_HDLC` algorithm:
/// the returned value is the CRC-32/ISO-HDLC checksum of the input bytes and
/// depends on those bytes alone.
#[verifier::external_body]
fn crc32_iso_hdlc(bytes: &[u8]) -> (r: u32)
    ensures
        r == crc32_of(bytes@),
{
    crc::Crc::<u32>::new(&crc::CRC_32_ISO_HDLC).checksum(bytes)
}

/// Computes the CRC-32/ISO-HDLC checksum of the UTF-8 bytes of `input`.
pub fn make_checksum(input: &str) -> (r: Checksum)
    ensures
        r.0 == checksum_of(input@),
{
    Checksum(crc32_iso_hdlc(input.as_bytes()))
}

/// The checksum is deterministic: it depends on the input string alone, so
/// equal inputs always carry equal checksums.
pub proof fn lemma_checksum_deterministic(a: Seq<char>, b: Seq<char>)
    requires
        a == b,
    ensures
        checksum_of(a) == checksum_of(b),
{
}

} // verus!
