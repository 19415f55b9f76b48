//! The token formatter: length budgeting, assembly, and validation.

use crate::checksum::{checksum_of, make_checksum};
use crate::encoding::{base62_encode_checksum, encoded_checksum, lemma_encoded_checksum_len};
use crate::rng::{is_alphanumeric, SeededRng};
use vstd::prelude::*;

verus! {

/// The default total token length, in characters.
pub const DEFAULT_AUTH_TOKEN_CHAR_LENGTH: u8 = 255;

/// The single character between prefix and sample. It appears in neither the
/// alphanumeric sample alphabet nor the base-62 checksum alphabet, so the
/// first separator splits prefix from payload unambiguously.
pub const PREFIX_SEPARATOR: char = '_';

/// An opaque, caller-chosen string naming a token's namespace or purpose.
#[derive(Debug, PartialEq, Eq)]
pub struct Prefix(pub String);

/// A complete authentication token: prefix, separator, random sample, and
/// encoded checksum, as one string. Immutable once created; equality is
/// exact string equality.
#[derive(Debug, PartialEq, Eq)]
pub struct AuthToken(pub String);

/// The requested total token length leaves no room for the random sample
/// next to the prefix, the separator, and the fixed-width checksum.
/// Recoverable: the caller may retry with a longer length.
#[derive(Debug, PartialEq, Eq, Structural)]
pub struct LengthBudgetError {
    /// The total length the caller asked for.
    pub requested: usize,
    /// The length of the prefix that left no budget.
    pub prefix_length: usize,
}

/// The token's embedded checksum does not match one recomputed over its
/// sample: the token is corrupted or forged and must be rejected before any
/// more expensive verification work.
#[derive(Debug, PartialEq, Eq, Structural)]
pub struct ChecksumMismatchError;

/// A prefix that can head a token: non-empty and free of the separator
/// character, so that the separator splits the token unambiguously.
pub open spec fn valid_prefix(p: Seq<char>) -> bool {
    &&& p.len() > 0
    &&& forall|i: int| 0 <= i < p.len() ==> p[i] != PREFIX_SEPARATOR
}

/// The token text assembled from prefix `p` and sample `v`.
pub open spec fn token_of(p: Seq<char>, v: Seq<char>) -> Seq<char> {
    p + seq![PREFIX_SEPARATOR] + v + encoded_checksum(checksum_of(v))
}

/// Holds when `t` is a well-formed token for prefix `p`: it begins with the
/// prefix followed by the separator, and its last six characters are the
/// encoded checksum of the sample that sits between separator and checksum.
pub open spec fn token_matches(t: Seq<char>, p: Seq<char>) -> bool {
    &&& t.len() >= p.len() + 7
    &&& t.subrange(0, p.len() as int) == p
    &&& t[p.len() as int] == PREFIX_SEPARATOR
    &&& t.subrange(t.len() - 6, t.len() as int) == encoded_checksum(
        checksum_of(t.subrange(p.len() as int + 1, t.len() - 6)),
    )
}

/// What generating a token with a given prefix and total length yields: on
/// success a token of exactly the requested length, assembled from some
/// alphanumeric sample that fills the remaining budget; a budget error, with
/// the rejected request in it, exactly when the length cannot even hold
/// prefix, separator, checksum, and one sample character.
pub open spec fn token_generation_post(
    r: Result<AuthToken, LengthBudgetError>,
    p: Seq<char>,
    length: int,
) -> bool {
    match r {
        Ok(t) => {
            &&& length > p.len() + 7
            &&& t.0@.len() == length
            &&& exists|v: Seq<char>|
                #![auto]
                {
                    &&& v.len() == length - p.len() - 7
                    &&& (forall|i: int| 0 <= i < v.len() ==> is_alphanumeric(v[i]))
                    &&& t.0@ == token_of(p, v)
                }
        },
        Err(e) => {
            &&& length <= p.len() + 7
            &&& e.requested == length
            &&& e.prefix_length == p.len()
        },
    }
}

/// Assembles the token for `value`: prefix, separator, `value` itself, and
/// the base-62 encoded checksum of `value`'s bytes.
pub fn make_auth_token_with_value(prefix: &Prefix, value: &str) -> (r: AuthToken)
    ensures
        r.0@ == token_of(prefix.0@, value@),
        r.0@.len() == prefix.0@.len() + value@.len() + 7,
{
    let checksum = make_checksum(value);
    let encoded = base62_encode_checksum(&checksum);
    let mut token = prefix.0.clone();
    token.append("_");
    token.append(value);
    token.append(encoded.0.as_str());
    proof {
        reveal_strlit("_");
        assert(token@ =~= token_of(prefix.0@, value@));
    }
    AuthToken(token)
}

/// Draws a fresh alphanumeric sample that fills the length budget and
/// assembles the token, or rejects a budget with no room for a sample. The
/// budget check comes before any draw: a rejected request leaves the
/// generator untouched and consumes no entropy.
pub fn make_auth_token_with_length(rng: &mut SeededRng, prefix: &Prefix, length: u8) -> (r: Result<
    AuthToken,
    LengthBudgetError,
>)
    ensures
        token_generation_post(r, prefix.0@, length as int),
        r is Err ==> *final(rng) == *old(rng),
{
    let prefix_length = prefix.0.as_str().unicode_len();
    if (length as usize) > prefix_length && (length as usize) - prefix_length > 7 {
        let sample_length = (length as usize) - prefix_length - 7;
        let sample = rng.sample_alphanumeric(sample_length);
        let token = make_auth_token_with_value(prefix, sample.as_str());
        Ok(token)
    } else {
        Err(LengthBudgetError { requested: length as usize, prefix_length })
    }
}

/// Generates a token of the default total length. A rejected request leaves
/// the generator untouched.
pub fn make_auth_token(rng: &mut SeededRng, prefix: &Prefix) -> (r: Result<
    AuthToken,
    LengthBudgetError,
>)
    ensures
        token_generation_post(r, prefix.0@, DEFAULT_AUTH_TOKEN_CHAR_LENGTH as int),
        r is Err ==> *final(rng) == *old(rng),
{
    make_auth_token_with_length(rng, prefix, DEFAULT_AUTH_TOKEN_CHAR_LENGTH)
}

/// The validation counterpart of assembly: re-derives sample and checksum
/// from the token's structure, recomputes the checksum, and compares it with
/// the trailing six characters. Local, synchronous, and side-effect free;
/// meant to run before any expensive verification work downstream.
pub fn verify_token(token: &AuthToken, prefix: &Prefix) -> (r: Result<(), ChecksumMismatchError>)
    ensures
        r is Ok <==> token_matches(token.0@, prefix.0@),
{
    let t = token.0.as_str();
    let token_length = t.unicode_len();
    let p = prefix.0.as_str();
    let prefix_length = p.unicode_len();
    if token_length < prefix_length || token_length - prefix_length < 7 {
        return Err(ChecksumMismatchError);
    }
    let head = t.substring_char(0, prefix_length);
    if !(String::from_str(head) == prefix.0) {
        return Err(ChecksumMismatchError);
    }
    if t.get_char(prefix_length) != PREFIX_SEPARATOR {
        return Err(ChecksumMismatchError);
    }
    let sample = t.substring_char(prefix_length + 1, token_length - 6);
    let expected = base62_encode_checksum(&make_checksum(sample));
    let tail = t.substring_char(token_length - 6, token_length);
    if String::from_str(tail) == expected.0 {
        Ok(())
    } else {
        Err(ChecksumMismatchError)
    }
}

/// Round trip: a token assembled from any prefix and any sample passes
/// validation against that prefix — its embedded checksum always matches
/// one recomputed over its embedded sample.
pub proof fn lemma_token_round_trip(p: Seq<char>, v: Seq<char>)
    ensures
        token_matches(token_of(p, v), p),
{
    let t = token_of(p, v);
    lemma_encoded_checksum_len(checksum_of(v));
    assert(t.len() == p.len() + 1 + v.len() + 6);
    assert(t.subrange(0, p.len() as int) =~= p);
    assert(t[p.len() as int] == PREFIX_SEPARATOR);
    assert(t.subrange(p.len() as int + 1, t.len() - 6) =~= v);
    assert(t.subrange(t.len() - 6, t.len() as int) =~= encoded_checksum(checksum_of(v)));
}

} // verus!
