//! Base-62 rendering of a checksum, zero-padded to a fixed width.

use crate::checksum::Checksum;
use vstd::prelude::*;

verus! {

/// The fixed width, in characters, of the encoded checksum suffix of a token.
pub const CHECKSUM_CHAR_LENGTH: u8 = 6;

/// A checksum rendered in base 62 (digits, then upper case, then lower case)
/// and left-padded with the zero digit `'0'` to exactly six characters.
#[derive(Debug, PartialEq, Eq)]
pub struct Base62EncodedChecksum(pub String);

/// The byte of the base-62 digit `d`: the alphabet is `0-9`, `A-Z`, `a-z`,
/// in that order.
pub open spec fn base62_byte(d: int) -> u8 {
    if d < 10 {
        (48 + d) as u8
    } else if d < 36 {
        (55 + d) as u8
    } else {
        (61 + d) as u8
    }
}

/// The character of the base-62 digit `d`.
pub open spec fn base62_char(d: int) -> char {
    base62_byte(d) as char
}

/// 62 raised to the power `k`.
pub open spec fn pow62(k: nat) -> nat
    decreases k,
{
    if k == 0 {
        1
    } else {
        62 * pow62((k - 1) as nat)
    }
}

/// The natural base-62 digit string of `n`, most significant digit first;
/// zero is written `"0"`.
pub open spec fn base62_digits(n: nat) -> Seq<char>
    decreases n,
{
    if n < 62 {
        seq![base62_char(n as int)]
    } else {
        base62_digits(n / 62) + seq![base62_char((n % 62) as int)]
    }
}

/// `s` left-padded with the base-62 zero digit to `width` characters; a
/// string of `width` characters or more is left unchanged, never truncated.
pub open spec fn pad_left_zeros(s: Seq<char>, width: nat) -> Seq<char> {
    if s.len() >= width {
        s
    } else {
        Seq::new((width - s.len()) as nat, |i: int| '0') + s
    }
}

/// The encoded form of a checksum value: its base-62 digits, zero-padded to
/// the fixed checksum width.
pub open spec fn encoded_checksum(n: u32) -> Seq<char> {
    pad_left_zeros(base62_digits(n as nat), CHECKSUM_CHAR_LENGTH as nat)
}

/// The last `k` base-62 digits of `n`, most significant first.
spec fn fixed_digits(n: nat, k: nat) -> Seq<char>
    decreases k,
{
    if k == 0 {
        Seq::empty()
    } else {
        fixed_digits(n / 62, (k - 1) as nat) + seq![base62_char((n % 62) as int)]
    }
}

proof fn lemma_digits_len(n: nat, k: nat)
    requires
        1 <= k,
        n < pow62(k),
    ensures
        base62_digits(n).len() <= k,
    decreases k,
{
    if n >= 62 {
        let m = pow62((k - 1) as nat);
        assert(pow62(k) == 62 * m);
        assert(n / 62 < m) by (nonlinear_arith)
            requires
                n < 62 * m,
        ;
        lemma_digits_len(n / 62, (k - 1) as nat);
    }
}

proof fn lemma_fixed_digits_zero(k: nat)
    ensures
        fixed_digits(0, k) == Seq::new(k, |i: int| '0'),
    decreases k,
{
    if k == 0 {
        assert(fixed_digits(0, 0) =~= Seq::new(0, |i: int| '0'));
    } else {
        lemma_fixed_digits_zero((k - 1) as nat);
        assert(base62_char(0) == '0');
        assert(fixed_digits(0, k) =~= Seq::new(k, |i: int| '0'));
    }
}

proof fn lemma_pad_snoc(a: Seq<char>, x: char, k: nat)
    requires
        a.len() < k,
    ensures
        pad_left_zeros(a + seq![x], k) == pad_left_zeros(a, (k - 1) as nat) + seq![x],
{
    assert(pad_left_zeros(a + seq![x], k) =~= pad_left_zeros(a, (k - 1) as nat) + seq![x]);
}

/// Padding the natural digit string of `n` to width `k` writes exactly the
/// last `k` base-62 digits of `n`, whenever `n` fits in `k` digits.
proof fn lemma_pad_fixed(n: nat, k: nat)
    requires
        1 <= k,
        n < pow62(k),
    ensures
        pad_left_zeros(base62_digits(n), k) == fixed_digits(n, k),
    decreases k,
{
    if n < 62 {
        if k == 1 {
            assert(fixed_digits(n / 62, 0) =~= Seq::<char>::empty());
            assert(pad_left_zeros(base62_digits(n), 1) =~= fixed_digits(n, 1));
        } else {
            lemma_fixed_digits_zero((k - 1) as nat);
            assert(n / 62 == 0);
            assert(fixed_digits(n, k) == fixed_digits(0, (k - 1) as nat) + seq![
                base62_char((n % 62) as int),
            ]);
            assert(pad_left_zeros(base62_digits(n), k) =~= fixed_digits(n, k));
        }
    } else {
        let q = n / 62;
        let r = (n % 62) as int;
        let m = pow62((k - 1) as nat);
        assert(pow62(k) == 62 * m);
        assert(q < m) by (nonlinear_arith)
            requires
                n < 62 * m,
                q == n / 62,
        ;
        lemma_pad_fixed(q, (k - 1) as nat);
        lemma_digits_len(q, (k - 1) as nat);
        assert(base62_digits(n) == base62_digits(q) + seq![base62_char(r)]);
        lemma_pad_snoc(base62_digits(q), base62_char(r), k);
    }
}

/// Six base-62 digits always suffice for a 32-bit checksum: 62^6 exceeds
/// 2^32, so the padded rendering of every checksum value, zero included, has
/// exactly six characters and nothing is ever truncated.
pub proof fn lemma_encoded_checksum_len(n: u32)
    ensures
        encoded_checksum(n).len() == 6,
{
    lemma_pow62_six();
    lemma_digits_len(n as nat, 6);
}

proof fn lemma_pow62_six()
    ensures
        pow62(6) == 56800235584,
        pow62(6) > 0x1_0000_0000,
{
    assert(pow62(0nat) == 1);
    assert(pow62(1nat) == 62);
    assert(pow62(2nat) == 3844);
    assert(pow62(3nat) == 238328);
    assert(pow62(4nat) == 14776336);
    assert(pow62(5nat) == 916132832);
    assert(pow62(6nat) == 56800235584);
}

fn base62_digit_byte(d: u32) -> (b: u8)
    requires
        d < 62,
    ensures
        b == base62_byte(d as int),
        b < 128,
{
    if d < 10 {
        (48 + d) as u8
    } else if d < 36 {
        (55 + d) as u8
    } else {
        (61 + d) as u8
    }
}

/// Relies on `String::from_utf8`: ASCII bytes are valid UTF-8, decoding them
/// succeeds and yields one character per byte, with the byte's own value.
#[verifier::external_body]
fn ascii_string(bytes: Vec<u8>) -> (r: String)
    requires
        forall|i: int| 0 <= i < bytes@.len() ==> bytes@[i] < 128,
    ensures
        r@.len() == bytes@.len(),
        forall|i: int| 0 <= i < r@.len() ==> r@[i] == (bytes@[i] as char),
{
    String::from_utf8(bytes).unwrap()
}

/// Renders a checksum in base 62, left-padded with `'0'` to exactly six
/// characters.
pub fn base62_encode_checksum(checksum: &Checksum) -> (r: Base62EncodedChecksum)
    ensures
        r.0@ == encoded_checksum(checksum.0),
        r.0@.len() == 6,
{
    let n = checksum.0;
    let n1 = n / 62;
    let n2 = n1 / 62;
    let n3 = n2 / 62;
    let n4 = n3 / 62;
    let n5 = n4 / 62;
    let mut bytes: Vec<u8> = Vec::new();
    bytes.push(base62_digit_byte(n5 % 62));
    bytes.push(base62_digit_byte(n4 % 62));
    bytes.push(base62_digit_byte(n3 % 62));
    bytes.push(base62_digit_byte(n2 % 62));
    bytes.push(base62_digit_byte(n1 % 62));
    bytes.push(base62_digit_byte(n % 62));
    let s = ascii_string(bytes);
    proof {
        assert(n5 as nat / 62 == 0);
        assert(fixed_digits(n5 as nat / 62, 0) =~= Seq::<char>::empty());
        assert(fixed_digits(n5 as nat, 1) =~= seq![base62_char((n5 % 62) as int)]);
        assert(fixed_digits(n4 as nat, 2) =~= fixed_digits(n5 as nat, 1) + seq![
            base62_char((n4 % 62) as int),
        ]);
        assert(fixed_digits(n3 as nat, 3) =~= fixed_digits(n4 as nat, 2) + seq![
            base62_char((n3 % 62) as int),
        ]);
        assert(fixed_digits(n2 as nat, 4) =~= fixed_digits(n3 as nat, 3) + seq![
            base62_char((n2 % 62) as int),
        ]);
        assert(fixed_digits(n1 as nat, 5) =~= fixed_digits(n2 as nat, 4) + seq![
            base62_char((n1 % 62) as int),
        ]);
        assert(fixed_digits(n as nat, 6) =~= fixed_digits(n1 as nat, 5) + seq![
            base62_char((n % 62) as int),
        ]);
        assert(s@ =~= fixed_digits(n as nat, 6));
        lemma_pow62_six();
        lemma_pad_fixed(n as nat, 6);
    }
    Base62EncodedChecksum(s)
}

} // verus!
