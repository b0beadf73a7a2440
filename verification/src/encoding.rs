//! Base64 and decimal encodings used by the escape-sequence builder.

use vstd::prelude::*;

verus! {

/// The byte of the standard base64 alphabet at index `v`:
/// `A`-`Z`, then `a`-`z`, then `0`-`9`, then `+` and `/`.
pub open spec fn b64_alphabet(v: int) -> u8
    recommends
        0 <= v < 64,
{
    if v < 26 {
        (65 + v) as u8
    } else if v < 52 {
        (97 + (v - 26)) as u8
    } else if v < 62 {
        (48 + (v - 52)) as u8
    } else if v == 62 {
        43u8
    } else {
        47u8
    }
}

/// The index of byte `c` in the standard base64 alphabet, or `-1`
/// when `c` is not an alphabet byte.
pub open spec fn b64_index(c: u8) -> int {
    if 65 <= c <= 90 {
        c - 65
    } else if 97 <= c <= 122 {
        (c - 97) + 26
    } else if 48 <= c <= 57 {
        (c - 48) + 52
    } else if c == 43 {
        62
    } else if c == 47 {
        63
    } else {
        -1
    }
}

/// The padding byte `=`.
pub open spec fn b64_pad() -> u8 {
    61u8
}

/// Standard base64 encoding with padding: each group of three input
/// bytes becomes four alphabet bytes; a final group of one or two
/// bytes is encoded into two or three alphabet bytes and padded with
/// `=` to a width of four.
pub open spec fn b64_encode(b: Seq<u8>) -> Seq<u8>
    decreases b.len(),
{
    if b.len() == 0 {
        Seq::empty()
    } else if b.len() == 1 {
        let b0 = b[0] as int;
        seq![
            b64_alphabet(b0 / 4),
            b64_alphabet((b0 % 4) * 16),
            b64_pad(),
            b64_pad(),
        ]
    } else if b.len() == 2 {
        let b0 = b[0] as int;
        let b1 = b[1] as int;
        seq![
            b64_alphabet(b0 / 4),
            b64_alphabet((b0 % 4) * 16 + b1 / 16),
            b64_alphabet((b1 % 16) * 4),
            b64_pad(),
        ]
    } else {
        let b0 = b[0] as int;
        let b1 = b[1] as int;
        let b2 = b[2] as int;
        seq![
            b64_alphabet(b0 / 4),
            b64_alphabet((b0 % 4) * 16 + b1 / 16),
            b64_alphabet((b1 % 16) * 4 + b2 / 64),
            b64_alphabet(b2 % 64),
        ] + b64_encode(b.skip(3))
    }
}

/// Decoding of a padded base64 byte string, four bytes at a time.
/// Input that is not a multiple of four bytes long, or that ends
/// before its padding, decodes to what its complete leading groups
/// hold.
pub open spec fn b64_decode(s: Seq<u8>) -> Seq<u8>
    decreases s.len(),
{
    if s.len() < 4 {
        Seq::empty()
    } else if s.len() == 4 && s[3] == b64_pad() {
        let v0 = b64_index(s[0]);
        let v1 = b64_index(s[1]);
        if s[2] == b64_pad() {
            seq![(v0 * 4 + v1 / 16) as u8]
        } else {
            let v2 = b64_index(s[2]);
            seq![(v0 * 4 + v1 / 16) as u8, ((v1 % 16) * 16 + v2 / 4) as u8]
        }
    } else {
        let v0 = b64_index(s[0]);
        let v1 = b64_index(s[1]);
        let v2 = b64_index(s[2]);
        let v3 = b64_index(s[3]);
        seq![
            (v0 * 4 + v1 / 16) as u8,
            ((v1 % 16) * 16 + v2 / 4) as u8,
            ((v2 % 4) * 64 + v3) as u8,
        ] + b64_decode(s.skip(4))
    }
}

/// Looking an alphabet byte back up in the alphabet recovers its
/// index, and no alphabet byte is the padding byte.
pub proof fn lemma_alphabet_round_trip(v: int)
    requires
        0 <= v < 64,
    ensures
        b64_index(b64_alphabet(v)) == v,
        b64_alphabet(v) != b64_pad(),
{
}

/// Round trip: decoding the base64 encoding of any byte sequence
/// recovers exactly that sequence.
pub proof fn lemma_b64_round_trip(b: Seq<u8>)
    ensures
        b64_decode(b64_encode(b)) == b,
    decreases b.len(),
{
    if b.len() == 0 {
        assert(b64_decode(b64_encode(b)) =~= b);
    } else if b.len() == 1 {
        let b0 = b[0] as int;
        lemma_alphabet_round_trip(b0 / 4);
        lemma_alphabet_round_trip((b0 % 4) * 16);
        assert(((b0 % 4) * 16) / 16 == b0 % 4);
        assert((b0 / 4) * 4 + b0 % 4 == b0);
        assert(b64_decode(b64_encode(b)) =~= b);
    } else if b.len() == 2 {
        let b0 = b[0] as int;
        let b1 = b[1] as int;
        lemma_alphabet_round_trip(b0 / 4);
        lemma_alphabet_round_trip((b0 % 4) * 16 + b1 / 16);
        lemma_alphabet_round_trip((b1 % 16) * 4);
        assert(((b0 % 4) * 16 + b1 / 16) / 16 == b0 % 4);
        assert(((b0 % 4) * 16 + b1 / 16) % 16 == b1 / 16);
        assert(((b1 % 16) * 4) / 4 == b1 % 16);
        assert((b0 / 4) * 4 + b0 % 4 == b0);
        assert((b1 / 16) * 16 + b1 % 16 == b1);
        assert(b64_decode(b64_encode(b)) =~= b);
    } else {
        let b0 = b[0] as int;
        let b1 = b[1] as int;
        let b2 = b[2] as int;
        lemma_alphabet_round_trip(b0 / 4);
        lemma_alphabet_round_trip((b0 % 4) * 16 + b1 / 16);
        lemma_alphabet_round_trip((b1 % 16) * 4 + b2 / 64);
        lemma_alphabet_round_trip(b2 % 64);
        lemma_b64_round_trip(b.skip(3));
        let s = b64_encode(b);
        assert(s.skip(4) =~= b64_encode(b.skip(3)));
        assert(((b0 % 4) * 16 + b1 / 16) / 16 == b0 % 4);
        assert(((b0 % 4) * 16 + b1 / 16) % 16 == b1 / 16);
        assert(((b1 % 16) * 4 + b2 / 64) / 4 == b1 % 16);
        assert(((b1 % 16) * 4 + b2 / 64) % 4 == b2 / 64);
        assert((b0 / 4) * 4 + b0 % 4 == b0);
        assert((b1 / 16) * 16 + b1 % 16 == b1);
        assert((b2 / 64) * 64 + b2 % 64 == b2);
        assert(b64_decode(b64_encode(b)) =~= b);
    }
}

/// The decimal digit bytes of `n`, most significant first, with no
/// leading zeros (a single `0` when `n` is zero).
pub open spec fn decimal_digits(n: nat) -> Seq<u8>
    decreases n,
{
    if n < 10 {
        seq![(48 + n) as u8]
    } else {
        decimal_digits(n / 10) + seq![(48 + n % 10) as u8]
    }
}

/// Appends the decimal digit bytes of `n` to `out`.
pub fn push_decimal(n: usize, out: &mut Vec<u8>)
    ensures
        final(out)@ == old(out)@ + decimal_digits(n as nat),
    decreases n,
{
    if n < 10 {
        out.push((48 + n) as u8);
        assert(out@ =~= old(out)@ + decimal_digits(n as nat));
    } else {
        push_decimal(n / 10, out);
        out.push((48 + n % 10) as u8);
        assert(out@ =~= old(out)@ + decimal_digits(n as nat));
    }
}

/// Relies on base64::encode: standard alphabet, `=`-padded output,
/// one four-byte group per three input bytes.
#[verifier::external_body]
pub fn b64_encode_bytes(b: &[u8]) -> (r: Vec<u8>)
    ensures
        r@ == b64_encode(b@),
{
    base64::encode(b).into_bytes()
}

} // verus!
