//! Lowercase-hex rendering of the emitted bytes, and the round-trip law.

use vstd::prelude::*;

verus! {

/// The lowercase hex digit of a nibble.
pub open spec fn nibble_char(n: u8) -> char
    recommends
        n < 16,
{
    if n == 0 {
        '0'
    } else if n == 1 {
        '1'
    } else if n == 2 {
        '2'
    } else if n == 3 {
        '3'
    } else if n == 4 {
        '4'
    } else if n == 5 {
        '5'
    } else if n == 6 {
        '6'
    } else if n == 7 {
        '7'
    } else if n == 8 {
        '8'
    } else if n == 9 {
        '9'
    } else if n == 10 {
        'a'
    } else if n == 11 {
        'b'
    } else if n == 12 {
        'c'
    } else if n == 13 {
        'd'
    } else if n == 14 {
        'e'
    } else {
        'f'
    }
}

/// The nibble a lowercase hex digit stands for.
pub open spec fn nibble_val(c: char) -> Option<u8> {
    if c == '0' {
        Some(0u8)
    } else if c == '1' {
        Some(1u8)
    } else if c == '2' {
        Some(2u8)
    } else if c == '3' {
        Some(3u8)
    } else if c == '4' {
        Some(4u8)
    } else if c == '5' {
        Some(5u8)
    } else if c == '6' {
        Some(6u8)
    } else if c == '7' {
        Some(7u8)
    } else if c == '8' {
        Some(8u8)
    } else if c == '9' {
        Some(9u8)
    } else if c == 'a' {
        Some(10u8)
    } else if c == 'b' {
        Some(11u8)
    } else if c == 'c' {
        Some(12u8)
    } else if c == 'd' {
        Some(13u8)
    } else if c == 'e' {
        Some(14u8)
    } else if c == 'f' {
        Some(15u8)
    } else {
        None
    }
}

/// The two lowercase hex digits of a byte, high nibble first.
pub open spec fn byte_hex(b: u8) -> Seq<char> {
    seq![nibble_char(b / 16), nibble_char(b % 16)]
}

/// The lowercase hex rendering of a byte sequence.
pub open spec fn hex_chars(s: Seq<u8>) -> Seq<char>
    decreases s.len(),
{
    if s.len() == 0 {
        Seq::empty()
    } else {
        byte_hex(s[0]) + hex_chars(s.skip(1))
    }
}

/// The bytes a lowercase hex character sequence stands for, or `None` where
/// the sequence is odd-length or holds a non-digit.
pub open spec fn hex_parse(s: Seq<char>) -> Option<Seq<u8>>
    decreases s.len(),
{
    if s.len() == 0 {
        Some(Seq::empty())
    } else if s.len() == 1 {
        None
    } else {
        match (nibble_val(s[0]), nibble_val(s[1])) {
            (Some(h), Some(l)) => match hex_parse(s.skip(2)) {
                Some(rest) => Some(seq![((h as int) * 16 + l as int) as u8] + rest),
                None => None,
            },
            _ => None,
        }
    }
}

/// A digit reads back as the nibble it was written from.
proof fn lemma_nibble_round_trip(n: u8)
    requires
        n < 16,
    ensures
        nibble_val(nibble_char(n)) == Some(n),
{
}

/// Decoding an emitted hex rendering and re-encoding it reproduces the
/// original bytes: `hex_parse` inverts `hex_chars` on every byte sequence.
pub proof fn lemma_hex_round_trip(s: Seq<u8>)
    ensures
        hex_parse(hex_chars(s)) == Some(s),
    decreases s.len(),
{
    if s.len() == 0 {
        assert(hex_chars(s).len() == 0);
        assert(Seq::<u8>::empty() =~= s);
    } else {
        let h = hex_chars(s);
        let b = s[0];
        assert(h == byte_hex(b) + hex_chars(s.skip(1)));
        assert(h.len() >= 2);
        assert(h[0] == nibble_char(b / 16));
        assert(h[1] == nibble_char(b % 16));
        lemma_nibble_round_trip(b / 16);
        lemma_nibble_round_trip(b % 16);
        assert(((b / 16) as int) * 16 + (b % 16) as int == b as int) by (bit_vector);
        lemma_hex_round_trip(s.skip(1));
        assert(h.skip(2) =~= hex_chars(s.skip(1)));
        assert(seq![b] + s.skip(1) =~= s);
    }
}

/// Relies on `hex::encode`: one byte becomes its two lowercase hex digits,
/// high nibble first, from the table `0123456789abcdef`.
#[verifier::external_body]
pub(crate) fn to_hex(b: &Vec<u8>) -> (r: String)
    ensures
        r@ == hex_chars(b@),
{
    hex::encode(b.as_slice())
}

} // verus!
