//! Hexadecimal encoding of the credential bytes: the mathematical model of
//! uppercase hex text, the call into the encoder, and the proofs that the
//! encoding is uppercase and that standard hex decoding inverts it.

use vstd::prelude::*;

verus! {

/// The uppercase hexadecimal digit for a value below sixteen.
pub open spec fn hex_digit_upper(v: u8) -> char
    recommends
        v < 16,
{
    if v == 0 {
        '0'
    } else if v == 1 {
        '1'
    } else if v == 2 {
        '2'
    } else if v == 3 {
        '3'
    } else if v == 4 {
        '4'
    } else if v == 5 {
        '5'
    } else if v == 6 {
        '6'
    } else if v == 7 {
        '7'
    } else if v == 8 {
        '8'
    } else if v == 9 {
        '9'
    } else if v == 10 {
        'A'
    } else if v == 11 {
        'B'
    } else if v == 12 {
        'C'
    } else if v == 13 {
        'D'
    } else if v == 14 {
        'E'
    } else {
        'F'
    }
}

/// The value of a hexadecimal digit, upper or lower case, and `None` for
/// any other character: standard hex decoding accepts both cases.
pub open spec fn hex_digit_value(c: char) -> Option<u8> {
    if c == '0' {
        Some(0u8)
    } else if c == '1' {
        Some(1u8)
    } else if c == '2' {
        Some(2u8)
    } else if c == '3' {
        Some(3u8)
    } else if c == '4' {
        Some(4u8)
    } else if c == '5' {
        Some(5u8)
    } else if c == '6' {
        Some(6u8)
    } else if c == '7' {
        Some(7u8)
    } else if c == '8' {
        Some(8u8)
    } else if c == '9' {
        Some(9u8)
    } else if c == 'A' || c == 'a' {
        Some(10u8)
    } else if c == 'B' || c == 'b' {
        Some(11u8)
    } else if c == 'C' || c == 'c' {
        Some(12u8)
    } else if c == 'D' || c == 'd' {
        Some(13u8)
    } else if c == 'E' || c == 'e' {
        Some(14u8)
    } else if c == 'F' || c == 'f' {
        Some(15u8)
    } else {
        None
    }
}

/// Uppercase hexadecimal text for a sequence of bytes: two digits per
/// byte, high nibble first.
pub open spec fn spec_hex_upper(bytes: Seq<u8>) -> Seq<char>
    decreases bytes.len(),
{
    if bytes.len() == 0 {
        Seq::empty()
    } else {
        seq![
            hex_digit_upper(bytes[0] / 16),
            hex_digit_upper(bytes[0] % 16),
        ] + spec_hex_upper(bytes.drop_first())
    }
}

/// Standard hex decoding: pairs of hex digits, either case, high nibble
/// first; `None` on an odd length or a character that is no hex digit.
pub open spec fn spec_hex_decode(text: Seq<char>) -> Option<Seq<u8>>
    decreases text.len(),
{
    if text.len() == 0 {
        Some(Seq::empty())
    } else if text.len() == 1 {
        None
    } else {
        match (hex_digit_value(text[0]), hex_digit_value(text[1])) {
            (Some(high), Some(low)) => match spec_hex_decode(text.skip(2)) {
                Some(rest) => Some(seq![(high * 16 + low) as u8] + rest),
                None => None,
            },
            _ => None,
        }
    }
}

/// A character the uppercase encoder may emit: a decimal digit or an
/// uppercase hex letter.
pub open spec fn is_upper_hex_char(c: char) -> bool {
    c == '0' || c == '1' || c == '2' || c == '3' || c == '4' || c == '5' || c == '6' || c == '7'
        || c == '8' || c == '9' || c == 'A' || c == 'B' || c == 'C' || c == 'D' || c == 'E' || c
        == 'F'
}

/// The uppercase encoding of any byte sequence is twice as long and holds
/// only decimal digits and uppercase hex letters.
pub proof fn lemma_hex_upper_chars(bytes: Seq<u8>)
    ensures
        spec_hex_upper(bytes).len() == 2 * bytes.len(),
        forall|i: int|
            0 <= i < spec_hex_upper(bytes).len() ==> is_upper_hex_char(
                #[trigger] spec_hex_upper(bytes)[i],
            ),
    decreases bytes.len(),
{
    if bytes.len() == 0 {
    } else {
        lemma_hex_upper_chars(bytes.drop_first());
    }
}

/// Decoding a hexadecimal digit written by the uppercase encoder gives the
/// value back.
proof fn lemma_digit_round_trip(v: u8)
    requires
        v < 16,
    ensures
        hex_digit_value(hex_digit_upper(v)) == Some(v),
{
}

/// Hex encoding round-trips: standard hex decoding of the uppercase
/// encoding of any byte sequence yields the original bytes.
pub proof fn lemma_hex_round_trip(bytes: Seq<u8>)
    ensures
        spec_hex_decode(spec_hex_upper(bytes)) == Some(bytes),
    decreases bytes.len(),
{
    if bytes.len() == 0 {
        assert(spec_hex_decode(spec_hex_upper(bytes)) == Some(bytes));
    } else {
        let b = bytes[0];
        let text = spec_hex_upper(bytes);
        lemma_digit_round_trip(b / 16);
        lemma_digit_round_trip(b % 16);
        lemma_hex_round_trip(bytes.drop_first());
        assert(text.skip(2) =~= spec_hex_upper(bytes.drop_first()));
        assert((b / 16) * 16 + b % 16 == b) by (nonlinear_arith);
        assert(seq![b] + bytes.drop_first() =~= bytes);
    }
}

/// Relies on hex::encode_upper: each byte becomes two uppercase hex
/// digits, high nibble first, from the table "0123456789ABCDEF".
#[verifier::external_body]
fn hex_encode_upper(bytes: &Vec<u8>) -> (r: String)
    ensures
        r@ == spec_hex_upper(bytes@),
{
    hex::encode_upper(bytes)
}

/// Encode the credential bytes as uppercase hexadecimal text: two digits
/// per byte, high nibble first. The text is a pure function of the bytes,
/// holds only decimal digits and uppercase hex letters, and standard hex
/// decoding recovers the bytes from it.
pub fn encode_credential(mac: &Vec<u8>) -> (r: String)
    ensures
        r@ == spec_hex_upper(mac@),
        r@.len() == 2 * mac@.len(),
        forall|i: int| 0 <= i < r@.len() ==> is_upper_hex_char(#[trigger] r@[i]),
        spec_hex_decode(r@) == Some(mac@),
{
    proof {
        lemma_hex_upper_chars(mac@);
        lemma_hex_round_trip(mac@);
    }
    hex_encode_upper(mac)
}

} // verus!
