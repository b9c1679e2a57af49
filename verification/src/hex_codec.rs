//! Hexadecimal text codec boundary. The conversions themselves are done by
//! the `hex` crate; the contracts here state them exactly, digit by digit.

use vstd::prelude::*;

verus! {

/// The sixteen lowercase hexadecimal digits, in value order.
pub open spec fn spec_hex_digits() -> Seq<char> {
    seq!['0', '1', '2', '3', '4', '5', '6', '7', '8', '9', 'a', 'b', 'c', 'd', 'e', 'f']
}

/// The value of one hexadecimal digit byte (`0-9`, `a-f` or `A-F`), or `None`
/// for any other byte.
pub open spec fn spec_hex_digit_value(b: u8) -> Option<u8> {
    if 0x30 <= b <= 0x39 {
        Some((b - 0x30) as u8)
    } else if 0x61 <= b <= 0x66 {
        Some((b - 0x61 + 10) as u8)
    } else if 0x41 <= b <= 0x46 {
        Some((b - 0x41 + 10) as u8)
    } else {
        None
    }
}

/// Decoding hexadecimal text (given as its byte sequence): defined exactly
/// when the length is even and every byte is a hexadecimal digit; each digit
/// pair becomes one byte, high digit first.
pub open spec fn spec_hex_decode(s: Seq<u8>) -> Option<Seq<u8>>
    decreases s.len(),
{
    if s.len() % 2 != 0 {
        None
    } else if s.len() == 0 {
        Some(Seq::empty())
    } else {
        match (spec_hex_digit_value(s[0]), spec_hex_digit_value(s[1]), spec_hex_decode(s.skip(2))) {
            (Some(hi), Some(lo), Some(rest)) => Some(
                seq![(hi as int * 16 + lo as int) as u8] + rest,
            ),
            _ => None,
        }
    }
}

/// Encoding bytes as lowercase hexadecimal text: two digits per byte, high
/// digit first.
pub open spec fn spec_hex_encode(s: Seq<u8>) -> Seq<char>
    decreases s.len(),
{
    if s.len() == 0 {
        Seq::empty()
    } else {
        seq![
            spec_hex_digits()[s[0] as int / 16],
            spec_hex_digits()[s[0] as int % 16],
        ] + spec_hex_encode(s.drop_first())
    }
}

/// Relies on `hex::decode`: it succeeds exactly on even-length input made of
/// hexadecimal digit bytes (either case), turning each digit pair into one
/// byte, high digit first.
#[verifier::external_body]
pub(crate) fn hex_decode(input: &[u8]) -> (r: Option<Vec<u8>>)
    ensures
        match r {
            Some(v) => spec_hex_decode(input@) == Some(v@),
            None => spec_hex_decode(input@) is None,
        },
{
    hex::decode(input).ok()
}

/// Relies on `hex::encode`: two lowercase hexadecimal digits per input byte,
/// high digit first.
#[verifier::external_body]
pub(crate) fn hex_encode(input: &[u8]) -> (r: String)
    ensures
        r@ == spec_hex_encode(input@),
{
    hex::encode(input)
}

} // verus!
