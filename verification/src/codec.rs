use vstd::prelude::*;
use crate::CodegenError;

verus! {

/// A hexadecimal digit: `0-9`, `a-f` or `A-F`.
pub open spec fn spec_is_hex_digit(c: char) -> bool {
    (48 <= c as u32 && c as u32 <= 57) || (97 <= c as u32 && c as u32 <= 102) || (65 <= c as u32
        && c as u32 <= 70)
}

/// The value of a hexadecimal digit.
pub open spec fn spec_hex_digit_val(c: char) -> u8
    recommends
        spec_is_hex_digit(c),
{
    if 48 <= c as u32 && c as u32 <= 57 {
        (c as u32 - 48) as u8
    } else if 97 <= c as u32 && c as u32 <= 102 {
        (c as u32 - 87) as u8
    } else {
        (c as u32 - 55) as u8
    }
}

/// A well-formed hexadecimal string: an even number of hex digits.
pub open spec fn spec_is_hex_string(s: Seq<char>) -> bool {
    s.len() % 2 == 0 && (forall|i: int| 0 <= i < s.len() ==> spec_is_hex_digit(#[trigger] s[i]))
}

/// The bytes a hexadecimal string denotes: two digits to a byte, high digit
/// first.
pub open spec fn spec_hex_decode(s: Seq<char>) -> Seq<u8>
    recommends
        spec_is_hex_string(s),
{
    Seq::new(
        (s.len() / 2) as nat,
        |i: int| (spec_hex_digit_val(s[2 * i]) * 16 + spec_hex_digit_val(s[2 * i + 1])) as u8,
    )
}

/// The lower-case hexadecimal digit for a value below sixteen.
pub open spec fn spec_hex_digit_char(v: u8) -> char
    recommends
        v < 16,
{
    if v == 0 {
        '0'
    } else if v == 1 {
        '1'
    } else if v == 2 {
        '2'
    } else if v == 3 {
        '3'
    } else if v == 4 {
        '4'
    } else if v == 5 {
        '5'
    } else if v == 6 {
        '6'
    } else if v == 7 {
        '7'
    } else if v == 8 {
        '8'
    } else if v == 9 {
        '9'
    } else if v == 10 {
        'a'
    } else if v == 11 {
        'b'
    } else if v == 12 {
        'c'
    } else if v == 13 {
        'd'
    } else if v == 14 {
        'e'
    } else {
        'f'
    }
}

/// The hexadecimal rendering of a byte sequence: two lower-case digits per
/// byte, high digit first.
pub open spec fn spec_hex_encode(b: Seq<u8>) -> Seq<char> {
    Seq::new(
        2 * b.len(),
        |i: int|
            if i % 2 == 0 {
                spec_hex_digit_char(b[i / 2] >> 4)
            } else {
                spec_hex_digit_char(b[i / 2] & 0x0f)
            },
    )
}

#[verifier::external_type_specification]
#[verifier::external_body]
pub struct ExFromHexError(hex::FromHexError);

/// Relies on `hex::decode`: it returns the denoted bytes exactly when the
/// input is an even number of hexadecimal digits, and an error otherwise.
#[verifier::external_body]
fn hex_decode_raw(s: &str) -> (r: Result<Vec<u8>, hex::FromHexError>)
    ensures
        r is Ok <==> spec_is_hex_string(s@),
        r is Ok ==> r.unwrap()@ == spec_hex_decode(s@),
{
    hex::decode(s)
}

/// Relies on `hex::encode`: two lower-case digits per input byte, in input
/// order.
#[verifier::external_body]
fn hex_encode_raw(b: &Vec<u8>) -> (r: String)
    ensures
        r@ == spec_hex_encode(b@),
{
    hex::encode(b.as_slice())
}

/// Decodes the seed from its hexadecimal form; anything that is not an even
/// sequence of hex digits is a malformed seed.
pub fn decode_seed_hex(s: &str) -> (r: Result<Vec<u8>, CodegenError>)
    ensures
        r is Ok <==> spec_is_hex_string(s@),
        r is Ok ==> r.unwrap()@ == spec_hex_decode(s@),
        !spec_is_hex_string(s@) ==> r == Err::<Vec<u8>, CodegenError>(
            CodegenError::MalformedSeedHex,
        ),
{
    match hex_decode_raw(s) {
        Ok(seed) => Ok(seed),
        Err(_) => Err(CodegenError::MalformedSeedHex),
    }
}

/// Renders a byte sequence as lower-case hexadecimal, two digits per byte.
pub fn encode_hex(b: &Vec<u8>) -> (r: String)
    ensures
        r@ == spec_hex_encode(b@),
{
    hex_encode_raw(b)
}

} // verus!
