//! The `application/x-www-form-urlencoded` serialization that the provider's
//! authorization and grant-exchange endpoints expect in query strings.

use vstd::prelude::*;
use vstd::string::StringSliceAdditionalSpecFns;

verus! {

/// Bytes the form-urlencoded serializer leaves unchanged: ASCII alphanumerics
/// and `*`, `-`, `.`, `_`.
pub open spec fn form_unreserved(b: u8) -> bool {
    b == 0x2A || b == 0x2D || b == 0x2E || (0x30 <= b && b <= 0x39) || (0x41 <= b && b <= 0x5A)
        || b == 0x5F || (0x61 <= b && b <= 0x7A)
}

/// The uppercase hexadecimal digit for a value below sixteen.
pub open spec fn hex_digit(v: u8) -> char
    recommends
        v < 16,
{
    if v == 0 {
        '0'
    } else if v == 1 {
        '1'
    } else if v == 2 {
        '2'
    } else if v == 3 {
        '3'
    } else if v == 4 {
        '4'
    } else if v == 5 {
        '5'
    } else if v == 6 {
        '6'
    } else if v == 7 {
        '7'
    } else if v == 8 {
        '8'
    } else if v == 9 {
        '9'
    } else if v == 10 {
        'A'
    } else if v == 11 {
        'B'
    } else if v == 12 {
        'C'
    } else if v == 13 {
        'D'
    } else if v == 14 {
        'E'
    } else {
        'F'
    }
}

/// Form-urlencoding of a single byte: unchanged if unreserved, `+` for a
/// space, otherwise `%` followed by two uppercase hexadecimal digits.
pub open spec fn form_encoded_byte(b: u8) -> Seq<char> {
    if b == 0x20 {
        seq!['+']
    } else if form_unreserved(b) {
        seq![b as char]
    } else {
        seq!['%', hex_digit(b / 16), hex_digit(b % 16)]
    }
}

/// Form-urlencoding of a byte string, byte by byte.
pub open spec fn form_encoded(bs: Seq<u8>) -> Seq<char>
    decreases bs.len(),
{
    if bs.len() == 0 {
        Seq::empty()
    } else {
        form_encoded_byte(bs[0]) + form_encoded(bs.subrange(1, bs.len() as int))
    }
}

/// Form-urlencoding of a string: its UTF-8 bytes, encoded byte by byte.
pub open spec fn form_encoded_str(s: Seq<char>) -> Seq<char> {
    form_encoded(vstd::utf8::encode_utf8(s))
}

/// Relies on `url::form_urlencoded::byte_serialize`: percent-encodes every
/// byte except ASCII alphanumerics and `*`, `-`, `.`, `_` as `%` plus two
/// uppercase hexadecimal digits, and writes a space as `+`.
#[verifier::external_body]
pub(crate) fn form_encode(s: &str) -> (r: String)
    ensures
        r@ == form_encoded(s.spec_bytes()),
        r@ == form_encoded_str(s@),
{
    url::form_urlencoded::byte_serialize(s.as_bytes()).collect()
}

} // verus!
