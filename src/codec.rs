//! Hex wire format of MIDI messages: upper-case on the way out, either case
//! on the way in.
use crate::error::BridgeError;
use vstd::prelude::*;

verus! {

#[verifier::external_type_specification]
#[verifier::external_body]
pub struct ExFromHexError(hex::FromHexError);

/// The upper-case hex digit of a nibble (`n < 16`).
pub open spec fn upper_digit(n: int) -> char {
    if n < 10 {
        ((48 + n) as u32) as char
    } else {
        ((55 + n) as u32) as char
    }
}

/// Whether `c` is one of `0-9`, `A-F`, `a-f`.
pub open spec fn is_hex_digit(c: char) -> bool {
    ('0' <= c && c <= '9') || ('A' <= c && c <= 'F') || ('a' <= c && c <= 'f')
}

/// Whether `c` is a lower-case letter of the ASCII range.
pub open spec fn is_ascii_lower(c: char) -> bool {
    'a' <= c && c <= 'z'
}

/// The value of a hex digit, in either case.
pub open spec fn digit_value(c: char) -> int {
    if '0' <= c && c <= '9' {
        c as u32 - 48
    } else if 'A' <= c && c <= 'F' {
        c as u32 - 55
    } else {
        c as u32 - 87
    }
}

/// The upper-case hex text of a byte sequence: two digits per byte, high
/// nibble first, no separators.
pub open spec fn hex_upper(b: Seq<u8>) -> Seq<char> {
    Seq::new(
        2 * b.len(),
        |i: int|
            if i % 2 == 0 {
                upper_digit(b[i / 2] as int / 16)
            } else {
                upper_digit(b[i / 2] as int % 16)
            },
    )
}

/// Whether `s` is well-formed hex text: an even number of hex digits.
pub open spec fn is_hex_text(s: Seq<char>) -> bool {
    &&& s.len() % 2 == 0
    &&& forall|i: int| 0 <= i < s.len() ==> is_hex_digit(#[trigger] s[i])
}

/// The bytes that well-formed hex text stands for.
pub open spec fn hex_value(s: Seq<char>) -> Seq<u8> {
    Seq::new(
        s.len() / 2,
        |i: int| (16 * digit_value(s[2 * i]) + digit_value(s[2 * i + 1])) as u8,
    )
}

/// Relies on hex::encode_upper: each byte becomes two upper-case digits,
/// high nibble first, from the table `0123456789ABCDEF`.
#[verifier::external_body]
fn hex_encode_upper(b: &[u8]) -> (r: String)
    ensures
        r@ == hex_upper(b@),
{
    hex::encode_upper(b)
}

/// Relies on hex::decode: an odd length, or any byte outside `0-9`, `A-F`,
/// `a-f`, is an error; otherwise each pair of digits gives one byte.
#[verifier::external_body]
fn hex_decode(s: &str) -> (r: Result<Vec<u8>, hex::FromHexError>)
    ensures
        r is Ok <==> is_hex_text(s@),
        r matches Ok(v) ==> v@ == hex_value(s@),
{
    hex::decode(s)
}

/// Relies on the `Display` impl of hex::FromHexError for its text.
#[verifier::external_body]
fn hex_error_text(e: &hex::FromHexError) -> String {
    e.to_string()
}

/// Encodes a byte sequence as upper-case hex text without separators.
pub fn encode(bytes: &[u8]) -> (r: String)
    ensures
        r@ == hex_upper(bytes@),
{
    hex_encode_upper(bytes)
}

/// Decodes hex text of either case; malformed text is `InvalidEncoding`.
pub fn decode(text: &str) -> (r: Result<Vec<u8>, BridgeError>)
    ensures
        r is Ok <==> is_hex_text(text@),
        r matches Ok(v) ==> v@ == hex_value(text@),
        r matches Err(e) ==> e is InvalidEncoding,
{
    match hex_decode(text) {
        Ok(v) => Ok(v),
        Err(e) => Err(BridgeError::InvalidEncoding(hex_error_text(&e))),
    }
}

proof fn lemma_nibble(n: int)
    requires
        0 <= n < 16,
    ensures
        is_hex_digit(upper_digit(n)),
        !is_ascii_lower(upper_digit(n)),
        digit_value(upper_digit(n)) == n,
{
}

/// Encoding then decoding gives back the bytes, and the encoded text holds
/// no lower-case letter.
pub proof fn lemma_hex_round_trip(b: Seq<u8>)
    ensures
        is_hex_text(hex_upper(b)),
        hex_value(hex_upper(b)) == b,
        forall|i: int| 0 <= i < hex_upper(b).len() ==> !is_ascii_lower(#[trigger] hex_upper(b)[i]),
{
    let h = hex_upper(b);
    assert forall|i: int| 0 <= i < h.len() implies is_hex_digit(#[trigger] h[i]) && !is_ascii_lower(h[i]) by {
        if i % 2 == 0 {
            lemma_nibble(b[i / 2] as int / 16);
        } else {
            lemma_nibble(b[i / 2] as int % 16);
        }
    }
    assert forall|j: int| 0 <= j < b.len() implies #[trigger] hex_value(h)[j] == b[j] by {
        assert((2 * j) / 2 == j);
        assert((2 * j + 1) / 2 == j);
        lemma_nibble(b[j] as int / 16);
        lemma_nibble(b[j] as int % 16);
    }
    assert(hex_value(h) =~= b);
}

} // verus!
