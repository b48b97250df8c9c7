//! Byte strings and their hexadecimal text, as the `hex` crate reads it.

use vstd::prelude::*;
use vstd::string::StringSliceAdditionalSpecFns;

verus! {

/// Why a text is not the hexadecimal form of a byte string.
#[derive(Clone, Copy, Debug, PartialEq, Eq)]
pub enum HexError {
    /// The byte at `index` is none of `0-9`, `a-f`, `A-F`; `c` is that byte as a character.
    InvalidHexCharacter { c: char, index: usize },
    /// The text has an odd number of bytes.
    OddLength,
    /// The text does not fill a container of fixed size.
    InvalidStringLength,
}

/// The value of one hexadecimal digit, given as its ASCII byte.
pub open spec fn hex_digit_value(b: u8) -> Option<u8> {
    if 0x30 <= b <= 0x39 {
        Some((b - 0x30) as u8)
    } else if 0x41 <= b <= 0x46 {
        Some((b - 0x41 + 10) as u8)
    } else if 0x61 <= b <= 0x66 {
        Some((b - 0x61 + 10) as u8)
    } else {
        None
    }
}

/// The least index at or after `start` whose byte is no hexadecimal digit,
/// or the length of `text` if there is none.
pub open spec fn first_non_digit_from(text: Seq<u8>, start: int) -> int
    decreases text.len() - start,
{
    if start < 0 || start >= text.len() {
        text.len() as int
    } else if hex_digit_value(text[start]) is None {
        start
    } else {
        first_non_digit_from(text, start + 1)
    }
}

/// The bytes that a text of hexadecimal digits stands for, two digits a byte,
/// the high digit first.
pub open spec fn decoded_bytes(text: Seq<u8>) -> Seq<u8> {
    Seq::new(
        text.len() / 2,
        |i: int|
            (16 * hex_digit_value(text[2 * i]).unwrap() + hex_digit_value(
                text[2 * i + 1],
            ).unwrap()) as u8,
    )
}

/// What decoding the UTF-8 bytes `text` gives: the bytes, or the first fault.
/// An odd length is reported before any character.
pub open spec fn hex_decoded(text: Seq<u8>) -> Result<Seq<u8>, HexError> {
    let bad = first_non_digit_from(text, 0);
    if text.len() % 2 != 0 {
        Err(HexError::OddLength)
    } else if bad < text.len() {
        Err(HexError::InvalidHexCharacter { c: text[bad] as char, index: bad as usize })
    } else {
        Ok(decoded_bytes(text))
    }
}

/// Calls `hex::decode`, which is trusted to return `hex_decoded` of the
/// text's bytes: `OddLength` for an odd number of bytes, else the first byte
/// that is no digit with its index, else one byte for each pair of digits.
#[verifier::external_body]
pub(crate) fn hex_decode(text: &str) -> (r: Result<Vec<u8>, HexError>)
    ensures
        match r {
            Ok(bytes) => hex_decoded(text.spec_bytes()) == Ok::<Seq<u8>, HexError>(bytes@),
            Err(e) => hex_decoded(text.spec_bytes()) == Err::<Seq<u8>, HexError>(e),
        },
{
    match hex::decode(text) {
        Ok(bytes) => Ok(bytes),
        Err(hex::FromHexError::InvalidHexCharacter { c, index }) => Err(
            HexError::InvalidHexCharacter { c, index },
        ),
        Err(hex::FromHexError::OddLength) => Err(HexError::OddLength),
        Err(hex::FromHexError::InvalidStringLength) => Err(HexError::InvalidStringLength),
    }
}

/// A byte string with the same bytes.
pub fn copy_bytes(bytes: &Vec<u8>) -> (copy: Vec<u8>)
    ensures
        copy@ == bytes@,
{
    let copy = bytes.clone();
    assert(copy@ =~= bytes@);
    copy
}

/// Compares two byte strings, byte for byte.
pub fn bytes_equal(left: &[u8], right: &[u8]) -> (same: bool)
    ensures
        same == (left@ == right@),
{
    if left.len() != right.len() {
        return false;
    }
    let mut i: usize = 0;
    while i < left.len()
        invariant
            i <= left.len(),
            left.len() == right.len(),
            forall|j: int| 0 <= j < i ==> left@[j] == right@[j],
        decreases left.len() - i,
    {
        if left[i] != right[i] {
            return false;
        }
        i += 1;
    }
    assert(left@ =~= right@);
    true
}

/// The decimal digit `d`, for `d` below ten.
pub open spec fn decimal_digit(d: nat) -> char {
    ((0x30 + d) as u8) as char
}

/// `n` in decimal, without sign or leading zeros.
pub open spec fn decimal_text(n: nat) -> Seq<char>
    decreases n,
{
    if n < 10 {
        seq![decimal_digit(n)]
    } else {
        decimal_text(n / 10).push(decimal_digit(n % 10))
    }
}

/// The sentence in which a fault is reported.
pub open spec fn hex_error_text(e: HexError) -> Seq<char> {
    match e {
        HexError::InvalidHexCharacter { c, index } => "Invalid character '"@ + seq![c]
            + "' at position "@ + decimal_text(index as nat),
        HexError::OddLength => "Odd number of digits"@,
        HexError::InvalidStringLength => "Invalid string length"@,
    }
}

/// Calls `to_string` on the `hex::FromHexError` of the same variant and
/// fields, which is trusted to write `hex_error_text`: a fixed sentence for
/// each variant, with the character itself and the index in decimal.
#[verifier::external_body]
pub(crate) fn describe_hex_error(e: &HexError) -> (text: String)
    ensures
        text@ == hex_error_text(*e),
{
    let fault = match *e {
        HexError::InvalidHexCharacter { c, index } => hex::FromHexError::InvalidHexCharacter {
            c,
            index,
        },
        HexError::OddLength => hex::FromHexError::OddLength,
        HexError::InvalidStringLength => hex::FromHexError::InvalidStringLength,
    };
    fault.to_string()
}

} // verus!
