use vstd::prelude::*;
use crate::error::HexError;

verus! {

/// Whether `c` is one of `0..9`, `a..f`, `A..F`.
pub open spec fn is_hex_digit(c: u8) -> bool {
    ||| 0x30 <= c <= 0x39
    ||| 0x41 <= c <= 0x46
    ||| 0x61 <= c <= 0x66
}

/// The value of the hexadecimal digit `c`, between 0 and 15.
pub open spec fn hex_value(c: u8) -> int
    recommends
        is_hex_digit(c),
{
    if 0x30 <= c <= 0x39 {
        c - 0x30
    } else if 0x41 <= c <= 0x46 {
        c - 0x41 + 10
    } else {
        c - 0x61 + 10
    }
}

/// The position at or after `from` of the first byte of `data` that is no
/// hexadecimal digit, or the length of `data` when every byte from there on is one.
pub open spec fn first_non_digit(data: Seq<u8>, from: int) -> int
    decreases data.len() - from,
{
    if from < 0 || from >= data.len() {
        data.len() as int
    } else if !is_hex_digit(data[from]) {
        from
    } else {
        first_non_digit(data, from + 1)
    }
}

/// The byte that the digits at `2 * i` and `2 * i + 1` spell, high digit first.
pub open spec fn byte_at(data: Seq<u8>, i: int) -> u8 {
    (16 * hex_value(data[2 * i]) + hex_value(data[2 * i + 1])) as u8
}

/// What decoding the hexadecimal digits `data` gives. An odd length is
/// reported before anything else, then the first byte that is no digit;
/// otherwise every two digits spell one byte.
pub open spec fn decoded(data: Seq<u8>) -> Result<Seq<u8>, HexError> {
    let stop = first_non_digit(data, 0);
    if data.len() % 2 == 1 {
        Err(HexError::OddLength)
    } else if stop < data.len() {
        Err(HexError::InvalidHexCharacter { c: data[stop] as char, index: stop as usize })
    } else {
        Ok(Seq::new(data.len() / 2, |i: int| byte_at(data, i)))
    }
}

/// Calls `hex::decode` on `data`. Trusted: the result is `decoded(data)`,
/// that is the bytes that the digits spell when the length is even and every
/// byte is a digit, `OddLength` for an odd length, and else
/// `InvalidHexCharacter` with the position and the value of the first byte
/// that is no digit.
#[verifier::external_body]
pub(crate) fn decode(data: &[u8]) -> (r: Result<Vec<u8>, HexError>)
    ensures
        match r {
            Ok(bytes) => decoded(data@) == Ok::<Seq<u8>, HexError>(bytes@),
            Err(e) => decoded(data@) == Err::<Seq<u8>, HexError>(e),
        },
{
    match hex::decode(data) {
        Ok(bytes) => Ok(bytes),
        Err(hex::FromHexError::InvalidHexCharacter { c, index }) => Err(
            HexError::InvalidHexCharacter { c, index },
        ),
        Err(hex::FromHexError::OddLength) => Err(HexError::OddLength),
        Err(hex::FromHexError::InvalidStringLength) => Err(HexError::InvalidStringLength),
    }
}

/// The words in which `hex` tells of the failure `e`.
pub uninterp spec fn hex_display(e: HexError) -> Seq<char>;

/// Formats `e` as `hex::FromHexError` formats itself for display. Trusted:
/// the text depends on `e` alone, and for the two failures that carry no
/// values it is the fixed text given here.
#[verifier::external_body]
pub(crate) fn describe(e: HexError) -> (text: String)
    ensures
        text@ == hex_display(e),
        e == HexError::OddLength ==> text@ == "Odd number of digits"@,
        e == HexError::InvalidStringLength ==> text@ == "Invalid string length"@,
{
    let outside = match e {
        HexError::InvalidHexCharacter { c, index } => hex::FromHexError::InvalidHexCharacter {
            c,
            index,
        },
        HexError::OddLength => hex::FromHexError::OddLength,
        HexError::InvalidStringLength => hex::FromHexError::InvalidStringLength,
    };
    outside.to_string()
}

} // verus!
