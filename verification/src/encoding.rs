//! Bytes written as hexadecimal text, and read back from it.

use vstd::prelude::*;
use vstd::string::*;
use vstd::utf8::{encode_utf8, is_ascii_chars, is_ascii_chars_encode_utf8};

verus! {

/// Why a text does not stand for bytes in hexadecimal.
#[derive(Debug, Clone, Copy, PartialEq, Eq, Structural)]
pub enum HexError {
    /// The character `c`, at byte `index` of the text, is no hexadecimal digit.
    InvalidHexCharacter { c: char, index: usize },
    /// The text has an odd number of bytes.
    OddLength,
    /// The text does not have the length of what it is read into.
    InvalidStringLength,
}

/// The lower-case hexadecimal digit for `n`, for `n` below sixteen.
pub open spec fn hex_digit(n: int) -> char {
    if n < 10 {
        ('0' as int + n) as char
    } else {
        ('a' as int + n - 10) as char
    }
}

/// Bytes in hexadecimal: two lower-case digits for each byte, the high one first.
pub open spec fn hex_text(bytes: Seq<u8>) -> Seq<char> {
    Seq::new(
        2 * bytes.len(),
        |i: int|
            if i % 2 == 0 {
                hex_digit(bytes[i / 2] as int / 16)
            } else {
                hex_digit(bytes[i / 2] as int % 16)
            },
    )
}

/// The value of a hexadecimal digit in either case, given as a byte of text.
pub open spec fn hex_value(digit: u8) -> Option<int> {
    if 0x30 <= digit <= 0x39 {
        Some(digit - 0x30)
    } else if 0x61 <= digit <= 0x66 {
        Some(digit - 0x61 + 10)
    } else if 0x41 <= digit <= 0x46 {
        Some(digit - 0x41 + 10)
    } else {
        None
    }
}

/// The position of the first byte of `text` that is no hexadecimal digit, and the
/// length of `text` where every byte is one.
pub open spec fn first_bad_digit(text: Seq<u8>) -> int
    decreases text.len(),
{
    if text.len() == 0 {
        0
    } else if hex_value(text[0]) is None {
        0
    } else {
        1 + first_bad_digit(text.drop_first())
    }
}

/// The bytes that a text in hexadecimal stands for, the text given by its bytes. An
/// odd length is an error before any digit is looked at; else the first byte that is
/// no digit is.
pub open spec fn hex_bytes(text: Seq<u8>) -> Result<Seq<u8>, HexError> {
    if text.len() % 2 != 0 {
        Err(HexError::OddLength)
    } else if first_bad_digit(text) < text.len() {
        Err(
            HexError::InvalidHexCharacter {
                c: text[first_bad_digit(text)] as char,
                index: first_bad_digit(text) as usize,
            },
        )
    } else {
        Ok(
            Seq::new(
                text.len() / 2,
                |i: int| (hex_value(text[2 * i])->0 * 16 + hex_value(text[2 * i + 1])->0) as u8,
            ),
        )
    }
}

/// The view of decoded bytes or the error in their place.
pub open spec fn decoded_view(outcome: Result<Vec<u8>, HexError>) -> Result<Seq<u8>, HexError> {
    match outcome {
        Ok(bytes) => Ok(bytes@),
        Err(error) => Err(error),
    }
}

/// Calls `hex::encode`. Trusted: the result holds two lower-case hexadecimal digits
/// for each byte, in order, the high digit first.
#[verifier::external_body]
pub(crate) fn encode(data: &[u8]) -> (text: String)
    ensures
        text@ == hex_text(data@),
{
    hex::encode(data)
}

/// Calls `hex::decode`. Trusted: a text of even length whose bytes are all hexadecimal
/// digits, in either case, gives the bytes they stand for; a text of odd length gives
/// `OddLength`; any other gives `InvalidHexCharacter` for its first byte that is no
/// digit.
#[verifier::external_body]
pub(crate) fn decode(text: &str) -> (bytes: Result<Vec<u8>, HexError>)
    ensures
        decoded_view(bytes) == hex_bytes(text.spec_bytes()),
{
    match hex::decode(text) {
        Ok(bytes) => Ok(bytes),
        Err(hex::FromHexError::InvalidHexCharacter { c, index }) => Err(
            HexError::InvalidHexCharacter { c, index },
        ),
        Err(hex::FromHexError::OddLength) => Err(HexError::OddLength),
        Err(hex::FromHexError::InvalidStringLength) => Err(HexError::InvalidStringLength),
    }
}

/// Where every byte of `text` is a hexadecimal digit, `first_bad_digit` is the length.
proof fn lemma_all_digits(text: Seq<u8>)
    requires
        forall|i: int| 0 <= i < text.len() ==> hex_value(#[trigger] text[i]) is Some,
    ensures
        first_bad_digit(text) == text.len(),
    decreases text.len(),
{
    if text.len() > 0 {
        let rest = text.drop_first();
        assert forall|i: int| 0 <= i < rest.len() implies hex_value(#[trigger] rest[i]) is Some by {
            assert(rest[i] == text[i + 1]);
        }
        lemma_all_digits(rest);
    }
}

/// Bytes written in hexadecimal read back as the same bytes.
pub proof fn lemma_hex_round_trip(bytes: Seq<u8>)
    ensures
        hex_bytes(encode_utf8(hex_text(bytes))) == Ok::<Seq<u8>, HexError>(bytes),
{
    let chars = hex_text(bytes);
    assert(is_ascii_chars(chars));
    is_ascii_chars_encode_utf8(chars);
    let text = encode_utf8(chars);
    assert forall|i: int| 0 <= i < text.len() implies hex_value(#[trigger] text[i]) == Some(
        if i % 2 == 0 {
            bytes[i / 2] as int / 16
        } else {
            bytes[i / 2] as int % 16
        },
    ) by {
        assert(text[i] == chars[i] as u8);
    }
    lemma_all_digits(text);
    assert(text.len() == 2 * bytes.len());
    let read = hex_bytes(text);
    assert(read is Ok);
    assert(read->Ok_0 =~= bytes) by {
        assert forall|i: int| 0 <= i < bytes.len() implies read->Ok_0[i] == bytes[i] by {
            assert(hex_value(text[2 * i]) == Some(bytes[i] as int / 16));
            assert(hex_value(text[2 * i + 1]) == Some(bytes[i] as int % 16));
        }
    }
}

} // verus!
