//! Hexadecimal text and the bytes and strings it stands for.

use vstd::prelude::*;
use vstd::utf8::{decode_utf8, valid_utf8};

verus! {

/// The value of the hexadecimal digit `c`, in either case.
pub open spec fn hex_value(c: char) -> Option<u8> {
    let v = c as u32;
    if 48 <= v <= 57 {
        Some((v - 48) as u8)
    } else if 97 <= v <= 102 {
        Some((v - 87) as u8)
    } else if 65 <= v <= 70 {
        Some((v - 55) as u8)
    } else {
        None
    }
}

/// Whether `text` is an even number of hexadecimal digits.
pub open spec fn is_hex_text(text: Seq<char>) -> bool {
    &&& text.len() % 2 == 0
    &&& forall|i: int| 0 <= i < text.len() ==> hex_value(#[trigger] text[i]) is Some
}

/// The bytes that the hexadecimal digits of `text` spell, two digits a byte,
/// the high digit first.
pub open spec fn hex_bytes(text: Seq<char>) -> Seq<u8> {
    Seq::new(
        text.len() / 2,
        |i: int|
            (hex_value(text[2 * i]).unwrap() * 16 + hex_value(text[2 * i + 1]).unwrap()) as u8,
    )
}

/// Calls `hex::decode`.
///
/// The decoder reads the text byte by byte: it fails on an odd number of
/// bytes and on any byte that is not one of `0-9`, `a-f`, `A-F`, and otherwise
/// combines each pair of digits into one byte, high digit first. A character
/// outside ASCII is encoded in bytes that are no digits, so the text is
/// accepted exactly when it is an even number of hexadecimal digits.
#[verifier::external_body]
pub(crate) fn hex_decode(text: &str) -> (bytes: Option<Vec<u8>>)
    ensures
        match bytes {
            Some(b) => is_hex_text(text@) && b@ == hex_bytes(text@),
            None => !is_hex_text(text@),
        },
{
    hex::decode(text).ok()
}

/// Calls `String::from_utf8`, which accepts exactly the well-formed UTF-8
/// byte strings and returns the text they encode.
#[verifier::external_body]
pub(crate) fn string_from_utf8(bytes: Vec<u8>) -> (text: Option<String>)
    ensures
        match text {
            Some(s) => valid_utf8(bytes@) && s@ == decode_utf8(bytes@),
            None => !valid_utf8(bytes@),
        },
{
    String::from_utf8(bytes).ok()
}

/// What `text` stands for when read as the hexadecimal notation of a UTF-8
/// string, if it is one.
pub open spec fn hex_text_meaning(text: Seq<char>) -> Option<Seq<char>> {
    if is_hex_text(text) && valid_utf8(hex_bytes(text)) {
        Some(decode_utf8(hex_bytes(text)))
    } else {
        None
    }
}

/// Decodes hexadecimal text into the string whose UTF-8 bytes it spells.
/// Returns `None` when the text is not hexadecimal or the bytes are not
/// UTF-8.
pub fn try_hex_to_string(hex_string: &str) -> (decoded: Option<String>)
    ensures
        match decoded {
            Some(s) => hex_text_meaning(hex_string@) == Some(s@),
            None => hex_text_meaning(hex_string@) is None,
        },
{
    match hex_decode(hex_string) {
        Some(bytes) => string_from_utf8(bytes),
        None => None,
    }
}

/// Decodes hexadecimal text that is known to spell a UTF-8 string.
pub fn hex_to_string(hex_string: String) -> (decoded: String)
    requires
        hex_text_meaning(hex_string@) is Some,
    ensures
        hex_text_meaning(hex_string@) == Some(decoded@),
{
    match try_hex_to_string(hex_string.as_str()) {
        Some(s) => s,
        None => String::new(),
    }
}

} // verus!
