//! Text columns: strings and the UTF-8 bytes that the store keeps for them.

use vstd::prelude::*;
use vstd::string::*;
use vstd::utf8::*;

verus! {

/// Reads bytes as UTF-8 text.
///
/// Calls `String::from_utf8` of std. Trusted, as std documents it: the call
/// succeeds exactly on valid UTF-8, and the string it gives is made of the
/// very bytes it was given.
#[verifier::external_body]
fn string_from_utf8(bytes: Vec<u8>) -> (text: Option<String>)
    ensures
        text is Some <==> valid_utf8(bytes@),
        text matches Some(s) ==> encode_utf8(s@) == bytes@,
{
    String::from_utf8(bytes).ok()
}

/// The text that `bytes` spell, if they are valid UTF-8.
pub open spec fn text_of_bytes(bytes: Seq<u8>) -> Option<Seq<char>> {
    if valid_utf8(bytes) {
        Some(decode_utf8(bytes))
    } else {
        None
    }
}

/// Decodes the bytes of a text column.
pub fn decode_text(bytes: &Vec<u8>) -> (text: Option<String>)
    ensures
        text.deep_view() == text_of_bytes(bytes@),
{
    let text = string_from_utf8(bytes.clone());
    proof {
        if let Some(s) = &text {
            encode_utf8_decode_utf8(s@);
        }
    }
    text
}

/// Encodes a string as the bytes of a text column.
pub fn encode_text(text: &str) -> (bytes: Vec<u8>)
    ensures
        bytes@ == encode_utf8(text@),
        text_of_bytes(bytes@) == Some(text@),
{
    proof {
        encode_utf8_valid_utf8(text@);
        encode_utf8_decode_utf8(text@);
    }
    text.as_bytes_vec()
}

} // verus!
