//! Conversion between bytes and text.

use vstd::prelude::*;
use vstd::utf8::*;

verus! {

/// `String::from_utf8`: the text that the bytes encode, if they are valid UTF-8, and
/// nothing otherwise.
#[verifier::external_body]
pub(crate) fn string_from_utf8(bytes: Vec<u8>) -> (r: Option<String>)
    ensures
        r is Some <==> valid_utf8(bytes@),
        r matches Some(s) ==> s@ == decode_utf8(bytes@),
{
    String::from_utf8(bytes).ok()
}

/// The bytes of a text of ASCII characters: one byte for each character.
pub open spec fn ascii_bytes(chars: Seq<char>) -> Seq<u8> {
    Seq::new(chars.len(), |i: int| chars[i] as u8)
}

/// An ASCII text is encoded by the bytes of its characters.
pub proof fn lemma_ascii_encoding(chars: Seq<char>)
    requires
        is_ascii_chars(chars),
    ensures
        encode_utf8(chars) == ascii_bytes(chars),
        valid_utf8(ascii_bytes(chars)),
        decode_utf8(ascii_bytes(chars)) == chars,
{
    is_ascii_chars_encode_utf8(chars);
    assert(encode_utf8(chars) =~= ascii_bytes(chars));
    encode_utf8_valid_utf8(chars);
    encode_utf8_decode_utf8(chars);
}

/// The text made of the given ASCII bytes.
pub(crate) fn string_of_ascii(bytes: Vec<u8>, Ghost(chars): Ghost<Seq<char>>) -> (s: String)
    requires
        is_ascii_chars(chars),
        bytes@ == ascii_bytes(chars),
    ensures
        s@ == chars,
{
    proof {
        lemma_ascii_encoding(chars);
    }
    string_from_utf8(bytes).unwrap()
}

} // verus!
