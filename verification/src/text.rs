//! Bytes and characters: the marker as bytes, and a file name as text.

use vstd::prelude::*;
use vstd::string::*;
use vstd::utf8::*;
use crate::path::SEPARATOR;

verus! {

/// The bytes that stand for `marker` in a file name: its UTF-8 encoding.
pub open spec fn marker_bytes(marker: char) -> Seq<u8> {
    encode_scalar(marker as u32)
}

/// A text that starts with `first` is encoded as the bytes of `first`, then
/// those of the rest.
pub proof fn lemma_encode_first(first: char, rest: Seq<char>)
    ensures
        encode_utf8(seq![first] + rest) == marker_bytes(first) + encode_utf8(rest),
{
    let text = seq![first] + rest;
    assert(text.drop_first() == rest);
}

/// The bytes of a valid name are those of its first character, then those of
/// the text behind it.
pub proof fn lemma_split_first(name: Seq<u8>)
    requires
        valid_utf8(name),
        name.len() > 0,
    ensures
        decode_utf8(name).len() > 0,
        name == marker_bytes(decode_utf8(name)[0]) + encode_utf8(decode_utf8(name).drop_first()),
{
    let text = decode_utf8(name);
    decode_utf8_encode_utf8(name);
    assert(text == seq![text[0]] + text.drop_first());
    lemma_encode_first(text[0], text.drop_first());
}

/// A name with the bytes of `marker` before it is valid where the name is, and
/// reads as `marker`, then the name.
pub proof fn lemma_marked_text(marker: char, name: Seq<u8>)
    requires
        valid_utf8(name),
    ensures
        valid_utf8(marker_bytes(marker) + name),
        decode_utf8(marker_bytes(marker) + name) == seq![marker] + decode_utf8(name),
{
    let text = seq![marker] + decode_utf8(name);
    lemma_encode_first(marker, decode_utf8(name));
    decode_utf8_encode_utf8(name);
    encode_utf8_valid_utf8(text);
    encode_utf8_decode_utf8(text);
}

/// A marker takes one to four bytes, and none of them is the separator unless
/// the marker is `/`.
pub proof fn lemma_marker_bytes(marker: char)
    ensures
        1 <= marker_bytes(marker).len() <= 4,
        marker != '/' ==> forall|i: int|
            0 <= i < marker_bytes(marker).len() ==> marker_bytes(marker)[i] != SEPARATOR,
{
    let code = marker as u32;
    char_is_scalar(marker);
    if marker != '/' {
        if code == 0x2f {
            char_u32_cast(marker, code);
            char_u32_cast('/', 0x2f);
        }
        assert(code <= 0x7f && code != 0x2f ==> (code & 0x7f) as u8 != 0x2f) by (bit_vector);
        assert((0xC0 | ((code >> 6) & 0x1F) as u8) != 0x2f) by (bit_vector);
        assert((0xE0 | ((code >> 12) & 0x0F) as u8) != 0x2f) by (bit_vector);
        assert((0xF0 | ((code >> 18) & 0x7) as u8) != 0x2f) by (bit_vector);
        assert((0x80 | (code & 0x3F) as u8) != 0x2f) by (bit_vector);
        assert((0x80 | ((code >> 6) & 0x3F) as u8) != 0x2f) by (bit_vector);
        assert((0x80 | ((code >> 12) & 0x3F) as u8) != 0x2f) by (bit_vector);
    }
}

/// The number of bytes that `marker` takes in a file name.
pub fn marker_width(marker: char) -> (width: usize)
    ensures
        width == marker_bytes(marker).len(),
        1 <= width <= 4,
{
    let code: u32 = marker as u32;
    proof {
        char_is_scalar(marker);
    }
    if code <= 0x7f {
        1
    } else if code <= 0x7ff {
        2
    } else if code <= 0xffff {
        3
    } else {
        4
    }
}

/// The bytes that stand for `marker` in a file name.
pub fn encode_marker(marker: char) -> (bytes: Vec<u8>)
    ensures
        bytes@ == marker_bytes(marker),
{
    let code: u32 = marker as u32;
    let mut bytes: Vec<u8> = Vec::new();
    proof {
        char_is_scalar(marker);
        assert((code & 0x7f) <= 0x7f) by (bit_vector);
        assert(((code >> 6) & 0x1f) <= 0x1f) by (bit_vector);
        assert(((code >> 12) & 0x0f) <= 0x0f) by (bit_vector);
        assert(((code >> 18) & 0x7) <= 0x7) by (bit_vector);
        assert((code & 0x3f) <= 0x3f) by (bit_vector);
        assert(((code >> 6) & 0x3f) <= 0x3f) by (bit_vector);
        assert(((code >> 12) & 0x3f) <= 0x3f) by (bit_vector);
    }
    if code <= 0x7f {
        bytes.push((code & 0x7f) as u8);
    } else if code <= 0x7ff {
        bytes.push(0xc0 | ((code >> 6) & 0x1f) as u8);
        bytes.push(0x80 | (code & 0x3f) as u8);
    } else if code <= 0xffff {
        bytes.push(0xe0 | ((code >> 12) & 0x0f) as u8);
        bytes.push(0x80 | ((code >> 6) & 0x3f) as u8);
        bytes.push(0x80 | (code & 0x3f) as u8);
    } else {
        bytes.push(0xf0 | ((code >> 18) & 0x7) as u8);
        bytes.push(0x80 | ((code >> 12) & 0x3f) as u8);
        bytes.push(0x80 | ((code >> 6) & 0x3f) as u8);
        bytes.push(0x80 | (code & 0x3f) as u8);
    }
    assert(bytes@ == marker_bytes(marker));
    bytes
}

/// Reads `bytes` as text. Calls `std::str::from_utf8`, of which this is
/// believed: it fails exactly on bytes that are not valid UTF-8, and the string
/// slice that it hands back otherwise is made of the bytes it was given.
#[verifier::external_body]
pub(crate) fn utf8_text<'a>(bytes: &'a [u8]) -> (text: Option<&'a str>)
    ensures
        text is Some <==> valid_utf8(bytes@),
        text matches Some(s) ==> s.spec_bytes() == bytes@,
{
    match std::str::from_utf8(bytes) {
        Ok(text) => Some(text),
        Err(_) => None,
    }
}

} // verus!
