//! Turning bytes received from the transport into text.

use vstd::prelude::*;
use vstd::string::*;
use vstd::utf8::*;
use crate::error::ErrorKind;

verus! {

/// A byte that may appear in a header value shown as text: a printable
/// ASCII character, a space, or a horizontal tab.
pub open spec fn is_visible_ascii(b: u8) -> bool {
    (32 <= b && b < 127) || b == 9
}

/// Every byte of the sequence is visible ASCII.
pub open spec fn all_visible_ascii(bytes: Seq<u8>) -> bool {
    forall|i: int| 0 <= i < bytes.len() ==> is_visible_ascii(#[trigger] bytes[i])
}

/// The text whose characters have the given bytes as their code points.
pub open spec fn ascii_text(bytes: Seq<u8>) -> Seq<char> {
    Seq::new(bytes.len(), |i: int| bytes[i] as char)
}

/// A sequence of bytes below 128 is valid UTF-8 and decodes, byte for byte,
/// to the characters with those code points.
pub proof fn lemma_ascii_bytes_decode(bytes: Seq<u8>)
    requires
        forall|i: int| 0 <= i < bytes.len() ==> bytes[i] < 128,
    ensures
        valid_utf8(bytes),
        decode_utf8(bytes) == ascii_text(bytes),
{
    let chars = ascii_text(bytes);
    assert(is_ascii_chars(chars));
    is_ascii_chars_encode_utf8(chars);
    assert(encode_utf8(chars) =~= bytes);
    encode_utf8_valid_utf8(chars);
    encode_utf8_decode_utf8(chars);
}

/// `core::str::from_utf8` of the standard library: the conversion succeeds
/// exactly on valid UTF-8, and the string it yields is made of the very
/// bytes it was given.
#[verifier::external_body]
fn str_from_utf8(bytes: &[u8]) -> (text: Option<&str>)
    ensures
        text is Some <==> valid_utf8(bytes@),
        text matches Some(s) ==> s.spec_bytes() == bytes@,
{
    match core::str::from_utf8(bytes) {
        Ok(s) => Some(s),
        Err(_) => None,
    }
}

/// The text that the bytes encode in UTF-8, where they encode any.
fn utf8_text(bytes: &[u8]) -> (text: Option<String>)
    ensures
        text is Some <==> valid_utf8(bytes@),
        text matches Some(s) ==> s@ == decode_utf8(bytes@),
{
    match str_from_utf8(bytes) {
        Some(s) => {
            proof {
                encode_utf8_decode_utf8(s@);
            }
            Some(s.to_owned())
        },
        None => None,
    }
}

/// Whether two strings hold the same text.
pub fn same_text(a: &str, b: &str) -> (same: bool)
    ensures
        same == (a@ == b@),
{
    let x = a.as_bytes();
    let y = b.as_bytes();
    proof {
        encode_utf8_decode_utf8(a@);
        encode_utf8_decode_utf8(b@);
    }
    if x.len() != y.len() {
        return false;
    }
    let mut i: usize = 0;
    while i < x.len()
        invariant
            i <= x.len(),
            x@.len() == y@.len(),
            x@ == encode_utf8(a@),
            y@ == encode_utf8(b@),
            forall|j: int| 0 <= j < i ==> x@[j] == y@[j],
        decreases x.len() - i,
    {
        if x[i] != y[i] {
            return false;
        }
        i += 1;
    }
    assert(x@ =~= y@);
    true
}

/// Decodes a response body. The body must be valid UTF-8; anything else is
/// reported as `DecodeFailed` instead of being repaired or cut short.
pub fn decode_body(bytes: &[u8]) -> (text: Result<String, ErrorKind>)
    ensures
        valid_utf8(bytes@) ==> (text matches Ok(s) && s@ == decode_utf8(bytes@)),
        !valid_utf8(bytes@) ==> text == Err::<String, ErrorKind>(ErrorKind::DecodeFailed),
{
    match utf8_text(bytes) {
        Some(s) => Ok(s),
        None => Err(ErrorKind::DecodeFailed),
    }
}

/// Whether every byte of `bytes` is visible ASCII.
pub fn is_visible_text(bytes: &[u8]) -> (visible: bool)
    ensures
        visible == all_visible_ascii(bytes@),
{
    let mut i: usize = 0;
    while i < bytes.len()
        invariant
            i <= bytes.len(),
            forall|j: int| 0 <= j < i ==> is_visible_ascii(#[trigger] bytes@[j]),
        decreases bytes.len() - i,
    {
        let b: u8 = bytes[i];
        if !((32 <= b && b < 127) || b == 9) {
            return false;
        }
        i += 1;
    }
    true
}

/// Decodes a response header value. The value must consist of visible ASCII
/// only; its text then has one character per byte.
pub fn decode_header_value(bytes: &[u8]) -> (text: Result<String, ErrorKind>)
    ensures
        all_visible_ascii(bytes@) ==> (text matches Ok(s) && s@ == ascii_text(bytes@)),
        !all_visible_ascii(bytes@) ==> text == Err::<String, ErrorKind>(ErrorKind::DecodeFailed),
{
    if !is_visible_text(bytes) {
        return Err(ErrorKind::DecodeFailed);
    }
    proof {
        lemma_ascii_bytes_decode(bytes@);
    }
    match utf8_text(bytes) {
        Some(s) => Ok(s),
        None => Err(ErrorKind::DecodeFailed),
    }
}

} // verus!
