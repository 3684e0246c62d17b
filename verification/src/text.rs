//! Bytes and text: prefixes, ASCII case and UTF-8.

use vstd::prelude::*;
use vstd::string::StringSliceAdditionalSpecFns;
use vstd::utf8::*;

verus! {

/// The bytes of an ASCII text: one byte for each character.
pub open spec fn ascii_bytes(text: Seq<char>) -> Seq<u8> {
    Seq::new(text.len(), |i: int| text[i] as u8)
}

/// The lower-case form of an ASCII letter; every other byte is left as it is.
pub open spec fn ascii_lower(b: u8) -> u8 {
    if 0x41 <= b <= 0x5a {
        (b + 0x20) as u8
    } else {
        b
    }
}

/// `bytes` with every ASCII letter in lower case.
pub open spec fn ascii_lower_bytes(bytes: Seq<u8>) -> Seq<u8> {
    Seq::new(bytes.len(), |i: int| ascii_lower(bytes[i]))
}

/// Whether `data` begins with `prefix` once the ASCII letters of `data` are
/// put in lower case.
pub open spec fn starts_with_lowered(data: Seq<u8>, prefix: Seq<u8>) -> bool {
    prefix.is_prefix_of(ascii_lower_bytes(data))
}

/// The lower-case form of an ASCII letter; every other byte is left as it is.
pub fn to_ascii_lower(b: u8) -> (r: u8)
    ensures
        r == ascii_lower(b),
{
    if 0x41 <= b && b <= 0x5a {
        b + 0x20
    } else {
        b
    }
}

/// The bytes of a text: its UTF-8 encoding, which for an ASCII text is one
/// byte for each character.
pub fn bytes_of(text: &str) -> (bytes: &[u8])
    ensures
        bytes@ == encode_utf8(text@),
        is_ascii_chars(text@) ==> bytes@ == ascii_bytes(text@),
{
    let bytes = text.as_bytes();
    proof {
        if is_ascii_chars(text@) {
            is_ascii_chars_encode_utf8(text@);
            assert(bytes@ =~= ascii_bytes(text@));
        }
    }
    bytes
}

/// Whether `data` begins with `prefix`.
pub fn starts_with(data: &[u8], prefix: &[u8]) -> (r: bool)
    ensures
        r == prefix@.is_prefix_of(data@),
{
    if prefix.len() > data.len() {
        return false;
    }
    let mut i: usize = 0;
    while i < prefix.len()
        invariant
            i <= prefix@.len() <= data@.len(),
            forall|k: int| 0 <= k < i ==> data@[k] == prefix@[k],
        decreases prefix@.len() - i,
    {
        if data[i] != prefix[i] {
            assert(data@.subrange(0, prefix@.len() as int)[i as int] != prefix@[i as int]);
            return false;
        }
        i += 1;
    }
    assert(prefix@ =~= data@.subrange(0, prefix@.len() as int));
    true
}

/// Whether `data` begins with `prefix` once the ASCII letters of `data` are
/// put in lower case.
pub fn starts_with_ignoring_case(data: &[u8], prefix: &[u8]) -> (r: bool)
    ensures
        r == starts_with_lowered(data@, prefix@),
{
    if prefix.len() > data.len() {
        return false;
    }
    let ghost lowered = ascii_lower_bytes(data@);
    let mut i: usize = 0;
    while i < prefix.len()
        invariant
            i <= prefix@.len() <= data@.len(),
            lowered == ascii_lower_bytes(data@),
            forall|k: int| 0 <= k < i ==> lowered[k] == prefix@[k],
        decreases prefix@.len() - i,
    {
        if to_ascii_lower(data[i]) != prefix[i] {
            assert(lowered.subrange(0, prefix@.len() as int)[i as int] != prefix@[i as int]);
            return false;
        }
        i += 1;
    }
    assert(prefix@ =~= lowered.subrange(0, prefix@.len() as int));
    true
}

/// Whether two byte strings hold the same bytes.
pub fn bytes_eq(a: &[u8], b: &[u8]) -> (r: bool)
    ensures
        r == (a@ == b@),
{
    if a.len() != b.len() {
        return false;
    }
    let mut i: usize = 0;
    while i < a.len()
        invariant
            i <= a@.len(),
            a@.len() == b@.len(),
            forall|k: int| 0 <= k < i ==> a@[k] == b@[k],
        decreases a@.len() - i,
    {
        if a[i] != b[i] {
            return false;
        }
        i += 1;
    }
    assert(a@ =~= b@);
    true
}

/// Whether two texts hold the same characters.
pub fn str_eq(a: &str, b: &str) -> (r: bool)
    ensures
        r == (a@ == b@),
{
    broadcast use encode_utf8_decode_utf8;

    let same: bool = bytes_eq(a.as_bytes(), b.as_bytes());
    proof {
        if same {
            assert(decode_utf8(encode_utf8(a@)) == a@);
            assert(decode_utf8(encode_utf8(b@)) == b@);
        }
    }
    same
}

/// `std::str::from_utf8`: the text that `bytes` encode.  There is one exactly
/// when the bytes are well-formed UTF-8, and its encoding is then `bytes`
/// itself.
#[verifier::external_body]
pub(crate) fn text_of_bytes<'a>(bytes: &'a [u8]) -> (r: Option<&'a str>)
    ensures
        r is Some <==> valid_utf8(bytes@),
        r matches Some(text) ==> text.spec_bytes() == bytes@,
{
    match std::str::from_utf8(bytes) {
        Ok(text) => Some(text),
        Err(_) => None,
    }
}

} // verus!
