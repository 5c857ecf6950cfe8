//! The binary layout shared by requests and records: fields in declaration
//! order without padding, integers little-endian, text as its length in bytes
//! (32 bits) followed by its UTF-8 bytes.

use crate::pubkey::Pubkey;
use vstd::bytes::{
    lemma_auto_spec_u32_to_from_le_bytes, spec_u16_from_le_bytes, spec_u16_to_le_bytes,
    spec_u32_from_le_bytes, spec_u32_to_le_bytes, spec_u64_from_le_bytes, spec_u64_to_le_bytes,
    u16_from_le_bytes, u16_to_le_bytes, u32_from_le_bytes, u32_to_le_bytes, u64_from_le_bytes,
    u64_to_le_bytes,
};
use vstd::prelude::*;
use vstd::slice::{slice_subrange, slice_to_vec};
use vstd::utf8::{decode_utf8, encode_utf8, valid_utf8};

verus! {

/// Whether the length of `text` in bytes fits the 32 bits that announce it.
pub open spec fn text_fits(text: Seq<char>) -> bool {
    encode_utf8(text).len() <= u32::MAX
}

/// The layout of a text field.
pub open spec fn spec_text_bytes(text: Seq<char>) -> Seq<u8> {
    spec_u32_to_le_bytes(encode_utf8(text).len() as u32) + encode_utf8(text)
}

/// What reading a text field at the start of `input` yields: the text and the
/// bytes that follow it.
pub open spec fn spec_parse_text(input: Seq<u8>) -> Option<(Seq<char>, Seq<u8>)> {
    if input.len() < 4 {
        None
    } else {
        let len = spec_u32_from_le_bytes(input.subrange(0, 4)) as int;
        if input.len() - 4 < len {
            None
        } else if !valid_utf8(input.subrange(4, 4 + len)) {
            None
        } else {
            Some(
                (
                    decode_utf8(input.subrange(4, 4 + len)),
                    input.subrange(4 + len, input.len() as int),
                ),
            )
        }
    }
}

/// A text field that was written is read back, and what followed it stays.
pub proof fn lemma_parse_text_of_bytes(text: Seq<char>, rest: Seq<u8>)
    requires
        text_fits(text),
    ensures
        spec_parse_text(spec_text_bytes(text) + rest) == Some((text, rest)),
{
    broadcast use vstd::utf8::group_utf8_lib;

    lemma_auto_spec_u32_to_from_le_bytes();
    let body = encode_utf8(text);
    let len = body.len() as u32;
    let input = spec_text_bytes(text) + rest;
    assert(input.subrange(0, 4) =~= spec_u32_to_le_bytes(len));
    assert(input.subrange(4, 4 + len) =~= body);
    assert(input.subrange(4 + len, input.len() as int) =~= rest);
}

/// Bytes from which a text field is read begin with the layout of that text.
pub proof fn lemma_bytes_of_parse_text(input: Seq<u8>)
    requires
        spec_parse_text(input) is Some,
    ensures
        text_fits(spec_parse_text(input).unwrap().0),
        input == spec_text_bytes(spec_parse_text(input).unwrap().0) + spec_parse_text(
            input,
        ).unwrap().1,
{
    broadcast use vstd::utf8::group_utf8_lib;

    lemma_auto_spec_u32_to_from_le_bytes();
    let (text, rest) = spec_parse_text(input).unwrap();
    let len = spec_u32_from_le_bytes(input.subrange(0, 4));
    assert(encode_utf8(text) == input.subrange(4, 4 + len));
    assert(input =~= spec_text_bytes(text) + rest);
}

/// Appends a 16-bit integer.
pub fn write_u16(out: &mut Vec<u8>, value: u16)
    ensures
        final(out)@ == old(out)@ + spec_u16_to_le_bytes(value),
{
    let mut bytes = u16_to_le_bytes(value);
    out.append(&mut bytes);
}

/// Appends a 32-bit integer.
pub fn write_u32(out: &mut Vec<u8>, value: u32)
    ensures
        final(out)@ == old(out)@ + spec_u32_to_le_bytes(value),
{
    let mut bytes = u32_to_le_bytes(value);
    out.append(&mut bytes);
}

/// Appends a 64-bit integer.
pub fn write_u64(out: &mut Vec<u8>, value: u64)
    ensures
        final(out)@ == old(out)@ + spec_u64_to_le_bytes(value),
{
    let mut bytes = u64_to_le_bytes(value);
    out.append(&mut bytes);
}

/// Appends bytes as they are.
pub fn write_bytes(out: &mut Vec<u8>, bytes: &[u8])
    ensures
        final(out)@ == old(out)@ + bytes@,
{
    let mut copy = slice_to_vec(bytes);
    out.append(&mut copy);
}

/// Appends the 32 bytes of an identity.
pub fn write_pubkey(out: &mut Vec<u8>, key: &Pubkey)
    ensures
        final(out)@ == old(out)@ + key@,
{
    let mut bytes = key.to_vec();
    out.append(&mut bytes);
}

/// Appends a text field: the length of the text in bytes, then its bytes.
pub fn write_text(out: &mut Vec<u8>, text: &str)
    requires
        text_fits(text@),
    ensures
        final(out)@ == old(out)@ + spec_text_bytes(text@),
{
    let bytes = text.as_bytes();
    write_u32(out, bytes.len() as u32);
    write_bytes(out, bytes);
    assert(out@ =~= old(out)@ + spec_text_bytes(text@));
}

/// The 16-bit integer at `at`, if `data` reaches that far.
pub fn read_u16(data: &[u8], at: usize) -> (value: Option<u16>)
    ensures
        value is Some <==> at + 2 <= data@.len(),
        value matches Some(v) ==> v == spec_u16_from_le_bytes(data@.subrange(at as int, at + 2)),
{
    if data.len() < 2 || at > data.len() - 2 {
        None
    } else {
        Some(u16_from_le_bytes(slice_subrange(data, at, at + 2)))
    }
}

/// The 32-bit integer at `at`, if `data` reaches that far.
pub fn read_u32(data: &[u8], at: usize) -> (value: Option<u32>)
    ensures
        value is Some <==> at + 4 <= data@.len(),
        value matches Some(v) ==> v == spec_u32_from_le_bytes(data@.subrange(at as int, at + 4)),
{
    if data.len() < 4 || at > data.len() - 4 {
        None
    } else {
        Some(u32_from_le_bytes(slice_subrange(data, at, at + 4)))
    }
}

/// The 64-bit integer at `at`, if `data` reaches that far.
pub fn read_u64(data: &[u8], at: usize) -> (value: Option<u64>)
    ensures
        value is Some <==> at + 8 <= data@.len(),
        value matches Some(v) ==> v == spec_u64_from_le_bytes(data@.subrange(at as int, at + 8)),
{
    if data.len() < 8 || at > data.len() - 8 {
        None
    } else {
        Some(u64_from_le_bytes(slice_subrange(data, at, at + 8)))
    }
}

/// The identity at `at`, if `data` reaches that far.
pub fn read_pubkey(data: &[u8], at: usize) -> (key: Option<Pubkey>)
    ensures
        key is Some <==> at + 32 <= data@.len(),
        key matches Some(k) ==> k@ == data@.subrange(at as int, at + 32),
{
    if data.len() < 32 || at > data.len() - 32 {
        return None;
    }
    let mut bytes: [u8; 32] = [0u8; 32];
    let mut i: usize = 0;
    while i < 32
        invariant
            i <= 32,
            at + 32 <= data@.len() <= usize::MAX,
            forall|j: int| 0 <= j < i ==> bytes@[j] == data@[at + j],
        decreases 32 - i,
    {
        bytes[i] = data[at + i];
        i += 1;
    }
    assert(bytes@ =~= data@.subrange(at as int, at + 32));
    Some(Pubkey::new_from_array(bytes))
}

/// `String::from_utf8` of the standard library: the text that `bytes` spell,
/// where they are well-formed UTF-8, and nothing where they are not.
#[verifier::external_body]
pub(crate) fn string_from_utf8(bytes: Vec<u8>) -> (text: Option<String>)
    ensures
        text is Some <==> valid_utf8(bytes@),
        text matches Some(t) ==> t@ == decode_utf8(bytes@),
{
    String::from_utf8(bytes).ok()
}

/// The text field at `at` and the position behind it, if `data` holds one there.
pub fn read_text(data: &[u8], at: usize) -> (found: Option<(String, usize)>)
    requires
        at <= data@.len(),
    ensures
        match found {
            Some((text, next)) => {
                &&& at <= next <= data@.len()
                &&& spec_parse_text(data@.subrange(at as int, data@.len() as int)) == Some(
                    (text@, data@.subrange(next as int, data@.len() as int)),
                )
            },
            None => spec_parse_text(data@.subrange(at as int, data@.len() as int)) is None,
        },
{
    let ghost input = data@.subrange(at as int, data@.len() as int);
    let total = data.len();
    let len = match read_u32(data, at) {
        Some(len) => len as usize,
        None => { return None; },
    };
    assert(data@.subrange(at as int, at + 4) =~= input.subrange(0, 4));
    let start = at + 4;
    if total - start < len {
        return None;
    }
    let end = start + len;
    let bytes = slice_to_vec(slice_subrange(data, start, end));
    assert(bytes@ =~= input.subrange(4, 4 + len));
    assert(data@.subrange(end as int, data@.len() as int) =~= input.subrange(
        4 + len,
        input.len() as int,
    ));
    match string_from_utf8(bytes) {
        Some(text) => Some((text, end)),
        None => None,
    }
}

} // verus!
