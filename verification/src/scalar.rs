//! The scalar values of a message as payloads: text, bytes, integers and
//! flags, each with what is written for it and what is read back.
//!
//! A field outside a oneof is left out where its value is the default (empty
//! text, zero, `false`): [`optional`] states that. A payload of another wire
//! type than the value asks for is refused.

use vstd::prelude::*;
use vstd::utf8::{
    decode_utf8, encode_utf8, encode_utf8_decode_utf8, encode_utf8_valid_utf8, valid_utf8,
};
use crate::wire::{
    Chunk, Field, Payload, field_bytes, fields_bytes, lemma_fields_bytes_empty,
    lemma_fields_bytes_one, put_bytes_field, put_varint_field,
};

verus! {

/// The fields that stand for one value: the field itself, or none where the
/// value is the default.
pub open spec fn optional(present: bool, f: Field) -> Seq<Field> {
    if present {
        seq![f]
    } else {
        Seq::empty()
    }
}

/// The payload that carries a text: its UTF-8 bytes.
pub open spec fn text_payload(s: Seq<char>) -> Payload {
    Payload::Bytes(encode_utf8(s))
}

/// The text that a payload carries: its bytes must be UTF-8.
pub open spec fn payload_text(value: Payload) -> Option<Seq<char>> {
    match value {
        Payload::Bytes(b) => if valid_utf8(b) {
            Some(decode_utf8(b))
        } else {
            None
        },
        _ => None,
    }
}

/// The payload that carries bytes.
pub open spec fn bytes_payload(b: Seq<u8>) -> Payload {
    Payload::Bytes(b)
}

/// The bytes that a payload carries.
pub open spec fn payload_bytes_value(value: Payload) -> Option<Seq<u8>> {
    match value {
        Payload::Bytes(b) => Some(b),
        _ => None,
    }
}

/// The 64 bits that stand for a signed 32-bit value: its two's complement,
/// sign-extended.
pub open spec fn int32_bits(n: i32) -> u64 {
    if n >= 0 {
        n as u64
    } else {
        (n + 0x1_0000_0000_0000_0000) as u64
    }
}

/// The signed 32-bit value of the low 32 bits.
pub open spec fn bits_int32(v: u64) -> i32 {
    let low = v % 0x1_0000_0000;
    if low < 0x8000_0000 {
        low as i32
    } else {
        (low - 0x1_0000_0000) as i32
    }
}

/// The payload that carries a signed 32-bit value.
pub open spec fn int32_payload(n: i32) -> Payload {
    Payload::Varint(int32_bits(n))
}

/// The signed 32-bit value that a payload carries: the low 32 bits of a varint.
pub open spec fn payload_int32(value: Payload) -> Option<i32> {
    match value {
        Payload::Varint(v) => Some(bits_int32(v)),
        _ => None,
    }
}

/// The payload that carries an unsigned 32-bit value.
pub open spec fn uint32_payload(n: u32) -> Payload {
    Payload::Varint(n as u64)
}

/// An unsigned 32-bit value is the low 32 bits of what was written.
pub open spec fn payload_uint32(value: Payload) -> Option<u32> {
    match value {
        Payload::Varint(v) => Some((v % 0x1_0000_0000) as u32),
        _ => None,
    }
}

/// The payload that carries an unsigned 64-bit value.
pub open spec fn uint64_payload(n: u64) -> Payload {
    Payload::Varint(n)
}

/// The unsigned 64-bit value that a payload carries.
pub open spec fn payload_uint64(value: Payload) -> Option<u64> {
    match value {
        Payload::Varint(v) => Some(v),
        _ => None,
    }
}

/// The payload that carries a flag: 1 or 0.
pub open spec fn flag_payload(b: bool) -> Payload {
    Payload::Varint(
        if b {
            1
        } else {
            0
        },
    )
}

/// A flag is set by any value but zero.
pub open spec fn payload_flag(value: Payload) -> Option<bool> {
    match value {
        Payload::Varint(v) => Some(v != 0),
        _ => None,
    }
}

/// The fields of a text member: none where the text is empty.
pub open spec fn text_member(tag: u32, s: Seq<char>) -> Seq<Field> {
    optional(s.len() > 0, Field { tag, value: text_payload(s) })
}

/// The fields of a bytes member: none where there are no bytes.
pub open spec fn bytes_member(tag: u32, b: Seq<u8>) -> Seq<Field> {
    optional(b.len() > 0, Field { tag, value: bytes_payload(b) })
}

/// The fields of a signed 32-bit member: none where it is zero.
pub open spec fn int32_member(tag: u32, n: i32) -> Seq<Field> {
    optional(n != 0, Field { tag, value: int32_payload(n) })
}

/// The fields of an unsigned 32-bit member: none where it is zero.
pub open spec fn uint32_member(tag: u32, n: u32) -> Seq<Field> {
    optional(n != 0, Field { tag, value: uint32_payload(n) })
}

/// The fields of an unsigned 64-bit member: none where it is zero.
pub open spec fn uint64_member(tag: u32, n: u64) -> Seq<Field> {
    optional(n != 0, Field { tag, value: uint64_payload(n) })
}

/// The fields of a flag: none where it is `false`.
pub open spec fn flag_member(tag: u32, b: bool) -> Seq<Field> {
    optional(b, Field { tag, value: flag_payload(b) })
}

/// Text that fits a length prefix.
pub open spec fn text_fits(s: Seq<char>) -> bool {
    encode_utf8(s).len() <= u64::MAX
}

/// A text that was written reads back.
pub proof fn lemma_text_round_trip(s: Seq<char>)
    ensures
        payload_text(text_payload(s)) == Some(s),
{
    encode_utf8_valid_utf8(s);
    encode_utf8_decode_utf8(s);
}

/// A signed value that was written reads back, and only zero is written as
/// zero.
pub proof fn lemma_int32_round_trip(n: i32)
    ensures
        payload_int32(int32_payload(n)) == Some(n),
        n != 0 ==> int32_bits(n) != 0,
{
    let v = int32_bits(n);
    if n >= 0 {
        assert(v % 0x1_0000_0000 == n);
    } else {
        assert(v == n + 0x1_0000_0000_0000_0000);
        assert(v % 0x1_0000_0000 == n + 0x1_0000_0000);
    }
}

/// A flag that was written reads back.
pub proof fn lemma_flag_round_trip(b: bool)
    ensures
        payload_flag(flag_payload(b)) == Some(b),
{
}

/// An unsigned 32-bit value that was written reads back.
pub proof fn lemma_uint32_round_trip(n: u32)
    ensures
        payload_uint32(uint32_payload(n)) == Some(n),
{
    assert((n as u64) % 0x1_0000_0000 == n);
}

/// Checks that `bytes` are UTF-8 and hands them back as text.
///
/// Calls `std::str::from_utf8`, which succeeds exactly on valid UTF-8 and
/// then gives the same bytes as a `str`.
#[verifier::external_body]
pub(crate) fn str_from_utf8<'a>(bytes: &'a [u8]) -> (r: Option<&'a str>)
    ensures
        match r {
            Some(s) => valid_utf8(bytes@) && encode_utf8(s@) == bytes@,
            None => !valid_utf8(bytes@),
        },
{
    match std::str::from_utf8(bytes) {
        Ok(s) => Some(s),
        Err(_) => None,
    }
}

/// The text in a field, as a string of its own.
pub fn read_text(value: &Chunk<'_>) -> (r: Option<String>)
    ensures
        match r {
            Some(s) => payload_text(value@) == Some(s@),
            None => payload_text(value@) is None,
        },
{
    match value {
        Chunk::Bytes(b) => match str_from_utf8(b) {
            Some(s) => {
                proof {
                    encode_utf8_decode_utf8(s@);
                }
                Some(s.to_owned())
            },
            None => None,
        },
        _ => None,
    }
}

/// The bytes in a field, as a vector of their own.
pub fn read_bytes(value: &Chunk<'_>) -> (r: Option<Vec<u8>>)
    ensures
        match r {
            Some(b) => payload_bytes_value(value@) == Some(b@),
            None => payload_bytes_value(value@) is None,
        },
{
    match value {
        Chunk::Bytes(b) => {
            let mut out: Vec<u8> = Vec::new();
            out.extend_from_slice(b);
            assert(out@ =~= b@);
            Some(out)
        },
        _ => None,
    }
}

/// The signed 32-bit value in a field.
pub fn read_int32(value: &Chunk<'_>) -> (r: Option<i32>)
    ensures
        r == payload_int32(value@),
{
    match value {
        Chunk::Varint(v) => {
            let low: u64 = *v % 0x1_0000_0000;
            if low < 0x8000_0000 {
                Some(low as i32)
            } else {
                Some((low as i64 - 0x1_0000_0000) as i32)
            }
        },
        _ => None,
    }
}

/// The unsigned 32-bit value in a field.
pub fn read_uint32(value: &Chunk<'_>) -> (r: Option<u32>)
    ensures
        r == payload_uint32(value@),
{
    match value {
        Chunk::Varint(v) => Some((*v % 0x1_0000_0000) as u32),
        _ => None,
    }
}

/// The unsigned 64-bit value in a field.
pub fn read_uint64(value: &Chunk<'_>) -> (r: Option<u64>)
    ensures
        r == payload_uint64(value@),
{
    match value {
        Chunk::Varint(v) => Some(*v),
        _ => None,
    }
}

/// The flag in a field.
pub fn read_flag(value: &Chunk<'_>) -> (r: Option<bool>)
    ensures
        r == payload_flag(value@),
{
    match value {
        Chunk::Varint(v) => Some(*v != 0),
        _ => None,
    }
}

/// The 64 bits written for `n`.
pub fn int32_to_bits(n: i32) -> (v: u64)
    ensures
        v == int32_bits(n),
{
    if n >= 0 {
        n as u64
    } else {
        u64::MAX - ((-(n as i64) - 1) as u64)
    }
}

/// The 64 bits written for `b`.
pub fn flag_to_bits(b: bool) -> (v: u64)
    ensures
        flag_payload(b) == Payload::Varint(v),
{
    if b {
        1
    } else {
        0
    }
}

/// Appends a text field, whatever the text.
pub fn put_text_field(buf: &mut Vec<u8>, tag: u32, s: &str)
    ensures
        final(buf)@ == old(buf)@ + field_bytes(Field { tag, value: text_payload(s@) }),
        text_fits(s@),
{
    put_bytes_field(buf, tag, s.as_bytes());
}

/// Appends a text field unless the text is empty.
pub fn put_text(buf: &mut Vec<u8>, tag: u32, s: &str)
    ensures
        final(buf)@ == old(buf)@ + fields_bytes(text_member(tag, s@)),
        text_fits(s@),
{
    proof {
        lemma_fields_bytes_one(Field { tag, value: text_payload(s@) });
    }
    if !s.is_empty() {
        put_text_field(buf, tag, s);
    } else {
        proof {
            lemma_fields_bytes_empty();
        }
        assert(buf@ =~= old(buf)@ + fields_bytes(Seq::empty()));
        assert(s@ =~= Seq::<char>::empty());
        assert(encode_utf8(s@).len() == 0);
    }
}

/// Appends a bytes field unless there are no bytes.
pub fn put_bytes(buf: &mut Vec<u8>, tag: u32, bytes: &[u8])
    ensures
        final(buf)@ == old(buf)@ + fields_bytes(bytes_member(tag, bytes@)),
        bytes@.len() <= u64::MAX,
{
    proof {
        lemma_fields_bytes_one(Field { tag, value: bytes_payload(bytes@) });
    }
    if bytes.len() > 0 {
        put_bytes_field(buf, tag, bytes);
    } else {
        proof {
            lemma_fields_bytes_empty();
        }
        assert(buf@ =~= old(buf)@ + fields_bytes(Seq::empty()));
    }
}

/// Appends a signed 32-bit field unless the value is zero.
pub fn put_int32(buf: &mut Vec<u8>, tag: u32, n: i32)
    ensures
        final(buf)@ == old(buf)@ + fields_bytes(int32_member(tag, n)),
{
    proof {
        lemma_fields_bytes_one(Field { tag, value: int32_payload(n) });
    }
    if n != 0 {
        put_varint_field(buf, tag, int32_to_bits(n));
    } else {
        proof {
            lemma_fields_bytes_empty();
        }
        assert(buf@ =~= old(buf)@ + fields_bytes(Seq::empty()));
    }
}

/// Appends an unsigned 32-bit field unless the value is zero.
pub fn put_uint32(buf: &mut Vec<u8>, tag: u32, n: u32)
    ensures
        final(buf)@ == old(buf)@ + fields_bytes(uint32_member(tag, n)),
{
    proof {
        lemma_fields_bytes_one(Field { tag, value: uint32_payload(n) });
    }
    if n != 0 {
        put_varint_field(buf, tag, n as u64);
    } else {
        proof {
            lemma_fields_bytes_empty();
        }
        assert(buf@ =~= old(buf)@ + fields_bytes(Seq::empty()));
    }
}

/// Appends an unsigned 64-bit field unless the value is zero.
pub fn put_uint64(buf: &mut Vec<u8>, tag: u32, n: u64)
    ensures
        final(buf)@ == old(buf)@ + fields_bytes(uint64_member(tag, n)),
{
    proof {
        lemma_fields_bytes_one(Field { tag, value: uint64_payload(n) });
    }
    if n != 0 {
        put_varint_field(buf, tag, n);
    } else {
        proof {
            lemma_fields_bytes_empty();
        }
        assert(buf@ =~= old(buf)@ + fields_bytes(Seq::empty()));
    }
}

/// Appends a flag field unless the flag is `false`.
pub fn put_flag(buf: &mut Vec<u8>, tag: u32, b: bool)
    ensures
        final(buf)@ == old(buf)@ + fields_bytes(flag_member(tag, b)),
{
    proof {
        lemma_fields_bytes_one(Field { tag, value: flag_payload(b) });
    }
    if b {
        put_varint_field(buf, tag, 1);
    } else {
        proof {
            lemma_fields_bytes_empty();
        }
        assert(buf@ =~= old(buf)@ + fields_bytes(Seq::empty()));
    }
}

} // verus!
