//! The protobuf wire format: a message is a run of fields, each a key (tag
//! and wire type) followed by a payload.
//!
//! [`fields_bytes`] states what is written and [`parse_fields`] what is read;
//! [`lemma_parse_fields`] is their round trip.
//!
//! Groups are read and never written. A group is a field of wire type 3: the
//! fields that follow its key, up to the key of wire type 4 that carries the
//! same tag, belong to it, and groups may lie in groups, no deeper than a
//! limit. No member of any message here is a group, so a message passes a
//! group over where it does not know the tag and is refused where it does. A
//! key of wire type 4 that ends no group is malformed.

use vstd::prelude::*;
use crate::varint::{
    lemma_parse_varint, lemma_parse_varint_len, parse_varint, put_varint, take_varint, varint,
    varint_span,
};

verus! {

/// The largest tag that a key can carry.
pub const MAX_TAG: u32 = 0x1fff_ffff;

/// The wire type of a varint.
pub const WIRE_VARINT: u64 = 0;

/// The wire type of eight bytes.
pub const WIRE_FIXED64: u64 = 1;

/// The wire type of a length and that many bytes.
pub const WIRE_BYTES: u64 = 2;

/// The wire type of four bytes.
pub const WIRE_FIXED32: u64 = 5;

/// The wire type of the key that starts a group.
pub const WIRE_START_GROUP: u64 = 3;

/// The wire type of the key that ends a group.
pub const WIRE_END_GROUP: u64 = 4;

/// How deep messages and groups may lie in one another, all told.
pub const RECURSION_LIMIT: u32 = 100;

/// What a field carries, by wire type.
pub enum Payload {
    /// Wire type 0.
    Varint(u64),
    /// Wire type 1: eight bytes, kept as they stand.
    Fixed64(Seq<u8>),
    /// Wire type 2: a length and that many bytes.
    Bytes(Seq<u8>),
    /// Wire type 5: four bytes, kept as they stand.
    Fixed32(Seq<u8>),
    /// Wire type 3: a group, by the bytes behind its key, up to and with the
    /// key that ends it.
    Group(Seq<u8>),
}

/// One field of a message.
pub struct Field {
    pub tag: u32,
    pub value: Payload,
}

/// The wire type under which a payload is written.
pub open spec fn wire_type(value: Payload) -> nat {
    match value {
        Payload::Varint(_) => WIRE_VARINT as nat,
        Payload::Fixed64(_) => WIRE_FIXED64 as nat,
        Payload::Bytes(_) => WIRE_BYTES as nat,
        Payload::Fixed32(_) => WIRE_FIXED32 as nat,
        Payload::Group(_) => WIRE_START_GROUP as nat,
    }
}

/// A tag that a key can carry.
pub open spec fn valid_tag(tag: u32) -> bool {
    1 <= tag <= MAX_TAG
}

/// A field that can be written: its tag fits a key and its payload has the
/// size that its wire type asks for. A group is not written.
pub open spec fn field_wf(f: Field) -> bool {
    &&& valid_tag(f.tag)
    &&& match f.value {
        Payload::Varint(_) => true,
        Payload::Fixed64(b) => b.len() == 8,
        Payload::Bytes(b) => b.len() <= u64::MAX,
        Payload::Fixed32(b) => b.len() == 4,
        Payload::Group(_) => false,
    }
}

/// Fields that can be written, each of them.
pub open spec fn fields_wf(fs: Seq<Field>) -> bool {
    forall|i: int| 0 <= i < fs.len() ==> field_wf(#[trigger] fs[i])
}

/// The key of a field: the varint of the tag shifted left by three bits, with
/// the wire type in the low three.
pub open spec fn key_bytes(tag: u32, wt: nat) -> Seq<u8> {
    varint(tag as nat * 8 + wt)
}

/// The bytes of a payload, behind its key.
pub open spec fn payload_bytes(value: Payload) -> Seq<u8> {
    match value {
        Payload::Varint(v) => varint(v as nat),
        Payload::Fixed64(b) => b,
        Payload::Bytes(b) => varint(b.len()) + b,
        Payload::Fixed32(b) => b,
        Payload::Group(b) => b,
    }
}

/// The bytes of a field: its key, then its payload.
pub open spec fn field_bytes(f: Field) -> Seq<u8> {
    key_bytes(f.tag, wire_type(f.value)) + payload_bytes(f.value)
}

/// The bytes of a message: those of its fields, one after the other.
#[verifier::opaque]
pub open spec fn fields_bytes(fs: Seq<Field>) -> Seq<u8>
    decreases fs.len(),
{
    if fs.len() == 0 {
        Seq::empty()
    } else {
        field_bytes(fs[0]) + fields_bytes(fs.skip(1))
    }
}

/// Reads a key from the front of `bytes`: the tag, the wire type and the
/// number of bytes the key takes. The key must fit 32 bits and carry a tag
/// of 1 or more.
pub open spec fn parse_key(bytes: Seq<u8>) -> Option<(u32, nat, nat)> {
    match parse_varint(bytes) {
        Some((k, n)) => if k > u32::MAX || k / 8 == 0 {
            None
        } else {
            Some(((k / 8) as u32, (k % 8) as nat, n))
        },
        None => None,
    }
}

/// Reads a payload of wire type `wt`, which is none of a group, from the
/// front of `bytes`: the payload and the number of bytes it takes.
pub open spec fn parse_payload(wt: nat, bytes: Seq<u8>) -> Option<(Payload, nat)> {
    if wt == WIRE_VARINT {
        match parse_varint(bytes) {
            Some((v, n)) => Some((Payload::Varint(v), n)),
            None => None,
        }
    } else if wt == WIRE_FIXED64 {
        if bytes.len() >= 8 {
            Some((Payload::Fixed64(bytes.take(8)), 8))
        } else {
            None
        }
    } else if wt == WIRE_BYTES {
        match parse_varint(bytes) {
            Some((len, n)) => if len <= bytes.len() - n {
                Some((Payload::Bytes(bytes.subrange(n as int, n + len)), (n + len) as nat))
            } else {
                None
            },
            None => None,
        }
    } else if wt == WIRE_FIXED32 {
        if bytes.len() >= 4 {
            Some((Payload::Fixed32(bytes.take(4)), 4))
        } else {
            None
        }
    } else {
        None
    }
}

/// The number of bytes that a payload of wire type `wt`, which is none of
/// a group, takes at the front of `bytes`.
pub open spec fn payload_span(wt: nat, bytes: Seq<u8>) -> Option<nat> {
    match parse_payload(wt, bytes) {
        Some((_, n)) => Some(n),
        None => None,
    }
}

/// The number of bytes that the group of `tag` takes at the front of `bytes`,
/// which lie behind the key that starts it: the fields in it and the key
/// that ends it. `budget` is how deep fields may still lie below the group.
///
/// The fields in a group are passed over whatever their tags, so each needs
/// no more than a key and a payload that is whole. A field in the group
/// uses up one of the budget, and a group in the group leaves the fields in
/// it one less. A key of wire type 4 ends the group if it carries `tag`; one
/// with another tag is malformed.
pub open spec fn group_span(tag: u32, bytes: Seq<u8>, budget: nat) -> Option<nat>
    decreases bytes.len(),
    via group_span_decreases
{
    match parse_key(bytes) {
        None => None,
        Some((inner, wt, n)) => {
            let rest = bytes.skip(n as int);
            if wt == WIRE_END_GROUP {
                if inner == tag {
                    Some(n)
                } else {
                    None
                }
            } else if budget == 0 {
                None
            } else {
                let taken = if wt == WIRE_START_GROUP {
                    group_span(inner, rest, (budget - 1) as nat)
                } else {
                    payload_span(wt, rest)
                };
                match taken {
                    Some(m) => if m > rest.len() {
                        None
                    } else {
                        match group_span(tag, rest.skip(m as int), budget) {
                            Some(more) => Some(n + m + more),
                            None => None,
                        }
                    },
                    None => None,
                }
            }
        },
    }
}

#[via_fn]
proof fn group_span_decreases(tag: u32, bytes: Seq<u8>, budget: nat) {
    lemma_parse_varint_len(bytes);
}

/// Reads one field from the front of `bytes`: the field and the number of
/// bytes it takes. `limit` is how deep a group may lie here, fields in it
/// told: with a limit of 0 no group is read.
pub open spec fn parse_field(bytes: Seq<u8>, limit: nat) -> Option<(Field, nat)> {
    match parse_key(bytes) {
        Some((tag, wt, n)) => {
            let rest = bytes.skip(n as int);
            if wt == WIRE_START_GROUP {
                if limit == 0 {
                    None
                } else {
                    match group_span(tag, rest, (limit - 1) as nat) {
                        Some(m) => if m > rest.len() {
                            None
                        } else {
                            Some((Field { tag, value: Payload::Group(rest.take(m as int)) }, n + m))
                        },
                        None => None,
                    }
                }
            } else {
                match parse_payload(wt, rest) {
                    Some((value, m)) => Some((Field { tag, value }, n + m)),
                    None => None,
                }
            }
        },
        None => None,
    }
}

/// Reads a whole message: `bytes` must be a run of fields and nothing else.
/// `limit` is how deep a group may lie in it, as [`parse_field`] takes it.
pub open spec fn parse_fields(bytes: Seq<u8>, limit: nat) -> Option<Seq<Field>>
    decreases bytes.len(),
    via parse_fields_decreases
{
    if bytes.len() == 0 {
        Some(Seq::empty())
    } else {
        match parse_field(bytes, limit) {
            Some((f, n)) => match parse_fields(bytes.skip(n as int), limit) {
                Some(rest) => Some(seq![f] + rest),
                None => None,
            },
            None => None,
        }
    }
}

#[via_fn]
proof fn parse_fields_decreases(bytes: Seq<u8>, limit: nat) {
    lemma_parse_field_len(bytes, limit);
}

/// A payload that is read lies inside the bytes and can be written again.
pub proof fn lemma_parse_payload_len(wt: nat, bytes: Seq<u8>)
    ensures
        parse_payload(wt, bytes) matches Some((value, n)) ==> n <= bytes.len() && wire_type(value)
            == wt && !(value is Group) && forall|tag: u32|
            valid_tag(tag) ==> #[trigger] field_wf(Field { tag, value }),
{
    lemma_parse_varint_len(bytes);
}

/// A group that is read lies inside the bytes and is not empty.
pub proof fn lemma_group_span_len(tag: u32, bytes: Seq<u8>, budget: nat)
    ensures
        group_span(tag, bytes, budget) matches Some(n) ==> 1 <= n <= bytes.len(),
    decreases bytes.len(),
{
    lemma_parse_varint_len(bytes);
    if let Some((inner, wt, n)) = parse_key(bytes) {
        let rest = bytes.skip(n as int);
        if wt != WIRE_END_GROUP && budget != 0 {
            let taken = if wt == WIRE_START_GROUP {
                group_span(inner, rest, (budget - 1) as nat)
            } else {
                payload_span(wt, rest)
            };
            if let Some(m) = taken {
                if m <= rest.len() {
                    lemma_group_span_len(tag, rest.skip(m as int), budget);
                }
            }
        }
    }
}

/// A field that is read lies inside the bytes and is not empty, and it can
/// be written again unless it is a group.
pub proof fn lemma_parse_field_len(bytes: Seq<u8>, limit: nat)
    ensures
        parse_field(bytes, limit) matches Some((f, n)) ==> 1 <= n <= bytes.len() && (field_wf(f)
            || f.value is Group),
{
    lemma_parse_varint_len(bytes);
    if let Some((tag, wt, n)) = parse_key(bytes) {
        lemma_parse_payload_len(wt, bytes.skip(n as int));
        if let Some((value, m)) = parse_payload(wt, bytes.skip(n as int)) {
            assert(field_wf(Field { tag, value }));
        }
    }
}

/// No fields, no bytes.
pub proof fn lemma_fields_bytes_empty()
    ensures
        fields_bytes(Seq::empty()) == Seq::<u8>::empty(),
{
    reveal(fields_bytes);
}

/// The bytes of a run of fields are the bytes of its parts, one after the other.
pub proof fn lemma_fields_bytes_concat(a: Seq<Field>, b: Seq<Field>)
    ensures
        fields_bytes(a + b) == fields_bytes(a) + fields_bytes(b),
    decreases a.len(),
{
    reveal(fields_bytes);
    if a.len() == 0 {
        assert(a + b =~= b);
        assert(fields_bytes(a) + fields_bytes(b) =~= fields_bytes(b));
    } else {
        assert((a + b).skip(1) =~= a.skip(1) + b);
        lemma_fields_bytes_concat(a.skip(1), b);
        assert(field_bytes(a[0]) + (fields_bytes(a.skip(1)) + fields_bytes(b)) =~= (field_bytes(
            a[0],
        ) + fields_bytes(a.skip(1))) + fields_bytes(b));
    }
}

/// The bytes of one field alone.
pub proof fn lemma_fields_bytes_one(f: Field)
    ensures
        fields_bytes(seq![f]) == field_bytes(f),
{
    reveal_with_fuel(fields_bytes, 2);
    assert(seq![f].skip(1) =~= Seq::<Field>::empty());
    assert(fields_bytes(seq![f].skip(1)) =~= Seq::<u8>::empty());
    assert(field_bytes(f) + Seq::<u8>::empty() =~= field_bytes(f));
}

/// A run of fields can be written exactly where its parts can.
pub proof fn lemma_fields_wf_concat(a: Seq<Field>, b: Seq<Field>)
    ensures
        fields_wf(a + b) <==> fields_wf(a) && fields_wf(b),
{
    if fields_wf(a + b) {
        assert forall|i: int| 0 <= i < a.len() implies field_wf(#[trigger] a[i]) by {
            assert((a + b)[i] == a[i]);
        }
        assert forall|i: int| 0 <= i < b.len() implies field_wf(#[trigger] b[i]) by {
            assert((a + b)[a.len() + i] == b[i]);
        }
    }
}

/// A field that was written is read back, whatever follows it.
pub proof fn lemma_parse_field(f: Field, rest: Seq<u8>, limit: nat)
    requires
        field_wf(f),
    ensures
        parse_field(field_bytes(f) + rest, limit) == Some((f, field_bytes(f).len())),
{
    let wt = wire_type(f.value);
    let k = (f.tag as nat * 8 + wt) as u64;
    let body = payload_bytes(f.value);
    let bytes = field_bytes(f) + rest;
    assert(bytes =~= varint(k as nat) + (body + rest));
    lemma_parse_varint(k, body + rest);
    let n = varint(k as nat).len();
    assert(bytes.skip(n as int) =~= body + rest);
    assert(k / 8 == f.tag && k % 8 == wt);
    match f.value {
        Payload::Varint(v) => {
            lemma_parse_varint(v, rest);
        },
        Payload::Fixed64(b) => {
            assert((body + rest).take(8) =~= b);
        },
        Payload::Bytes(b) => {
            let len = b.len() as u64;
            assert(body + rest =~= varint(len as nat) + (b + rest));
            lemma_parse_varint(len, b + rest);
            let m = varint(len as nat).len();
            assert((body + rest).subrange(m as int, m + len) =~= b);
        },
        Payload::Fixed32(b) => {
            assert((body + rest).take(4) =~= b);
        },
        Payload::Group(_) => {},
    }
}

/// The round trip of the wire format: fields that can be written are read
/// back from their bytes, in their order, whatever the limit on groups.
pub proof fn lemma_parse_fields(fs: Seq<Field>, limit: nat)
    requires
        fields_wf(fs),
    ensures
        parse_fields(fields_bytes(fs), limit) == Some(fs),
    decreases fs.len(),
{
    reveal(fields_bytes);
    if fs.len() == 0 {
        assert(fs =~= Seq::empty());
    } else {
        let f = fs[0];
        let tail = fs.skip(1);
        let rest = fields_bytes(tail);
        assert(field_wf(f));
        assert(fields_wf(tail)) by {
            assert forall|i: int| 0 <= i < tail.len() implies field_wf(#[trigger] tail[i]) by {
                assert(tail[i] == fs[i + 1]);
            }
        }
        lemma_parse_field(f, rest, limit);
        let n = field_bytes(f).len();
        lemma_parse_field_len(field_bytes(f) + rest, limit);
        assert((field_bytes(f) + rest).skip(n as int) =~= rest);
        lemma_parse_fields(tail, limit);
        assert(seq![f] + tail =~= fs);
    }
}

/// What a field that was read carries: slices of the bytes it was read from.
pub enum Chunk<'a> {
    Varint(u64),
    Fixed64(&'a [u8]),
    Bytes(&'a [u8]),
    Fixed32(&'a [u8]),
    Group(&'a [u8]),
}

impl<'a> View for Chunk<'a> {
    type V = Payload;

    open spec fn view(&self) -> Payload {
        match *self {
            Chunk::Varint(v) => Payload::Varint(v),
            Chunk::Fixed64(b) => Payload::Fixed64(b@),
            Chunk::Bytes(b) => Payload::Bytes(b@),
            Chunk::Fixed32(b) => Payload::Fixed32(b@),
            Chunk::Group(b) => Payload::Group(b@),
        }
    }
}

/// A field that was read.
pub struct RawField<'a> {
    pub tag: u32,
    pub value: Chunk<'a>,
}

impl<'a> View for RawField<'a> {
    type V = Field;

    open spec fn view(&self) -> Field {
        Field { tag: self.tag, value: self.value@ }
    }
}

/// Reads a key from the front of `bytes` and hands back its tag and wire
/// type with the bytes behind it.
pub fn take_key<'a>(bytes: &'a [u8]) -> (r: Option<(u32, u64, &'a [u8])>)
    ensures
        match r {
            Some((tag, wt, rest)) => parse_key(bytes@) matches Some((t, w, n)) && t == tag && w
                == wt && wt < 8 && 1 <= n <= bytes@.len() && rest@ == bytes@.skip(n as int),
            None => parse_key(bytes@) is None,
        },
{
    proof {
        lemma_parse_varint_len(bytes@);
    }
    match take_varint(bytes) {
        Some((k, rest)) => {
            if k > 0xffff_ffff || k / 8 == 0 {
                None
            } else {
                Some(((k / 8) as u32, k % 8, rest))
            }
        },
        None => None,
    }
}

/// Reads a payload of wire type `wt`, which is none of a group, from the
/// front of `bytes` and hands it back with the bytes behind it.
pub fn take_payload<'a>(wt: u64, bytes: &'a [u8]) -> (r: Option<(Chunk<'a>, &'a [u8])>)
    ensures
        match r {
            Some((value, rest)) => parse_payload(wt as nat, bytes@) matches Some((v, n)) && v
                == value@ && n <= bytes@.len() && rest@ == bytes@.skip(n as int),
            None => parse_payload(wt as nat, bytes@) is None,
        },
{
    proof {
        lemma_parse_varint_len(bytes@);
    }
    if wt == WIRE_VARINT {
        match take_varint(bytes) {
            Some((v, rest)) => Some((Chunk::Varint(v), rest)),
            None => None,
        }
    } else if wt == WIRE_FIXED64 {
        if bytes.len() < 8 {
            return None;
        }
        let (head, rest) = bytes.split_at(8);
        assert(head@ =~= bytes@.take(8));
        assert(rest@ =~= bytes@.skip(8));
        Some((Chunk::Fixed64(head), rest))
    } else if wt == WIRE_BYTES {
        match take_varint(bytes) {
            Some((len, after)) => {
                if len > after.len() as u64 {
                    return None;
                }
                let ghost m = varint_span(bytes@);
                let (head, rest) = after.split_at(len as usize);
                assert(head@ =~= bytes@.subrange(m as int, m + len));
                assert(rest@ =~= bytes@.skip((m + len) as int));
                Some((Chunk::Bytes(head), rest))
            },
            None => None,
        }
    } else if wt == WIRE_FIXED32 {
        if bytes.len() < 4 {
            return None;
        }
        let (head, rest) = bytes.split_at(4);
        assert(head@ =~= bytes@.take(4));
        assert(rest@ =~= bytes@.skip(4));
        Some((Chunk::Fixed32(head), rest))
    } else {
        None
    }
}

/// Passes over the group of `tag` at the front of `bytes`, which lie behind
/// the key that starts it, and hands back the bytes behind the key that
/// ends it.
pub fn skip_group<'a>(tag: u32, bytes: &'a [u8], budget: u32) -> (r: Option<&'a [u8]>)
    ensures
        match r {
            Some(rest) => group_span(tag, bytes@, budget as nat) matches Some(n) && 1 <= n
                <= bytes@.len() && rest@ == bytes@.skip(n as int),
            None => group_span(tag, bytes@, budget as nat) is None,
        },
    decreases budget,
{
    let mut rest = bytes;
    assert(rest@ =~= bytes@.skip(0));
    loop
        invariant
            rest@.len() <= bytes@.len(),
            rest@ == bytes@.skip(bytes@.len() - rest@.len()),
            group_span(tag, bytes@, budget as nat) == match group_span(
                tag,
                rest@,
                budget as nat,
            ) {
                Some(more) => Some((bytes@.len() - rest@.len() + more) as nat),
                None => None,
            },
        decreases rest@.len(),
    {
        proof {
            lemma_group_span_len(tag, rest@, budget as nat);
        }
        let (inner, wt, value) = match take_key(rest) {
            Some(key) => key,
            None => {
                return None;
            },
        };
        if wt == WIRE_END_GROUP {
            if inner == tag {
                assert(value@ =~= bytes@.skip(bytes@.len() - value@.len()));
                return Some(value);
            } else {
                return None;
            }
        }
        if budget == 0 {
            return None;
        }
        let behind = if wt == WIRE_START_GROUP {
            skip_group(inner, value, budget - 1)
        } else {
            match take_payload(wt, value) {
                Some((_, behind)) => Some(behind),
                None => None,
            }
        };
        match behind {
            Some(behind) => {
                proof {
                    let m = value@.len() - behind@.len();
                    assert(behind@ =~= value@.skip(m));
                    assert(behind@ =~= bytes@.skip(bytes@.len() - behind@.len()));
                }
                rest = behind;
            },
            None => {
                return None;
            },
        }
    }
}

/// Reads one field from the front of `bytes` and hands it back with the
/// bytes behind it, or `None` where no field stands there. `limit` is how
/// deep a group may lie here.
pub fn next_field<'a>(bytes: &'a [u8], limit: u32) -> (r: Option<(RawField<'a>, &'a [u8])>)
    ensures
        match r {
            Some((f, rest)) => parse_field(bytes@, limit as nat) matches Some((pf, n)) && pf == f@
                && 1 <= n <= bytes@.len() && rest@ == bytes@.skip(n as int),
            None => parse_field(bytes@, limit as nat) is None,
        },
{
    proof {
        lemma_parse_field_len(bytes@, limit as nat);
    }
    let (tag, wt, body) = match take_key(bytes) {
        Some(key) => key,
        None => {
            return None;
        },
    };
    let ghost n = bytes@.len() - body@.len();
    if wt == WIRE_START_GROUP {
        if limit == 0 {
            return None;
        }
        match skip_group(tag, body, limit - 1) {
            Some(rest) => {
                let (head, behind) = body.split_at(body.len() - rest.len());
                assert(head@ =~= body@.take(body@.len() - rest@.len()));
                assert(rest@ =~= bytes@.skip(bytes@.len() - rest@.len()));
                Some((RawField { tag, value: Chunk::Group(head) }, rest))
            },
            None => None,
        }
    } else {
        match take_payload(wt, body) {
            Some((value, rest)) => {
                assert(rest@ =~= bytes@.skip(bytes@.len() - rest@.len()));
                Some((RawField { tag, value }, rest))
            },
            None => None,
        }
    }
}

/// Appends a field of wire type 0.
pub fn put_varint_field(buf: &mut Vec<u8>, tag: u32, value: u64)
    ensures
        final(buf)@ == old(buf)@ + field_bytes(Field { tag, value: Payload::Varint(value) }),
{
    put_varint(buf, tag as u64 * 8 + WIRE_VARINT);
    put_varint(buf, value);
    assert(buf@ =~= old(buf)@ + field_bytes(Field { tag, value: Payload::Varint(value) }));
}

/// Appends a field of wire type 2 that carries `bytes`.
pub fn put_bytes_field(buf: &mut Vec<u8>, tag: u32, bytes: &[u8])
    ensures
        final(buf)@ == old(buf)@ + field_bytes(Field { tag, value: Payload::Bytes(bytes@) }),
        bytes@.len() <= u64::MAX,
{
    put_varint(buf, tag as u64 * 8 + WIRE_BYTES);
    put_varint(buf, bytes.len() as u64);
    let ghost before = buf@;
    buf.extend_from_slice(bytes);
    assert(buf@ =~= before + bytes@);
    assert(buf@ =~= old(buf)@ + field_bytes(Field { tag, value: Payload::Bytes(bytes@) }));
}

} // verus!
