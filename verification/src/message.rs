//! Messages: values that are written as a run of fields and read back by
//! taking in one field after the other.
//!
//! A message type says which fields stand for a value ([`Schema::fields`])
//! and what a field does to a value read so far ([`Schema::absorb`]): a field
//! it knows sets or extends a member, one it does not know is passed over,
//! and one it knows with the wrong wire type or a malformed payload refuses
//! the message. Fields may come in any order. Of a member met twice the last
//! stands; where both hold a message, the members of the later are taken
//! into the earlier. A group is a field like another: passed over under a
//! tag that the type does not know, and malformed under one that it knows,
//! since no member is a group. [`lemma_round_trip`] is the law that every
//! type proves.

use vstd::prelude::*;
use crate::scalar::optional;
use crate::wire::{
    Chunk, Field, Payload, RawField, field_bytes, field_wf, fields_bytes,
    fields_wf, lemma_fields_bytes_concat, lemma_fields_wf_concat, lemma_parse_fields, next_field,
    parse_fields, put_bytes_field,
};

verus! {

/// How a type of values lies on the wire.
pub trait Schema: Sized + View {
    /// The value with every member at its default.
    spec fn blank() -> Self::V;

    /// The value that `acc` becomes by taking in `f`, or `None` where `f`
    /// is malformed for this type.
    spec fn absorb(acc: Self::V, f: Field) -> Option<Self::V>;

    /// The fields that are written for `v`.
    spec fn fields(v: Self::V) -> Seq<Field>;

    /// `v` can be written: each of its lengths fits a length prefix.
    spec fn representable(v: Self::V) -> bool;

    /// How deep a group may lie in a message of this type, the fields in
    /// the group told. Messages and groups share one limit on how deep they
    /// lie in one another, [`RECURSION_LIMIT`](crate::wire::RECURSION_LIMIT):
    /// an envelope has all of it, what an envelope carries has one less, an
    /// item of a list in that two less, and so on down. A message is read as
    /// it lies in an envelope, also where it is read by itself. No group is
    /// written, so this bounds only what is passed over.
    spec fn group_limit() -> nat;
}

/// A type that is written and read by its [`Schema`].
pub trait Message: Schema {
    /// The fields written for a value can be written, and taking them in
    /// from the blank value gives the value back.
    proof fn lemma_fields_absorbed(v: Self::V)
        requires
            Self::representable(v),
        ensures
            fields_wf(Self::fields(v)),
            absorb_all::<Self>(Self::blank(), Self::fields(v)) == Some(v),
    ;

    /// The value with every member at its default.
    fn new() -> (m: Self)
        ensures
            m@ == Self::blank(),
    ;

    /// How deep a group may lie in a message of this type.
    fn limit() -> (n: u32)
        ensures
            n == Self::group_limit(),
    ;

    /// Takes in one field, or refuses it.
    fn merge(self, f: &RawField<'_>) -> (r: Option<Self>)
        ensures
            match r {
                Some(m) => Self::absorb(self@, f@) == Some(m@),
                None => Self::absorb(self@, f@) is None,
            },
    ;

    /// Appends the fields of `self` to `buf`.
    fn write(&self, buf: &mut Vec<u8>)
        ensures
            final(buf)@ == old(buf)@ + fields_bytes(Self::fields(self@)),
            Self::representable(self@),
    ;
}

/// Takes in the fields `fs` one after the other, starting from `acc`.
#[verifier::opaque]
pub open spec fn absorb_all<M: Schema>(acc: M::V, fs: Seq<Field>) -> Option<M::V>
    decreases fs.len(),
{
    if fs.len() == 0 {
        Some(acc)
    } else {
        match M::absorb(acc, fs[0]) {
            Some(next) => absorb_all::<M>(next, fs.skip(1)),
            None => None,
        }
    }
}

/// The bytes of a message.
pub open spec fn encode_spec<M: Schema>(v: M::V) -> Seq<u8> {
    fields_bytes(M::fields(v))
}

/// The message that `base` becomes by taking in the fields that `bytes`
/// hold: they must be a run of fields, none of them malformed for the type.
pub open spec fn merge_spec<M: Schema>(base: M::V, bytes: Seq<u8>) -> Option<M::V> {
    match parse_fields(bytes, M::group_limit()) {
        Some(fs) => absorb_all::<M>(base, fs),
        None => None,
    }
}

/// The message that `bytes` hold: they must be a run of fields, none of
/// them malformed for the type. There is no partial result.
pub open spec fn decode_spec<M: Schema>(bytes: Seq<u8>) -> Option<M::V> {
    merge_spec::<M>(M::blank(), bytes)
}

/// What an optional value holds.
pub open spec fn option_view<T: View>(o: Option<T>) -> Option<T::V> {
    match o {
        Some(x) => Some(x@),
        None => None,
    }
}

/// The payload of a field that holds a message.
pub open spec fn message_payload<M: Schema>(v: M::V) -> Payload {
    Payload::Bytes(encode_spec::<M>(v))
}

/// The message that `base` becomes by taking in the fields that a payload
/// holds.
pub open spec fn payload_merged<M: Schema>(base: M::V, value: Payload) -> Option<M::V> {
    match value {
        Payload::Bytes(b) => merge_spec::<M>(base, b),
        _ => None,
    }
}

/// The message that a payload holds.
pub open spec fn payload_message<M: Schema>(value: Payload) -> Option<M::V> {
    payload_merged::<M>(M::blank(), value)
}

/// A message that can be written and whose bytes fit a length prefix.
pub open spec fn message_fits<M: Schema>(v: M::V) -> bool {
    M::representable(v) && encode_spec::<M>(v).len() <= u64::MAX
}

/// Taking in no field leaves the value as it is.
pub proof fn lemma_absorb_all_empty<M: Schema>(acc: M::V)
    ensures
        absorb_all::<M>(acc, Seq::empty()) == Some(acc),
{
    reveal(absorb_all);
}

/// Taking in the fields `a` and then the fields `b` is taking in `a + b`.
pub proof fn lemma_absorb_all_concat<M: Schema>(acc: M::V, a: Seq<Field>, b: Seq<Field>)
    ensures
        absorb_all::<M>(acc, a + b) == match absorb_all::<M>(acc, a) {
            Some(mid) => absorb_all::<M>(mid, b),
            None => None,
        },
    decreases a.len(),
{
    reveal(absorb_all);
    if a.len() == 0 {
        assert(a + b =~= b);
    } else {
        assert((a + b).skip(1) =~= a.skip(1) + b);
        if let Some(next) = M::absorb(acc, a[0]) {
            lemma_absorb_all_concat::<M>(next, a.skip(1), b);
        }
    }
}

/// Taking in one field is one step.
pub proof fn lemma_absorb_all_one<M: Schema>(acc: M::V, f: Field)
    ensures
        absorb_all::<M>(acc, seq![f]) == M::absorb(acc, f),
{
    reveal_with_fuel(absorb_all, 2);
    assert(seq![f].skip(1) =~= Seq::<Field>::empty());
    if let Some(next) = M::absorb(acc, f) {
        assert(absorb_all::<M>(next, seq![f].skip(1)) == Some(next));
    }
}

/// Taking in the field of the first member, where it is written.
pub proof fn lemma_absorb_first<M: Schema>(start: M::V, present: bool, f: Field, next: M::V)
    requires
        present ==> field_wf(f) && M::absorb(start, f) == Some(next),
        !present ==> next == start,
    ensures
        absorb_all::<M>(start, optional(present, f)) == Some(next),
        fields_wf(optional(present, f)),
{
    if present {
        lemma_absorb_all_one::<M>(start, f);
    } else {
        lemma_absorb_all_empty::<M>(start);
    }
}

/// Taking in the fields `before` and then the field of one more member,
/// where it is written.
pub proof fn lemma_absorb_next<M: Schema>(
    start: M::V,
    before: Seq<Field>,
    mid: M::V,
    present: bool,
    f: Field,
    next: M::V,
)
    requires
        absorb_all::<M>(start, before) == Some(mid),
        fields_wf(before),
        present ==> field_wf(f) && M::absorb(mid, f) == Some(next),
        !present ==> next == mid,
    ensures
        absorb_all::<M>(start, before + optional(present, f)) == Some(next),
        fields_wf(before + optional(present, f)),
{
    lemma_absorb_all_concat::<M>(start, before, optional(present, f));
    lemma_absorb_first::<M>(mid, present, f, next);
    lemma_fields_wf_concat(before, optional(present, f));
}

/// What a buffer holds after the fields `before` and then the fields `more`
/// were appended to it.
pub proof fn lemma_appended(
    start: Seq<u8>,
    before: Seq<Field>,
    mid: Seq<u8>,
    more: Seq<Field>,
    end: Seq<u8>,
)
    requires
        mid == start + fields_bytes(before),
        end == mid + fields_bytes(more),
    ensures
        end == start + fields_bytes(before + more),
{
    lemma_fields_bytes_concat(before, more);
    assert(end =~= start + fields_bytes(before + more));
}

/// Round trip: the bytes written for a value that can be written are read
/// back as that value.
pub proof fn lemma_round_trip<M: Message>(v: M::V)
    requires
        M::representable(v),
    ensures
        decode_spec::<M>(encode_spec::<M>(v)) == Some(v),
{
    M::lemma_fields_absorbed(v);
    lemma_parse_fields(M::fields(v), M::group_limit());
}

/// The round trip of a message that is the payload of a field.
pub proof fn lemma_message_round_trip<M: Message>(v: M::V)
    requires
        M::representable(v),
    ensures
        payload_message::<M>(message_payload::<M>(v)) == Some(v),
{
    lemma_round_trip::<M>(v);
}

/// Writes a message to a buffer of its own. What is written reads back as
/// the message.
pub fn encode<M: Message>(m: &M) -> (bytes: Vec<u8>)
    ensures
        bytes@ == encode_spec::<M>(m@),
        message_fits::<M>(m@),
        decode_spec::<M>(bytes@) == Some(m@),
{
    let mut buf: Vec<u8> = Vec::new();
    m.write(&mut buf);
    assert(buf@ =~= encode_spec::<M>(m@));
    let _ = buf.len();
    proof {
        lemma_round_trip::<M>(m@);
    }
    buf
}

/// Takes the fields in `bytes` into `base`, all of them, or `None` where
/// one of them is malformed.
pub fn parse_into<M: Message>(base: M, bytes: &[u8]) -> (r: Option<M>)
    ensures
        match r {
            Some(m) => merge_spec::<M>(base@, bytes@) == Some(m@),
            None => merge_spec::<M>(base@, bytes@) is None,
        },
{
    let mut acc = base;
    let mut rest = bytes;
    let ghost mut done: Seq<Field> = Seq::empty();
    proof {
        lemma_absorb_all_empty::<M>(base@);
    }
    let limit = M::limit();
    assert(done + parse_fields(bytes@, limit as nat).unwrap() =~= parse_fields(
        bytes@,
        limit as nat,
    ).unwrap());
    while rest.len() > 0
        invariant
            absorb_all::<M>(base@, done) == Some(acc@),
            limit == M::group_limit(),
            parse_fields(bytes@, limit as nat) == match parse_fields(rest@, limit as nat) {
                Some(fs) => Some(done + fs),
                None => None,
            },
        decreases rest@.len(),
    {
        match next_field(rest, limit) {
            None => {
                return None;
            },
            Some((f, after)) => {
                proof {
                    lemma_absorb_all_concat::<M>(base@, done, seq![f@]);
                    lemma_absorb_all_one::<M>(acc@, f@);
                    if let Some(tail) = parse_fields(after@, limit as nat) {
                        assert(done + (seq![f@] + tail) =~= (done + seq![f@]) + tail);
                        lemma_absorb_all_concat::<M>(base@, done + seq![f@], tail);
                    }
                }
                match acc.merge(&f) {
                    None => {
                        return None;
                    },
                    Some(next) => {
                        acc = next;
                        proof {
                            done = done + seq![f@];
                        }
                        rest = after;
                    },
                }
            },
        }
    }
    proof {
        assert(done + Seq::<Field>::empty() =~= done);
    }
    Some(acc)
}

/// Reads a message from `bytes`, all of them, or `None` where they hold
/// none.
pub fn parse<M: Message>(bytes: &[u8]) -> (r: Option<M>)
    ensures
        match r {
            Some(m) => decode_spec::<M>(bytes@) == Some(m@),
            None => decode_spec::<M>(bytes@) is None,
        },
{
    parse_into(M::new(), bytes)
}

/// Reads the message that a payload holds.
pub fn read_message<M: Message>(value: &Chunk<'_>) -> (r: Option<M>)
    ensures
        match r {
            Some(m) => payload_message::<M>(value@) == Some(m@),
            None => payload_message::<M>(value@) is None,
        },
{
    match value {
        Chunk::Bytes(b) => parse::<M>(b),
        _ => None,
    }
}

/// Takes the fields that a payload holds into `base`.
pub fn merge_message<M: Message>(base: M, value: &Chunk<'_>) -> (r: Option<M>)
    ensures
        match r {
            Some(m) => payload_merged::<M>(base@, value@) == Some(m@),
            None => payload_merged::<M>(base@, value@) is None,
        },
{
    match value {
        Chunk::Bytes(b) => parse_into(base, b),
        _ => None,
    }
}

/// Appends a field that holds the message `m`.
pub fn put_message_field<M: Message>(buf: &mut Vec<u8>, tag: u32, m: &M)
    ensures
        final(buf)@ == old(buf)@ + field_bytes(Field { tag, value: message_payload::<M>(m@) }),
        message_fits::<M>(m@),
{
    let body = encode(m);
    put_bytes_field(buf, tag, body.as_slice());
}

} // verus!
