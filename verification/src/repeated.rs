//! Repeated members: one field per item, all under one tag, in the order of
//! the items. Taking such a field in appends an item.

use vstd::prelude::*;
use crate::message::{
    Message, Schema, absorb_all, lemma_absorb_all_concat, lemma_absorb_all_empty,
    lemma_absorb_all_one, lemma_message_round_trip, message_fits, message_payload, payload_message,
    put_message_field,
};
use crate::scalar::{lemma_text_round_trip, payload_text, put_text_field, text_fits, text_payload};
use crate::wire::{
    Field, field_wf, fields_bytes, fields_wf, lemma_fields_bytes_concat, lemma_fields_bytes_empty,
    lemma_fields_bytes_one, valid_tag,
};

verus! {

/// What the items hold, item by item.
pub open spec fn views<T: View>(items: Seq<T>) -> Seq<T::V> {
    items.map_values(|item: T| item@)
}

/// The fields of a repeated message member.
pub open spec fn repeated_fields<M: Schema>(tag: u32, items: Seq<M::V>) -> Seq<Field> {
    Seq::new(items.len(), |i: int| Field { tag, value: message_payload::<M>(items[i]) })
}

/// The fields of a repeated text member.
pub open spec fn repeated_text_fields(tag: u32, items: Seq<Seq<char>>) -> Seq<Field> {
    Seq::new(items.len(), |i: int| Field { tag, value: text_payload(items[i]) })
}

/// Each item can be written as the payload of a field.
pub open spec fn all_fit<M: Schema>(items: Seq<M::V>) -> bool {
    forall|i: int| 0 <= i < items.len() ==> message_fits::<M>(#[trigger] items[i])
}

/// Each text fits a length prefix.
pub open spec fn all_text_fits(items: Seq<Seq<char>>) -> bool {
    forall|i: int| 0 <= i < items.len() ==> text_fits(#[trigger] items[i])
}

/// A type `C` that takes in a field under `tag` by appending the message in
/// it to what `holding` is made of.
pub open spec fn appends_messages<C: Schema, M: Schema>(
    tag: u32,
    holding: spec_fn(Seq<M::V>) -> C::V,
) -> bool {
    forall|s: Seq<M::V>, f: Field|
        f.tag == tag ==> #[trigger] C::absorb(holding(s), f) == match payload_message::<M>(
            f.value,
        ) {
            Some(x) => Some(holding(s.push(x))),
            None => None,
        }
}

/// A type `C` that takes in a field under `tag` by appending the text in it
/// to what `holding` is made of.
pub open spec fn appends_text<C: Schema>(
    tag: u32,
    holding: spec_fn(Seq<Seq<char>>) -> C::V,
) -> bool {
    forall|s: Seq<Seq<char>>, f: Field|
        f.tag == tag ==> #[trigger] C::absorb(holding(s), f) == match payload_text(f.value) {
            Some(x) => Some(holding(s.push(x))),
            None => None,
        }
}

proof fn lemma_repeated_prefix<C: Schema, M: Message>(
    tag: u32,
    items: Seq<M::V>,
    holding: spec_fn(Seq<M::V>) -> C::V,
    k: int,
)
    requires
        valid_tag(tag),
        all_fit::<M>(items),
        appends_messages::<C, M>(tag, holding),
        0 <= k <= items.len(),
    ensures
        fields_wf(repeated_fields::<M>(tag, items).take(k)),
        absorb_all::<C>(holding(Seq::empty()), repeated_fields::<M>(tag, items).take(k)) == Some(
            holding(items.take(k)),
        ),
    decreases k,
{
    let all = repeated_fields::<M>(tag, items);
    if k == 0 {
        assert(all.take(0) =~= Seq::<Field>::empty());
        assert(items.take(0) =~= Seq::<M::V>::empty());
        lemma_absorb_all_empty::<C>(holding(Seq::empty()));
    } else {
        lemma_repeated_prefix::<C, M>(tag, items, holding, k - 1);
        let f = all[k - 1];
        let x = items[k - 1];
        assert(all.take(k) =~= all.take(k - 1) + seq![f]);
        assert(items.take(k) =~= items.take(k - 1).push(x));
        assert(message_fits::<M>(x));
        lemma_message_round_trip::<M>(x);
        lemma_absorb_all_concat::<C>(holding(Seq::empty()), all.take(k - 1), seq![f]);
        lemma_absorb_all_one::<C>(holding(items.take(k - 1)), f);
        assert(field_wf(f));
    }
}

/// The round trip of a repeated message member: its fields, taken in from
/// the value that holds no item, give the value that holds all of them.
pub proof fn lemma_repeated_absorbed<C: Schema, M: Message>(
    tag: u32,
    items: Seq<M::V>,
    holding: spec_fn(Seq<M::V>) -> C::V,
)
    requires
        valid_tag(tag),
        all_fit::<M>(items),
        appends_messages::<C, M>(tag, holding),
    ensures
        fields_wf(repeated_fields::<M>(tag, items)),
        absorb_all::<C>(holding(Seq::empty()), repeated_fields::<M>(tag, items)) == Some(
            holding(items),
        ),
{
    let all = repeated_fields::<M>(tag, items);
    lemma_repeated_prefix::<C, M>(tag, items, holding, items.len() as int);
    assert(all.take(items.len() as int) =~= all);
    assert(items.take(items.len() as int) =~= items);
}

proof fn lemma_repeated_text_prefix<C: Schema>(
    tag: u32,
    items: Seq<Seq<char>>,
    holding: spec_fn(Seq<Seq<char>>) -> C::V,
    k: int,
)
    requires
        valid_tag(tag),
        all_text_fits(items),
        appends_text::<C>(tag, holding),
        0 <= k <= items.len(),
    ensures
        fields_wf(repeated_text_fields(tag, items).take(k)),
        absorb_all::<C>(holding(Seq::empty()), repeated_text_fields(tag, items).take(k)) == Some(
            holding(items.take(k)),
        ),
    decreases k,
{
    let all = repeated_text_fields(tag, items);
    if k == 0 {
        assert(all.take(0) =~= Seq::<Field>::empty());
        assert(items.take(0) =~= Seq::<Seq<char>>::empty());
        lemma_absorb_all_empty::<C>(holding(Seq::empty()));
    } else {
        lemma_repeated_text_prefix::<C>(tag, items, holding, k - 1);
        let f = all[k - 1];
        let x = items[k - 1];
        assert(all.take(k) =~= all.take(k - 1) + seq![f]);
        assert(items.take(k) =~= items.take(k - 1).push(x));
        assert(text_fits(x));
        lemma_text_round_trip(x);
        lemma_absorb_all_concat::<C>(holding(Seq::empty()), all.take(k - 1), seq![f]);
        lemma_absorb_all_one::<C>(holding(items.take(k - 1)), f);
        assert(field_wf(f));
    }
}

/// The round trip of a repeated text member.
pub proof fn lemma_repeated_text_absorbed<C: Schema>(
    tag: u32,
    items: Seq<Seq<char>>,
    holding: spec_fn(Seq<Seq<char>>) -> C::V,
)
    requires
        valid_tag(tag),
        all_text_fits(items),
        appends_text::<C>(tag, holding),
    ensures
        fields_wf(repeated_text_fields(tag, items)),
        absorb_all::<C>(holding(Seq::empty()), repeated_text_fields(tag, items)) == Some(
            holding(items),
        ),
{
    let all = repeated_text_fields(tag, items);
    lemma_repeated_text_prefix::<C>(tag, items, holding, items.len() as int);
    assert(all.take(items.len() as int) =~= all);
    assert(items.take(items.len() as int) =~= items);
}

/// Appends one field per item.
pub fn put_repeated<M: Message>(buf: &mut Vec<u8>, tag: u32, items: &Vec<M>)
    ensures
        final(buf)@ == old(buf)@ + fields_bytes(repeated_fields::<M>(tag, views(items@))),
        all_fit::<M>(views(items@)),
{
    let ghost all = repeated_fields::<M>(tag, views(items@));
    let mut i: usize = 0;
    proof {
        lemma_fields_bytes_empty();
        assert(all.take(0) =~= Seq::<Field>::empty());
        assert(buf@ =~= old(buf)@ + fields_bytes(all.take(0)));
    }
    while i < items.len()
        invariant
            0 <= i <= items.len(),
            all == repeated_fields::<M>(tag, views(items@)),
            buf@ == old(buf)@ + fields_bytes(all.take(i as int)),
            forall|j: int| 0 <= j < i ==> message_fits::<M>(#[trigger] views(items@)[j]),
        decreases items.len() - i,
    {
        let ghost before = buf@;
        put_message_field(buf, tag, &items[i]);
        proof {
            let f = all[i as int];
            assert(f == Field { tag, value: message_payload::<M>(items[i as int]@) });
            assert(all.take(i + 1) =~= all.take(i as int) + seq![f]);
            lemma_fields_bytes_concat(all.take(i as int), seq![f]);
            lemma_fields_bytes_one(f);
            assert(buf@ =~= old(buf)@ + fields_bytes(all.take(i + 1)));
        }
        i += 1;
    }
    assert(all.take(i as int) =~= all);
}

/// Appends one text field per item, empty texts too.
pub fn put_repeated_text(buf: &mut Vec<u8>, tag: u32, items: &Vec<String>)
    ensures
        final(buf)@ == old(buf)@ + fields_bytes(repeated_text_fields(tag, views(items@))),
        all_text_fits(views(items@)),
{
    let ghost all = repeated_text_fields(tag, views(items@));
    let mut i: usize = 0;
    proof {
        lemma_fields_bytes_empty();
        assert(all.take(0) =~= Seq::<Field>::empty());
        assert(buf@ =~= old(buf)@ + fields_bytes(all.take(0)));
    }
    while i < items.len()
        invariant
            0 <= i <= items.len(),
            all == repeated_text_fields(tag, views(items@)),
            buf@ == old(buf)@ + fields_bytes(all.take(i as int)),
            forall|j: int| 0 <= j < i ==> text_fits(#[trigger] views(items@)[j]),
        decreases items.len() - i,
    {
        put_text_field(buf, tag, items[i].as_str());
        proof {
            let f = all[i as int];
            assert(f == Field { tag, value: text_payload(items[i as int]@) });
            assert(all.take(i + 1) =~= all.take(i as int) + seq![f]);
            lemma_fields_bytes_concat(all.take(i as int), seq![f]);
            lemma_fields_bytes_one(f);
            assert(buf@ =~= old(buf)@ + fields_bytes(all.take(i + 1)));
        }
        i += 1;
    }
    assert(all.take(i as int) =~= all);
}

} // verus!
