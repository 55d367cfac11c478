//! What the command dispatcher decides: which payload a round trip gave,
//! and what each operation makes of a payload.
//!
//! An operation expects one variant of payload, and that holds of every
//! operation: one that asks no more than that the worker reported back
//! expects a status, whichever. Any other variant, and no payload at all, is
//! no error: it gives the default of the operation (`false`, an empty list,
//! `None`). A mismatch between client and worker is
//! therefore silent. The lenience is deliberate: callers probe with these
//! operations and expect a plain negative, not an error. It can hide a worker
//! that speaks another version of the protocol.
//! [`lemma_mismatch_gives_default`] states it.

use std::collections::HashMap;
use vstd::prelude::*;
use crate::codec::decode_response;
use crate::error::{Cause, Error};
use crate::message::{Schema, decode_spec, encode_spec, lemma_round_trip, option_view};
use crate::repeated::views;
use crate::transport::{TransportError, outcome_view};
use crate::wcf::response::{Msg, MsgView};
use crate::wcf::{
    DbRow, DbRowView, DbTable, DbTableView, MsgTypeView, Response, ResponseView, RpcContacts,
    RpcContactsView, UserInfo, UserInfoView, WxMsg, WxMsgView,
};

verus! {

/// The payload that a round trip gave, or how it failed: a failure of the
/// transport keeps its cause, and a reply that is no response fails as
/// [`Cause::SerializationFailed`].
pub open spec fn payload_of(outcome: Result<Seq<u8>, TransportError>) -> Result<
    Option<MsgView>,
    Error,
> {
    match outcome {
        Ok(bytes) => match decode_spec::<Response>(bytes) {
            Some(response) => Ok(response.msg),
            None => Err(Error::CommunicationFailed(Cause::SerializationFailed)),
        },
        Err(TransportError::SendFailed) => Err(Error::CommunicationFailed(Cause::SendFailed)),
        Err(TransportError::RecvFailed) => Err(Error::CommunicationFailed(Cause::RecvFailed)),
        Err(TransportError::ConnectFailed) => Err(Error::ConnectFailed),
    }
}

/// What the payload of a round trip holds.
pub open spec fn reply_view(reply: Result<Option<Msg>, Error>) -> Result<Option<MsgView>, Error> {
    match reply {
        Ok(payload) => Ok(option_view(payload)),
        Err(e) => Err(e),
    }
}

/// Ends a round trip: reads the reply and hands back its payload.
pub fn conclude(outcome: Result<Vec<u8>, TransportError>) -> (reply: Result<Option<Msg>, Error>)
    ensures
        reply_view(reply) == payload_of(outcome_view(outcome)),
{
    match outcome {
        Ok(bytes) => match decode_response(bytes.as_slice()) {
            Ok(response) => Ok(response.msg),
            Err(_) => Err(Error::CommunicationFailed(Cause::SerializationFailed)),
        },
        Err(TransportError::SendFailed) => Err(Error::CommunicationFailed(Cause::SendFailed)),
        Err(TransportError::RecvFailed) => Err(Error::CommunicationFailed(Cause::RecvFailed)),
        Err(TransportError::ConnectFailed) => Err(Error::ConnectFailed),
    }
}

/// A reply that is the bytes of a response gives the payload of that
/// response.
pub proof fn lemma_reply_gives_payload(response: ResponseView)
    requires
        Response::representable(response),
    ensures
        payload_of(Ok(encode_spec::<Response>(response))) == Ok::<Option<MsgView>, Error>(
            response.msg,
        ),
{
    lemma_round_trip::<Response>(response);
}

/// The payload is the status 1.
pub open spec fn confirms(payload: Option<MsgView>) -> bool {
    payload == Some(MsgView::Status(1))
}

/// The payload is a status, whichever.
pub open spec fn reports(payload: Option<MsgView>) -> bool {
    payload matches Some(MsgView::Status(_))
}

/// The payload is a status other than -1.
pub open spec fn accepts(payload: Option<MsgView>) -> bool {
    payload matches Some(MsgView::Status(status)) && status != -1
}

/// The text in the payload.
pub open spec fn text_in(payload: Option<MsgView>) -> Option<Seq<char>> {
    match payload {
        Some(MsgView::Str(text)) => Some(text),
        _ => None,
    }
}

/// The account in the payload.
pub open spec fn user_info_in(payload: Option<MsgView>) -> Option<UserInfoView> {
    match payload {
        Some(MsgView::Ui(info)) => Some(info),
        _ => None,
    }
}

/// The contacts in the payload.
pub open spec fn contacts_in(payload: Option<MsgView>) -> Option<RpcContactsView> {
    match payload {
        Some(MsgView::Contacts(contacts)) => Some(contacts),
        _ => None,
    }
}

/// The names of databases in the payload.
pub open spec fn names_in(payload: Option<MsgView>) -> Seq<Seq<char>> {
    match payload {
        Some(MsgView::Dbs(dbs)) => dbs.names,
        _ => Seq::empty(),
    }
}

/// The tables in the payload.
pub open spec fn tables_in(payload: Option<MsgView>) -> Seq<DbTableView> {
    match payload {
        Some(MsgView::Tables(tables)) => tables.tables,
        _ => Seq::empty(),
    }
}

/// The rows in the payload.
pub open spec fn rows_in(payload: Option<MsgView>) -> Seq<DbRowView> {
    match payload {
        Some(MsgView::Rows(rows)) => rows.rows,
        _ => Seq::empty(),
    }
}

/// The names by type that the entries give: of two entries with one key the
/// later stands.
pub open spec fn names_by_type(entries: Seq<MsgTypeView>) -> Map<i32, Seq<char>>
    decreases entries.len(),
{
    if entries.len() == 0 {
        Map::empty()
    } else {
        names_by_type(entries.drop_last()).insert(entries.last().key, entries.last().value)
    }
}

/// The names of the types of message in the payload.
pub open spec fn types_in(payload: Option<MsgView>) -> Map<i32, Seq<char>> {
    match payload {
        Some(MsgView::Types(types)) => names_by_type(types.types),
        _ => Map::empty(),
    }
}

/// The pushed message in the payload.
pub open spec fn event_in(payload: Option<MsgView>) -> Option<WxMsgView> {
    match payload {
        Some(MsgView::Wxmsg(message)) => Some(message),
        _ => None,
    }
}

/// A payload of another variant than the one an operation expects, and no
/// payload, give the operation's default: `false`, an empty list, `None`.
pub proof fn lemma_mismatch_gives_default(payload: Option<MsgView>)
    ensures
        !(payload matches Some(MsgView::Status(_))) ==> !confirms(payload) && !accepts(payload)
            && !reports(payload),
        !(payload matches Some(MsgView::Str(_))) ==> text_in(payload) is None,
        !(payload matches Some(MsgView::Ui(_))) ==> user_info_in(payload) is None,
        !(payload matches Some(MsgView::Contacts(_))) ==> contacts_in(payload) is None,
        !(payload matches Some(MsgView::Dbs(_))) ==> names_in(payload) == Seq::<
            Seq<char>,
        >::empty(),
        !(payload matches Some(MsgView::Tables(_))) ==> tables_in(payload) == Seq::<
            DbTableView,
        >::empty(),
        !(payload matches Some(MsgView::Rows(_))) ==> rows_in(payload) == Seq::<
            DbRowView,
        >::empty(),
        !(payload matches Some(MsgView::Types(_))) ==> types_in(payload) == Map::<
            i32,
            Seq<char>,
        >::empty(),
        !(payload matches Some(MsgView::Wxmsg(_))) ==> event_in(payload) is None,
{
}

/// Whether the worker confirmed: the payload is the status 1.
pub fn confirmed(payload: &Option<Msg>) -> (b: bool)
    ensures
        b == confirms(option_view(*payload)),
{
    match payload {
        Some(Msg::Status(status)) => *status == 1,
        _ => false,
    }
}

/// Whether the worker accepted: the payload is a status other than -1.
pub fn accepted(payload: &Option<Msg>) -> (b: bool)
    ensures
        b == accepts(option_view(*payload)),
{
    match payload {
        Some(Msg::Status(status)) => *status != -1,
        _ => false,
    }
}

/// Whether the worker reported back: the payload is a status, whichever.
pub fn reported(payload: &Option<Msg>) -> (b: bool)
    ensures
        b == reports(option_view(*payload)),
{
    match payload {
        Some(Msg::Status(_)) => true,
        _ => false,
    }
}

/// What a round trip says to a request that must be confirmed: a failure
/// stays what it is, and a response without payload is the worker's refusal.
pub open spec fn acknowledgement(reply: Result<Option<MsgView>, Error>) -> Result<(), Error> {
    match reply {
        Ok(Some(_)) => Ok(()),
        Ok(None) => Err(Error::RemoteFailed),
        Err(e) => Err(e),
    }
}

/// Whether the worker confirmed a request that must be confirmed.
pub fn acknowledged(reply: &Result<Option<Msg>, Error>) -> (r: Result<(), Error>)
    ensures
        r == acknowledgement(reply_view(*reply)),
{
    match reply {
        Ok(Some(_)) => Ok(()),
        Ok(None) => Err(Error::RemoteFailed),
        Err(e) => Err(*e),
    }
}

/// The text that the worker answered with.
pub fn take_text(payload: Option<Msg>) -> (text: Option<String>)
    ensures
        option_view(text) == text_in(option_view(payload)),
{
    match payload {
        Some(Msg::Str(text)) => Some(text),
        _ => None,
    }
}

/// The account that the worker answered with.
pub fn take_user_info(payload: Option<Msg>) -> (info: Option<UserInfo>)
    ensures
        option_view(info) == user_info_in(option_view(payload)),
{
    match payload {
        Some(Msg::Ui(info)) => Some(info),
        _ => None,
    }
}

/// The contacts that the worker answered with.
pub fn take_contacts(payload: Option<Msg>) -> (contacts: Option<RpcContacts>)
    ensures
        option_view(contacts) == contacts_in(option_view(payload)),
{
    match payload {
        Some(Msg::Contacts(contacts)) => Some(contacts),
        _ => None,
    }
}

/// The names of databases that the worker answered with.
pub fn take_names(payload: Option<Msg>) -> (names: Vec<String>)
    ensures
        views(names@) == names_in(option_view(payload)),
{
    match payload {
        Some(Msg::Dbs(dbs)) => dbs.names,
        _ => {
            let names: Vec<String> = Vec::new();
            assert(views(names@) =~= Seq::<Seq<char>>::empty());
            names
        },
    }
}

/// The tables that the worker answered with.
pub fn take_tables(payload: Option<Msg>) -> (tables: Vec<DbTable>)
    ensures
        views(tables@) == tables_in(option_view(payload)),
{
    match payload {
        Some(Msg::Tables(tables)) => tables.tables,
        _ => {
            let tables: Vec<DbTable> = Vec::new();
            assert(views(tables@) =~= Seq::<DbTableView>::empty());
            tables
        },
    }
}

/// The rows that the worker answered with.
pub fn take_rows(payload: Option<Msg>) -> (rows: Vec<DbRow>)
    ensures
        views(rows@) == rows_in(option_view(payload)),
{
    match payload {
        Some(Msg::Rows(rows)) => rows.rows,
        _ => {
            let rows: Vec<DbRow> = Vec::new();
            assert(views(rows@) =~= Seq::<DbRowView>::empty());
            rows
        },
    }
}

/// What a map of names holds.
pub open spec fn names_view(names: HashMap<i32, String>) -> Map<i32, Seq<char>> {
    names@.map_values(|name: String| name@)
}

/// The names of the types of message that the worker answered with.
pub fn take_types(payload: Option<Msg>) -> (names: HashMap<i32, String>)
    ensures
        names_view(names) == types_in(option_view(payload)),
{
    broadcast use vstd::std_specs::hash::group_hash_axioms;

    let mut names: HashMap<i32, String> = HashMap::new();
    assert(names_view(names) =~= Map::<i32, Seq<char>>::empty());
    match payload {
        Some(Msg::Types(types)) => {
            let entries = types.types;
            let ghost all = views(entries@);
            let mut i: usize = 0;
            assert(all.take(0) =~= Seq::<MsgTypeView>::empty());
            while i < entries.len()
                invariant
                    0 <= i <= entries.len(),
                    all == views(entries@),
                    names_view(names) == names_by_type(all.take(i as int)),
                decreases entries.len() - i,
            {
                let ghost before = names_view(names);
                let key: i32 = entries[i].key;
                let value = entries[i].value.clone();
                names.insert(key, value);
                proof {
                    let prefix = all.take(i + 1);
                    assert(prefix.drop_last() =~= all.take(i as int));
                    assert(prefix.last() == all[i as int]);
                    assert(names_view(names) =~= before.insert(key, value@));
                }
                i += 1;
            }
            assert(all.take(i as int) =~= all);
            names
        },
        _ => names,
    }
}

/// The pushed message in the payload; any other payload is passed over.
pub fn take_event(payload: Option<Msg>) -> (event: Option<WxMsg>)
    ensures
        option_view(event) == event_in(option_view(payload)),
{
    match payload {
        Some(Msg::Wxmsg(message)) => Some(message),
        _ => None,
    }
}

/// What one poll of the subscription channel gives, by what was received:
/// silence is no event, bytes that are no response are an error, and of the
/// responses only a pushed message is an event.
pub open spec fn event_of(received: Option<Seq<u8>>) -> Result<Option<WxMsgView>, Error> {
    match received {
        Some(bytes) => match decode_spec::<Response>(bytes) {
            Some(response) => Ok(event_in(response.msg)),
            None => Err(Error::MalformedMessage),
        },
        None => Ok(None),
    }
}

/// Of the responses that are received only the pushed messages are events:
/// the bytes of a response give the pushed message in it, and no event where
/// it holds anything else.
pub proof fn lemma_pushed_message_is_the_event(response: ResponseView)
    requires
        Response::representable(response),
    ensures
        event_of(Some(encode_spec::<Response>(response))) == Ok::<Option<WxMsgView>, Error>(
            event_in(response.msg),
        ),
        !(response.msg matches Some(MsgView::Wxmsg(_))) ==> event_of(
            Some(encode_spec::<Response>(response)),
        ) == Ok::<Option<WxMsgView>, Error>(None),
{
    lemma_round_trip::<Response>(response);
}

/// What an event holds.
pub open spec fn event_view(event: Result<Option<WxMsg>, Error>) -> Result<
    Option<WxMsgView>,
    Error,
> {
    match event {
        Ok(message) => Ok(option_view(message)),
        Err(e) => Err(e),
    }
}

/// Ends one poll: reads what was received and hands back the event in it.
pub fn read_event(received: Option<Vec<u8>>) -> (event: Result<Option<WxMsg>, Error>)
    ensures
        event_view(event) == event_of(option_view(received)),
{
    match received {
        Some(bytes) => match decode_response(bytes.as_slice()) {
            Ok(response) => Ok(take_event(response.msg)),
            Err(e) => Err(e),
        },
        None => Ok(None),
    }
}

} // verus!
