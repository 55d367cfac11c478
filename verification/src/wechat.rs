//! The session with the worker and the operations on it.
//!
//! Every operation is one request and one response on the session's primary
//! socket: its request is built by the function named after it in
//! [`requests`](crate::requests), the round trip is [`send_cmd`], and what it
//! hands back is what [`dispatch`](crate::dispatch) makes of the payload. The
//! socket decides how a round trip ends, so the contract of an operation
//! says which request went to the socket and what the operation makes of the
//! outcome of that [`round_trip`]; it promises a value only where the socket
//! has no say.
//!
//! The subscription is a second socket, dialed by [`enable_listen`] and
//! polled by [`recv_msg`]. The session is subscribed or it is not; no
//! failure leaves it in between.

use std::collections::HashMap;
use vstd::prelude::*;
use vstd::string::StringExecFns;
use crate::codec::encode_request;
use crate::dispatch::{
    accepted, accepts, acknowledged, acknowledgement, conclude, confirmed, confirms, contacts_in,
    event_of, event_view, names_in, names_view, payload_of, read_event, reply_view, reported,
    reports, rows_in, tables_in, take_contacts, take_names, take_rows, take_tables, take_text,
    take_types, take_user_info, text_in, types_in, user_info_in,
};
use crate::error::Error;
use crate::message::{encode_spec, option_view};
use crate::repeated::views;
use crate::requests::{
    accept_new_friend_asks, accept_new_friend_request, add_chatroom_members_asks,
    add_chatroom_members_request, decrypt_image_asks, decrypt_image_request,
    del_chatroom_members_asks, del_chatroom_members_request, disable_listen_asks,
    disable_listen_request, enable_listen_asks, enable_listen_request, exec_db_query_asks,
    exec_db_query_request, get_contacts_asks, get_contacts_request, get_db_names_asks,
    get_db_names_request, get_db_tables_asks, get_db_tables_request, get_msg_types_asks,
    get_msg_types_request, get_self_wx_id_asks, get_self_wx_id_request, get_user_info_asks,
    get_user_info_request, is_login_asks, is_login_request, recv_transfer_asks,
    recv_transfer_request, refresh_pyq_asks, refresh_pyq_request, send_emotion_asks,
    send_emotion_request, send_file_asks, send_file_request, send_image_asks, send_image_request,
    send_text_asks, send_text_request, send_xml_asks, send_xml_request,
};
use crate::transport::{
    Socket, TransportError, call, closed, connect, exchanged, opened, outcome_view, received,
};
use crate::wcf::response::Msg;
use crate::wcf::{DbRow, DbTable, Request, RequestView, RpcContacts, UserInfoView, WxMsg};

verus! {

/// Where the worker takes requests.
pub const DEFAULT_URL: &'static str = "tcp://127.0.0.1:10086";

/// Where the worker pushes the messages that the account receives.
pub const LISTEN_URL: &'static str = "tcp://127.0.0.1:10087";

/// A session with the worker.
#[derive(Clone, Debug)]
pub struct WeChat<S> {
    /// Where the worker takes requests.
    pub url: String,
    /// Where the worker pushes messages.
    pub listen_url: String,
    /// Where the worker's program lies.
    pub wcf_path: String,
    /// Whether the worker was started for debugging.
    pub debug: bool,
    /// The primary socket: every operation goes through it.
    pub socket: S,
    /// Whether the session is subscribed to the messages that the account
    /// receives.
    pub listening: bool,
    /// Whether friend requests are accepted as they come.
    pub enable_accept_firend: bool,
    /// The socket of the subscription: there while the session is subscribed.
    pub listener: Option<S>,
}

/// The account that is logged in.
#[derive(Clone, Debug)]
pub struct UserInfo {
    pub wxid: String,
    pub name: String,
    pub mobile: String,
    pub home: String,
}

impl View for UserInfo {
    type V = UserInfoView;

    open spec fn view(&self) -> UserInfoView {
        UserInfoView {
            wxid: self.wxid@,
            name: self.name@,
            mobile: self.mobile@,
            home: self.home@,
        }
    }
}

impl<S> WeChat<S> {
    /// The subscription's socket is there exactly while the session is
    /// subscribed.
    pub open spec fn wf(&self) -> bool {
        self.listening <==> self.listener is Some
    }

    /// Everything but the primary socket is as it was in `before`.
    pub open spec fn settled(&self, before: &Self) -> bool {
        &&& self.url == before.url
        &&& self.listen_url == before.listen_url
        &&& self.wcf_path == before.wcf_path
        &&& self.debug == before.debug
        &&& self.listening == before.listening
        &&& self.enable_accept_firend == before.enable_accept_firend
        &&& self.listener == before.listener
    }

    /// The settings are as they were in `before`: everything but the sockets
    /// and the subscription.
    pub open spec fn same_settings(&self, before: &Self) -> bool {
        &&& self.url == before.url
        &&& self.listen_url == before.listen_url
        &&& self.wcf_path == before.wcf_path
        &&& self.debug == before.debug
        &&& self.enable_accept_firend == before.enable_accept_firend
    }
}

/// The channel of a session that was opened, or the failure that kept it
/// from being opened.
pub open spec fn channel_of<S>(r: Result<WeChat<S>, Error>) -> Result<S, TransportError> {
    match r {
        Ok(wechat) => Ok(wechat.socket),
        Err(_) => Err(TransportError::ConnectFailed),
    }
}

impl<S: Socket> WeChat<S> {
    /// Opens a session with the worker that takes requests at `url` and
    /// pushes messages at `listen_url`. The session is not subscribed. Its
    /// primary socket is the channel that was opened to `url`, as [`opened`]
    /// states it.
    pub fn open(
        url: String,
        listen_url: String,
        debug: bool,
        wcf_path: String,
    ) -> (r: Result<Self, Error>)
        ensures
            match r {
                Ok(wechat) => {
                    &&& wechat.url == url
                    &&& wechat.listen_url == listen_url
                    &&& wechat.wcf_path == wcf_path
                    &&& wechat.debug == debug
                    &&& !wechat.listening
                    &&& !wechat.enable_accept_firend
                    &&& wechat.listener is None
                    &&& wechat.wf()
                },
                Err(e) => e == Error::ConnectFailed,
            },
            exists|made: Option<S>, recv: &mut S, send: &mut S, dial: &mut S| #[trigger]
                opened(
                    made,
                    recv,
                    *final(recv),
                    send,
                    *final(send),
                    dial,
                    *final(dial),
                    url@,
                    channel_of(r),
                ),
    {
        match connect::<S>(url.as_str()) {
            Ok(socket) => Ok(
                WeChat {
                    url,
                    listen_url,
                    wcf_path,
                    debug,
                    socket,
                    listening: false,
                    enable_accept_firend: false,
                    listener: None,
                },
            ),
            Err(_) => Err(Error::ConnectFailed),
        }
    }

    /// Opens a session with the worker whose program lies at `wcf_path`, at
    /// the two default addresses: its primary socket is the channel that was
    /// opened to [`DEFAULT_URL`].
    pub fn new(debug: bool, wcf_path: String) -> (r: Result<Self, Error>)
        ensures
            match r {
                Ok(wechat) => {
                    &&& wechat.url@ == DEFAULT_URL@
                    &&& wechat.listen_url@ == LISTEN_URL@
                    &&& wechat.wcf_path == wcf_path
                    &&& wechat.debug == debug
                    &&& !wechat.listening
                    &&& !wechat.enable_accept_firend
                    &&& wechat.listener is None
                    &&& wechat.wf()
                },
                Err(e) => e == Error::ConnectFailed,
            },
            exists|made: Option<S>, recv: &mut S, send: &mut S, dial: &mut S| #[trigger]
                opened(
                    made,
                    recv,
                    *final(recv),
                    send,
                    *final(send),
                    dial,
                    *final(dial),
                    DEFAULT_URL@,
                    channel_of(r),
                ),
    {
        Self::open(String::from_str(DEFAULT_URL), String::from_str(LISTEN_URL), debug, wcf_path)
    }
}

/// The arguments that start the worker: `start`, the port of
/// [`DEFAULT_URL`], and `debug` where asked for.
pub fn start_args(debug: bool) -> (args: Vec<&'static str>)
    ensures
        args@.len() == if debug {
            3int
        } else {
            2int
        },
        args@[0]@ == "start"@,
        args@[1]@ == "10086"@,
        debug ==> args@[2]@ == "debug"@,
{
    let mut args: Vec<&'static str> = Vec::new();
    args.push("start");
    args.push("10086");
    if debug {
        args.push("debug");
    }
    args
}

/// Ends the session: unsubscribes, whatever the worker says to that, and
/// closes the primary socket. No socket of a subscription is left behind.
///
/// The contract says of the sockets' calls that `close` was called on the
/// subscription's socket, where there was one, and then on the primary
/// socket, and that the primary socket was till then as the session held it
/// or, in a session that was subscribed, as the request to stop left it.
pub fn stop<S: Socket>(wechat: &mut WeChat<S>)
    ensures
        !final(wechat).listening,
        final(wechat).listener is None,
        final(wechat).wf(),
        final(wechat).same_settings(old(wechat)),
        old(wechat).listener matches Some(client) ==> exists|closing: &mut S|
            *closing == client && #[trigger] closed(closing),
        exists|closing: &mut S|
            #[trigger] closed(closing) && final(wechat).socket == *final(closing) && (
            !old(wechat).listening ==> *closing == old(wechat).socket) && (old(wechat).listening
                ==> exists|send: &mut S, recv: &mut S, asked: Result<Seq<u8>, TransportError>|
                #[trigger] exchanged(
                    old(wechat).socket,
                    send,
                    *final(send),
                    recv,
                    *final(recv),
                    *closing,
                    encode_spec::<Request>(disable_listen_asks()),
                    asked,
                )),
{
    let ghost before = *wechat;
    let _ = disable_listen(wechat);
    let ghost between = *wechat;
    match wechat.listener.take() {
        Some(mut client) => {
            let ghost kept = client;
            client.close();
            let ghost closing = choose|closing: &mut S|
                *closing == kept && #[trigger] call_ensures(S::close, (closing,), ());
            assert(closed(closing));
        },
        None => {},
    }
    wechat.socket.close();
    let ghost closing = choose|closing: &mut S|
        *closing == between.socket && #[trigger] call_ensures(S::close, (closing,), ())
            && *final(closing) == wechat.socket;
    assert(closed(closing));
    proof {
        if before.listening {
            let (send, recv, asked) = choose|
                send: &mut S,
                recv: &mut S,
                asked: Result<Seq<u8>, TransportError>,
            |
                #[trigger] round_trip(
                    before,
                    send,
                    *final(send),
                    recv,
                    *final(recv),
                    between,
                    disable_listen_asks(),
                    asked,
                );
            assert(exchanged(
                before.socket,
                send,
                *final(send),
                recv,
                *final(recv),
                *closing,
                encode_spec::<Request>(disable_listen_asks()),
                asked,
            ));
        }
    }
}

/// One round trip on the session's primary socket, said of the socket's
/// calls: the bytes of `request` were handed to `send`, and `outcome` is how
/// the exchange ended, as [`exchanged`] states it. `before` and `after` are
/// the session before and after it.
pub open spec fn round_trip<S: Socket>(
    before: WeChat<S>,
    send: &mut S,
    sent_after: S,
    recv: &mut S,
    recv_after: S,
    after: WeChat<S>,
    request: RequestView,
    outcome: Result<Seq<u8>, TransportError>,
) -> bool {
    exchanged(
        before.socket,
        send,
        sent_after,
        recv,
        recv_after,
        after.socket,
        encode_spec::<Request>(request),
        outcome,
    )
}

/// One round trip on the primary socket: writes `req`, sends it, waits for
/// the reply and hands back the payload of the response in it. Nothing is
/// tried twice.
///
/// The contract says it of the socket's calls: there was one
/// [`round_trip`] of `req`, and what is handed back is what
/// [`payload_of`](crate::dispatch::payload_of) makes of its outcome.
pub fn send_cmd<S: Socket>(
    wechat: &mut WeChat<S>,
    req: Request,
) -> (reply: Result<Option<Msg>, Error>)
    ensures
        final(wechat).settled(old(wechat)),
        reply matches Err(e) ==> e matches Error::CommunicationFailed(_),
        exists|send: &mut S, recv: &mut S, outcome: Result<Seq<u8>, TransportError>|
            #[trigger] round_trip(
                *old(wechat),
                send,
                *final(send),
                recv,
                *final(recv),
                *final(wechat),
                req@,
                outcome,
            ) && payload_of(outcome) == reply_view(reply),
{
    let ghost before = *wechat;
    let bytes = encode_request(&req);
    let outcome = call(&mut wechat.socket, bytes.as_slice());
    let ghost seen = outcome_view(outcome);
    let ghost (send, recv) = choose|send: &mut S, recv: &mut S| #[trigger]
        exchanged(
            before.socket,
            send,
            *final(send),
            recv,
            *final(recv),
            wechat.socket,
            bytes@,
            seen,
        );
    let reply = conclude(outcome);
    assert(round_trip(before, send, *final(send), recv, *final(recv), *wechat, req@, seen)
        && payload_of(seen) == reply_view(reply));
    reply
}

/// The account in the form that callers get it.
pub fn user_info(info: Option<crate::wcf::UserInfo>) -> (r: Option<UserInfo>)
    ensures
        match r {
            Some(user) => info matches Some(i) && user@ == i@,
            None => info is None,
        },
{
    match info {
        Some(info) => Some(
            UserInfo { wxid: info.wxid, name: info.name, mobile: info.mobile, home: info.home },
        ),
        None => None,
    }
}

/// Whether the account is logged in.
/// True where the worker answers with the status 1; any other answer is
/// `false`.
pub fn is_login<S: Socket>(wechat: &mut WeChat<S>) -> (r: Result<bool, Error>)
    ensures
        final(wechat).settled(old(wechat)),
        r matches Err(e) ==> e matches Error::CommunicationFailed(_),
        exists|send: &mut S, recv: &mut S, outcome: Result<Seq<u8>, TransportError>|
            #[trigger] round_trip(
                *old(wechat),
                send,
                *final(send),
                recv,
                *final(recv),
                *final(wechat),
                is_login_asks(),
                outcome,
            ) && match payload_of(outcome) {
                Ok(payload) => r == Ok::<bool, Error>(confirms(payload)),
                Err(e) => r matches Err(x) && x == e,
            },
{
    match send_cmd(wechat, is_login_request()) {
        Ok(payload) => Ok(confirmed(&payload)),
        Err(e) => Err(e),
    }
}

/// The identifier of the account that is logged in.
/// `None` where the worker answers with anything but a text.
pub fn get_self_wx_id<S: Socket>(wechat: &mut WeChat<S>) -> (r: Result<Option<String>, Error>)
    ensures
        final(wechat).settled(old(wechat)),
        r matches Err(e) ==> e matches Error::CommunicationFailed(_),
        exists|send: &mut S, recv: &mut S, outcome: Result<Seq<u8>, TransportError>|
            #[trigger] round_trip(
                *old(wechat),
                send,
                *final(send),
                recv,
                *final(recv),
                *final(wechat),
                get_self_wx_id_asks(),
                outcome,
            ) && match payload_of(outcome) {
                Ok(payload) => r matches Ok(text) && option_view(text) == text_in(payload),
                Err(e) => r matches Err(x) && x == e,
            },
{
    match send_cmd(wechat, get_self_wx_id_request()) {
        Ok(payload) => Ok(take_text(payload)),
        Err(e) => Err(e),
    }
}

/// The account that is logged in.
/// `None` where the worker answers with anything but an account.
pub fn get_user_info<S: Socket>(wechat: &mut WeChat<S>) -> (r: Result<Option<UserInfo>, Error>)
    ensures
        final(wechat).settled(old(wechat)),
        r matches Err(e) ==> e matches Error::CommunicationFailed(_),
        exists|send: &mut S, recv: &mut S, outcome: Result<Seq<u8>, TransportError>|
            #[trigger] round_trip(
                *old(wechat),
                send,
                *final(send),
                recv,
                *final(recv),
                *final(wechat),
                get_user_info_asks(),
                outcome,
            ) && match payload_of(outcome) {
                Ok(payload) => r matches Ok(user) && option_view(user) == user_info_in(payload),
                Err(e) => r matches Err(x) && x == e,
            },
{
    match send_cmd(wechat, get_user_info_request()) {
        Ok(payload) => Ok(user_info(take_user_info(payload))),
        Err(e) => Err(e),
    }
}

/// The contacts of the account.
/// `None` where the worker answers with anything but contacts.
pub fn get_contacts<S: Socket>(wechat: &mut WeChat<S>) -> (r: Result<Option<RpcContacts>, Error>)
    ensures
        final(wechat).settled(old(wechat)),
        r matches Err(e) ==> e matches Error::CommunicationFailed(_),
        exists|send: &mut S, recv: &mut S, outcome: Result<Seq<u8>, TransportError>|
            #[trigger] round_trip(
                *old(wechat),
                send,
                *final(send),
                recv,
                *final(recv),
                *final(wechat),
                get_contacts_asks(),
                outcome,
            ) && match payload_of(outcome) {
                Ok(payload) => r matches Ok(contacts) && option_view(contacts) == contacts_in(
                    payload,
                ),
                Err(e) => r matches Err(x) && x == e,
            },
{
    match send_cmd(wechat, get_contacts_request()) {
        Ok(payload) => Ok(take_contacts(payload)),
        Err(e) => Err(e),
    }
}

/// The names of the worker's databases.
/// Empty where the worker answers with anything but names of databases.
pub fn get_db_names<S: Socket>(wechat: &mut WeChat<S>) -> (r: Result<Vec<String>, Error>)
    ensures
        final(wechat).settled(old(wechat)),
        r matches Err(e) ==> e matches Error::CommunicationFailed(_),
        exists|send: &mut S, recv: &mut S, outcome: Result<Seq<u8>, TransportError>|
            #[trigger] round_trip(
                *old(wechat),
                send,
                *final(send),
                recv,
                *final(recv),
                *final(wechat),
                get_db_names_asks(),
                outcome,
            ) && match payload_of(outcome) {
                Ok(payload) => r matches Ok(names) && views(names@) == names_in(payload),
                Err(e) => r matches Err(x) && x == e,
            },
{
    match send_cmd(wechat, get_db_names_request()) {
        Ok(payload) => Ok(take_names(payload)),
        Err(e) => Err(e),
    }
}

/// The tables of the database `db`.
/// Empty where the worker answers with anything but tables.
pub fn get_db_tables<S: Socket>(
    wechat: &mut WeChat<S>,
    db: String,
) -> (r: Result<Vec<DbTable>, Error>)
    ensures
        final(wechat).settled(old(wechat)),
        r matches Err(e) ==> e matches Error::CommunicationFailed(_),
        exists|send: &mut S, recv: &mut S, outcome: Result<Seq<u8>, TransportError>|
            #[trigger] round_trip(
                *old(wechat),
                send,
                *final(send),
                recv,
                *final(recv),
                *final(wechat),
                get_db_tables_asks(db@),
                outcome,
            ) && match payload_of(outcome) {
                Ok(payload) => r matches Ok(tables) && views(tables@) == tables_in(payload),
                Err(e) => r matches Err(x) && x == e,
            },
{
    match send_cmd(wechat, get_db_tables_request(db)) {
        Ok(payload) => Ok(take_tables(payload)),
        Err(e) => Err(e),
    }
}

/// Runs the statement `sql` on the database `db` and hands back its rows.
/// Empty where the worker answers with anything but rows.
pub fn exec_db_query<S: Socket>(
    wechat: &mut WeChat<S>,
    db: String,
    sql: String,
) -> (r: Result<Vec<DbRow>, Error>)
    ensures
        final(wechat).settled(old(wechat)),
        r matches Err(e) ==> e matches Error::CommunicationFailed(_),
        exists|send: &mut S, recv: &mut S, outcome: Result<Seq<u8>, TransportError>|
            #[trigger] round_trip(
                *old(wechat),
                send,
                *final(send),
                recv,
                *final(recv),
                *final(wechat),
                exec_db_query_asks(db@, sql@),
                outcome,
            ) && match payload_of(outcome) {
                Ok(payload) => r matches Ok(rows) && views(rows@) == rows_in(payload),
                Err(e) => r matches Err(x) && x == e,
            },
{
    match send_cmd(wechat, exec_db_query_request(db, sql)) {
        Ok(payload) => Ok(take_rows(payload)),
        Err(e) => Err(e),
    }
}

/// Sends the text `msg` to `receiver`, a person or a chat room. In a chat room
/// `aters` names the members to mention, separated by commas, and `msg` holds
/// an `@` for each of them; elsewhere `aters` is empty.
/// True where the worker answers with a status, whichever; any other answer
/// is `false`.
pub fn send_text<S: Socket>(
    wechat: &mut WeChat<S>,
    msg: String,
    receiver: String,
    aters: String,
) -> (r: Result<bool, Error>)
    ensures
        final(wechat).settled(old(wechat)),
        r matches Err(e) ==> e matches Error::CommunicationFailed(_),
        exists|send: &mut S, recv: &mut S, outcome: Result<Seq<u8>, TransportError>|
            #[trigger] round_trip(
                *old(wechat),
                send,
                *final(send),
                recv,
                *final(recv),
                *final(wechat),
                send_text_asks(msg@, receiver@, aters@),
                outcome,
            ) && match payload_of(outcome) {
                Ok(payload) => r == Ok::<bool, Error>(reports(payload)),
                Err(e) => r matches Err(x) && x == e,
            },
{
    match send_cmd(wechat, send_text_request(msg, receiver, aters)) {
        Ok(payload) => Ok(reported(&payload)),
        Err(e) => Err(e),
    }
}

/// Sends the picture at `path` to `receiver`.
/// True where the worker answers with a status, whichever; any other answer
/// is `false`.
pub fn send_image<S: Socket>(
    wechat: &mut WeChat<S>,
    path: String,
    receiver: String,
) -> (r: Result<bool, Error>)
    ensures
        final(wechat).settled(old(wechat)),
        r matches Err(e) ==> e matches Error::CommunicationFailed(_),
        exists|send: &mut S, recv: &mut S, outcome: Result<Seq<u8>, TransportError>|
            #[trigger] round_trip(
                *old(wechat),
                send,
                *final(send),
                recv,
                *final(recv),
                *final(wechat),
                send_image_asks(path@, receiver@),
                outcome,
            ) && match payload_of(outcome) {
                Ok(payload) => r == Ok::<bool, Error>(reports(payload)),
                Err(e) => r matches Err(x) && x == e,
            },
{
    match send_cmd(wechat, send_image_request(path, receiver)) {
        Ok(payload) => Ok(reported(&payload)),
        Err(e) => Err(e),
    }
}

/// Sends the file at `path` to `receiver`.
/// True where the worker answers with the status 1; any other answer is
/// `false`.
pub fn send_file<S: Socket>(
    wechat: &mut WeChat<S>,
    path: String,
    receiver: String,
) -> (r: Result<bool, Error>)
    ensures
        final(wechat).settled(old(wechat)),
        r matches Err(e) ==> e matches Error::CommunicationFailed(_),
        exists|send: &mut S, recv: &mut S, outcome: Result<Seq<u8>, TransportError>|
            #[trigger] round_trip(
                *old(wechat),
                send,
                *final(send),
                recv,
                *final(recv),
                *final(wechat),
                send_file_asks(path@, receiver@),
                outcome,
            ) && match payload_of(outcome) {
                Ok(payload) => r == Ok::<bool, Error>(confirms(payload)),
                Err(e) => r matches Err(x) && x == e,
            },
{
    match send_cmd(wechat, send_file_request(path, receiver)) {
        Ok(payload) => Ok(confirmed(&payload)),
        Err(e) => Err(e),
    }
}

/// Sends the XML message `xml` of type `xml_type` to `receiver`, with the
/// picture at `path`.
/// True where the worker answers with the status 1; any other answer is
/// `false`.
pub fn send_xml<S: Socket>(
    wechat: &mut WeChat<S>,
    xml: String,
    path: String,
    receiver: String,
    xml_type: i32,
) -> (r: Result<bool, Error>)
    ensures
        final(wechat).settled(old(wechat)),
        r matches Err(e) ==> e matches Error::CommunicationFailed(_),
        exists|send: &mut S, recv: &mut S, outcome: Result<Seq<u8>, TransportError>|
            #[trigger] round_trip(
                *old(wechat),
                send,
                *final(send),
                recv,
                *final(recv),
                *final(wechat),
                send_xml_asks(xml@, path@, receiver@, xml_type),
                outcome,
            ) && match payload_of(outcome) {
                Ok(payload) => r == Ok::<bool, Error>(confirms(payload)),
                Err(e) => r matches Err(x) && x == e,
            },
{
    match send_cmd(wechat, send_xml_request(xml, path, receiver, xml_type)) {
        Ok(payload) => Ok(confirmed(&payload)),
        Err(e) => Err(e),
    }
}

/// Sends the emotion at `path` to `receiver`.
/// True where the worker answers with the status 1; any other answer is
/// `false`.
pub fn send_emotion<S: Socket>(
    wechat: &mut WeChat<S>,
    path: String,
    receiver: String,
) -> (r: Result<bool, Error>)
    ensures
        final(wechat).settled(old(wechat)),
        r matches Err(e) ==> e matches Error::CommunicationFailed(_),
        exists|send: &mut S, recv: &mut S, outcome: Result<Seq<u8>, TransportError>|
            #[trigger] round_trip(
                *old(wechat),
                send,
                *final(send),
                recv,
                *final(recv),
                *final(wechat),
                send_emotion_asks(path@, receiver@),
                outcome,
            ) && match payload_of(outcome) {
                Ok(payload) => r == Ok::<bool, Error>(confirms(payload)),
                Err(e) => r matches Err(x) && x == e,
            },
{
    match send_cmd(wechat, send_emotion_request(path, receiver)) {
        Ok(payload) => Ok(confirmed(&payload)),
        Err(e) => Err(e),
    }
}

/// The names of the types of message, by type.
/// Empty where the worker answers with anything but names of types.
pub fn get_msg_types<S: Socket>(wechat: &mut WeChat<S>) -> (r: Result<HashMap<i32, String>, Error>)
    ensures
        final(wechat).settled(old(wechat)),
        r matches Err(e) ==> e matches Error::CommunicationFailed(_),
        exists|send: &mut S, recv: &mut S, outcome: Result<Seq<u8>, TransportError>|
            #[trigger] round_trip(
                *old(wechat),
                send,
                *final(send),
                recv,
                *final(recv),
                *final(wechat),
                get_msg_types_asks(),
                outcome,
            ) && match payload_of(outcome) {
                Ok(payload) => r matches Ok(names) && names_view(names) == types_in(payload),
                Err(e) => r matches Err(x) && x == e,
            },
{
    match send_cmd(wechat, get_msg_types_request()) {
        Ok(payload) => Ok(take_types(payload)),
        Err(e) => Err(e),
    }
}

/// Accepts the friend request that `v3` and `v4` name; `scene` says how it
/// came.
/// True where the worker answers with the status 1; any other answer is
/// `false`.
pub fn accept_new_friend<S: Socket>(
    v3: String,
    v4: String,
    scene: i32,
    wechat: &mut WeChat<S>,
) -> (r: Result<bool, Error>)
    ensures
        final(wechat).settled(old(wechat)),
        r matches Err(e) ==> e matches Error::CommunicationFailed(_),
        exists|send: &mut S, recv: &mut S, outcome: Result<Seq<u8>, TransportError>|
            #[trigger] round_trip(
                *old(wechat),
                send,
                *final(send),
                recv,
                *final(recv),
                *final(wechat),
                accept_new_friend_asks(v3@, v4@, scene),
                outcome,
            ) && match payload_of(outcome) {
                Ok(payload) => r == Ok::<bool, Error>(confirms(payload)),
                Err(e) => r matches Err(x) && x == e,
            },
{
    match send_cmd(wechat, accept_new_friend_request(v3, v4, scene)) {
        Ok(payload) => Ok(confirmed(&payload)),
        Err(e) => Err(e),
    }
}

/// Adds the members `wxids`, separated by commas, to the chat room `roomid`.
/// True where the worker answers with the status 1; any other answer is
/// `false`.
pub fn add_chatroom_members<S: Socket>(
    roomid: String,
    wxids: String,
    wechat: &mut WeChat<S>,
) -> (r: Result<bool, Error>)
    ensures
        final(wechat).settled(old(wechat)),
        r matches Err(e) ==> e matches Error::CommunicationFailed(_),
        exists|send: &mut S, recv: &mut S, outcome: Result<Seq<u8>, TransportError>|
            #[trigger] round_trip(
                *old(wechat),
                send,
                *final(send),
                recv,
                *final(recv),
                *final(wechat),
                add_chatroom_members_asks(roomid@, wxids@),
                outcome,
            ) && match payload_of(outcome) {
                Ok(payload) => r == Ok::<bool, Error>(confirms(payload)),
                Err(e) => r matches Err(x) && x == e,
            },
{
    match send_cmd(wechat, add_chatroom_members_request(roomid, wxids)) {
        Ok(payload) => Ok(confirmed(&payload)),
        Err(e) => Err(e),
    }
}

/// Removes the members `wxids`, separated by commas, from the chat room
/// `roomid`.
/// True where the worker answers with the status 1; any other answer is
/// `false`.
pub fn del_chatroom_members<S: Socket>(
    roomid: String,
    wxids: String,
    wechat: &mut WeChat<S>,
) -> (r: Result<bool, Error>)
    ensures
        final(wechat).settled(old(wechat)),
        r matches Err(e) ==> e matches Error::CommunicationFailed(_),
        exists|send: &mut S, recv: &mut S, outcome: Result<Seq<u8>, TransportError>|
            #[trigger] round_trip(
                *old(wechat),
                send,
                *final(send),
                recv,
                *final(recv),
                *final(wechat),
                del_chatroom_members_asks(roomid@, wxids@),
                outcome,
            ) && match payload_of(outcome) {
                Ok(payload) => r == Ok::<bool, Error>(confirms(payload)),
                Err(e) => r matches Err(x) && x == e,
            },
{
    match send_cmd(wechat, del_chatroom_members_request(roomid, wxids)) {
        Ok(payload) => Ok(confirmed(&payload)),
        Err(e) => Err(e),
    }
}

/// Decrypts the picture at `src` into `dst`.
/// True where the worker answers with the status 1; any other answer is
/// `false`.
pub fn decrypt_image<S: Socket>(
    src: String,
    dst: String,
    wechat: &mut WeChat<S>,
) -> (r: Result<bool, Error>)
    ensures
        final(wechat).settled(old(wechat)),
        r matches Err(e) ==> e matches Error::CommunicationFailed(_),
        exists|send: &mut S, recv: &mut S, outcome: Result<Seq<u8>, TransportError>|
            #[trigger] round_trip(
                *old(wechat),
                send,
                *final(send),
                recv,
                *final(recv),
                *final(wechat),
                decrypt_image_asks(src@, dst@),
                outcome,
            ) && match payload_of(outcome) {
                Ok(payload) => r == Ok::<bool, Error>(confirms(payload)),
                Err(e) => r matches Err(x) && x == e,
            },
{
    match send_cmd(wechat, decrypt_image_request(src, dst)) {
        Ok(payload) => Ok(confirmed(&payload)),
        Err(e) => Err(e),
    }
}

/// Accepts the transfer `transferid` of the transaction `transcationid` that
/// `wxid` sent.
/// True where the worker answers with the status 1; any other answer is
/// `false`.
pub fn recv_transfer<S: Socket>(
    wxid: String,
    transferid: String,
    transcationid: String,
    wechat: &mut WeChat<S>,
) -> (r: Result<bool, Error>)
    ensures
        final(wechat).settled(old(wechat)),
        r matches Err(e) ==> e matches Error::CommunicationFailed(_),
        exists|send: &mut S, recv: &mut S, outcome: Result<Seq<u8>, TransportError>|
            #[trigger] round_trip(
                *old(wechat),
                send,
                *final(send),
                recv,
                *final(recv),
                *final(wechat),
                recv_transfer_asks(wxid@, transferid@, transcationid@),
                outcome,
            ) && match payload_of(outcome) {
                Ok(payload) => r == Ok::<bool, Error>(confirms(payload)),
                Err(e) => r matches Err(x) && x == e,
            },
{
    match send_cmd(wechat, recv_transfer_request(wxid, transferid, transcationid)) {
        Ok(payload) => Ok(confirmed(&payload)),
        Err(e) => Err(e),
    }
}

/// Refreshes the moments from the entry `id` on; 0 starts at the first page.
/// True where the worker answers with a status other than -1; any other
/// answer is `false`.
pub fn refresh_pyq<S: Socket>(id: u64, wechat: &mut WeChat<S>) -> (r: Result<bool, Error>)
    ensures
        final(wechat).settled(old(wechat)),
        r matches Err(e) ==> e matches Error::CommunicationFailed(_),
        exists|send: &mut S, recv: &mut S, outcome: Result<Seq<u8>, TransportError>|
            #[trigger] round_trip(
                *old(wechat),
                send,
                *final(send),
                recv,
                *final(recv),
                *final(wechat),
                refresh_pyq_asks(id),
                outcome,
            ) && match payload_of(outcome) {
                Ok(payload) => r == Ok::<bool, Error>(accepts(payload)),
                Err(e) => r matches Err(x) && x == e,
            },
{
    match send_cmd(wechat, refresh_pyq_request(id)) {
        Ok(payload) => Ok(accepted(&payload)),
        Err(e) => Err(e),
    }
}

/// What [`enable_listen`] does to the subscription: `before` and `after` say
/// whether the session is subscribed.
pub open spec fn enabling(before: bool, after: bool, result: Result<(), Error>) -> bool {
    if before {
        after && result == Err::<(), Error>(Error::AlreadySubscribed)
    } else {
        match result {
            Ok(_) => after,
            Err(e) => !after && (e matches Error::CommunicationFailed(_) || e == Error::RemoteFailed
                || e == Error::ConnectFailed),
        }
    }
}

/// What [`disable_listen`] does to the subscription.
pub open spec fn disabling(before: bool, after: bool, result: Result<bool, Error>) -> bool {
    &&& !after
    &&& if before {
        match result {
            Ok(done) => done,
            Err(e) => e matches Error::CommunicationFailed(_) || e == Error::RemoteFailed,
        }
    } else {
        result == Ok::<bool, Error>(true)
    }
}

/// Whether a call succeeded, without what it gave.
pub open spec fn outcome<T>(result: Result<T, Error>) -> Result<(), Error> {
    match result {
        Ok(_) => Ok(()),
        Err(e) => Err(e),
    }
}

/// Subscribing twice: after a subscription that succeeded, another one
/// without unsubscribing in between fails as [`Error::AlreadySubscribed`] and
/// the session stays subscribed.
pub proof fn lemma_enable_twice(
    start: bool,
    between: bool,
    end: bool,
    second: Result<(), Error>,
)
    requires
        enabling(start, between, Ok(())),
        enabling(between, end, second),
    ensures
        second == Err::<(), Error>(Error::AlreadySubscribed),
        end,
{
}

/// Unsubscribing a session that is not subscribed succeeds and leaves it
/// unsubscribed.
pub proof fn lemma_disable_unsubscribed(end: bool, result: Result<bool, Error>)
    requires
        disabling(false, end, result),
    ensures
        result == Ok::<bool, Error>(true),
        !end,
{
}

/// After unsubscribing, whatever came of it, the session can subscribe
/// again: the next subscription does not fail as
/// [`Error::AlreadySubscribed`].
pub proof fn lemma_enable_after_disable(
    start: bool,
    between: bool,
    end: bool,
    first: Result<bool, Error>,
    second: Result<(), Error>,
)
    requires
        disabling(start, between, first),
        enabling(between, end, second),
    ensures
        second != Err::<(), Error>(Error::AlreadySubscribed),
{
}

/// How subscribing goes on once the worker was asked to push, said of the
/// sockets' calls. `asked` is the outcome of that round trip and `between`
/// the primary socket after it.
///
/// Where the worker did not confirm, as [`acknowledgement`] tells, the
/// failure is handed on and nothing else is done. Where it confirmed, the
/// subscription's channel is opened to the session's `listen_url`, as
/// [`opened`] states it of `made`, `first`, `second` and `dial`. The channel
/// that was opened is handed back and a clone of it kept in the session. If
/// it cannot be opened, the failure is [`Error::ConnectFailed`], and there is
/// one more exchange on the primary socket, which tells the worker to stop.
pub open spec fn subscribed<S: Socket>(
    before: WeChat<S>,
    between: S,
    asked: Result<Seq<u8>, TransportError>,
    made: Option<S>,
    first: &mut S,
    first_after: S,
    second: &mut S,
    second_after: S,
    dial: &mut S,
    dial_after: S,
    undo_send: &mut S,
    undo_sent_after: S,
    undo_recv: &mut S,
    undo_recv_after: S,
    undone: Result<Seq<u8>, TransportError>,
    after: WeChat<S>,
    r: Result<S, Error>,
) -> bool {
    match acknowledgement(payload_of(asked)) {
        Err(e) => r == Err::<S, Error>(e) && after.socket == between,
        Ok(_) => exists|client: Result<S, TransportError>| #[trigger]
            opened(
                made,
                first,
                first_after,
                second,
                second_after,
                dial,
                dial_after,
                before.listen_url@,
                client,
            ) && match client {
                Ok(channel) => {
                    &&& r == Ok::<S, Error>(channel)
                    &&& after.socket == between
                    &&& after.listener matches Some(kept) && call_ensures(
                        S::clone,
                        (&channel,),
                        kept,
                    )
                },
                Err(_) => {
                    &&& r == Err::<S, Error>(Error::ConnectFailed)
                    &&& exchanged(
                        between,
                        undo_send,
                        undo_sent_after,
                        undo_recv,
                        undo_recv_after,
                        after.socket,
                        encode_spec::<Request>(disable_listen_asks()),
                        undone,
                    )
                },
            },
    }
}

/// Subscribes to the messages that the account receives: asks the worker to
/// push them, dials the subscription's socket and hands back a handle on it
/// for [`recv_msg`].
///
/// A session that is subscribed already is left as it is. Where the worker
/// does not confirm, the failure is that of [`acknowledged`]. Where it
/// confirms and the socket cannot be dialed, the worker is told to stop again
/// and the session stays unsubscribed.
///
/// On a session that is not subscribed, the contract says of the sockets'
/// calls that there was one exchange of the request to push on the primary
/// socket, as [`exchanged`] states it, and that it went on from there as
/// [`subscribed`] states it.
pub fn enable_listen<S: Socket>(wechat: &mut WeChat<S>) -> (r: Result<S, Error>)
    ensures
        enabling(old(wechat).listening, final(wechat).listening, outcome(r)),
        old(wechat).listening ==> *final(wechat) == *old(wechat),
        !old(wechat).listening ==> exists|
            send: &mut S,
            recv: &mut S,
            asked: Result<Seq<u8>, TransportError>,
            between: S,
            made: Option<S>,
            first: &mut S,
            second: &mut S,
            dial: &mut S,
            undo_send: &mut S,
            undo_recv: &mut S,
            undone: Result<Seq<u8>, TransportError>,
        |
            #![trigger
                exchanged(
                    old(wechat).socket,
                    send,
                    *final(send),
                    recv,
                    *final(recv),
                    between,
                    encode_spec::<Request>(enable_listen_asks()),
                    asked,
                ),
                subscribed(
                    *old(wechat),
                    between,
                    asked,
                    made,
                    first,
                    *final(first),
                    second,
                    *final(second),
                    dial,
                    *final(dial),
                    undo_send,
                    *final(undo_send),
                    undo_recv,
                    *final(undo_recv),
                    undone,
                    *final(wechat),
                    r,
                )]
            exchanged(
                old(wechat).socket,
                send,
                *final(send),
                recv,
                *final(recv),
                between,
                encode_spec::<Request>(enable_listen_asks()),
                asked,
            ) && subscribed(
                *old(wechat),
                between,
                asked,
                made,
                first,
                *final(first),
                second,
                *final(second),
                dial,
                *final(dial),
                undo_send,
                *final(undo_send),
                undo_recv,
                *final(undo_recv),
                undone,
                *final(wechat),
                r,
            ),
        old(wechat).wf() ==> final(wechat).wf(),
        r is Ok ==> final(wechat).listener is Some,
        r is Err ==> final(wechat).listener == old(wechat).listener,
        final(wechat).same_settings(old(wechat)),
{
    if wechat.listening {
        return Err(Error::AlreadySubscribed);
    }
    let ghost before = *wechat;
    let ghost none: &mut S = arbitrary();
    let reply = send_cmd(wechat, enable_listen_request());
    let ghost between = wechat.socket;
    let ghost (send, recv, asked) = choose|
        send: &mut S,
        recv: &mut S,
        asked: Result<Seq<u8>, TransportError>,
    |
        #[trigger] round_trip(
            before,
            send,
            *final(send),
            recv,
            *final(recv),
            *wechat,
            enable_listen_asks(),
            asked,
        ) && payload_of(asked) == reply_view(reply);
    assert(exchanged(
        before.socket,
        send,
        *final(send),
        recv,
        *final(recv),
        between,
        encode_spec::<Request>(enable_listen_asks()),
        asked,
    ));
    match acknowledged(&reply) {
        Ok(_) => {},
        Err(e) => {
            let r = Err(e);
            assert(subscribed(
                before,
                between,
                asked,
                None,
                none,
                *final(none),
                none,
                *final(none),
                none,
                *final(none),
                none,
                *final(none),
                none,
                *final(none),
                asked,
                *wechat,
                r,
            ));
            return r;
        },
    }
    let dialed = connect::<S>(wechat.listen_url.as_str());
    let ghost (made, first, second, dial) = choose|
        made: Option<S>,
        first: &mut S,
        second: &mut S,
        dial: &mut S,
    |
        #[trigger] opened(
            made,
            first,
            *final(first),
            second,
            *final(second),
            dial,
            *final(dial),
            before.listen_url@,
            dialed,
        );
    match dialed {
        Ok(client) => {
            let kept = client.clone();
            wechat.listener = Some(kept);
            wechat.listening = true;
            let r = Ok(client);
            assert(subscribed(
                before,
                between,
                asked,
                made,
                first,
                *final(first),
                second,
                *final(second),
                dial,
                *final(dial),
                none,
                *final(none),
                none,
                *final(none),
                asked,
                *wechat,
                r,
            ));
            r
        },
        Err(_) => {
            let ghost at = *wechat;
            let _ = send_cmd(wechat, disable_listen_request());
            let ghost (undo_send, undo_recv, undone) = choose|
                undo_send: &mut S,
                undo_recv: &mut S,
                undone: Result<Seq<u8>, TransportError>,
            |
                #[trigger] round_trip(
                    at,
                    undo_send,
                    *final(undo_send),
                    undo_recv,
                    *final(undo_recv),
                    *wechat,
                    disable_listen_asks(),
                    undone,
                );
            let r = Err(Error::ConnectFailed);
            assert(subscribed(
                before,
                between,
                asked,
                made,
                first,
                *final(first),
                second,
                *final(second),
                dial,
                *final(dial),
                undo_send,
                *final(undo_send),
                undo_recv,
                *final(undo_recv),
                undone,
                *wechat,
                r,
            ));
            r
        },
    }
}

/// Unsubscribes: tells the worker to stop pushing and closes the
/// subscription's socket. The socket is closed and the session unsubscribed
/// whatever the worker answers; the result says whether it agreed.
///
/// On a session that is not subscribed this does nothing and succeeds. On
/// one that is, the contract says of the sockets' calls that there was one
/// [`round_trip`] of the request to stop, that the result is what
/// [`acknowledgement`] makes of it, and that `close` was called on the
/// subscription's socket.
pub fn disable_listen<S: Socket>(wechat: &mut WeChat<S>) -> (r: Result<bool, Error>)
    ensures
        disabling(old(wechat).listening, final(wechat).listening, r),
        !old(wechat).listening ==> *final(wechat) == *old(wechat),
        old(wechat).listening ==> exists|
            send: &mut S,
            recv: &mut S,
            asked: Result<Seq<u8>, TransportError>,
        |
            #[trigger] round_trip(
                *old(wechat),
                send,
                *final(send),
                recv,
                *final(recv),
                *final(wechat),
                disable_listen_asks(),
                asked,
            ) && r == match acknowledgement(payload_of(asked)) {
                Ok(_) => Ok::<bool, Error>(true),
                Err(e) => Err(e),
            },
        old(wechat).listening ==> (old(wechat).listener matches Some(client) ==> exists|
            closing: &mut S,
        |
            *closing == client && #[trigger] closed(closing)),
        old(wechat).listening ==> final(wechat).listener is None,
        old(wechat).wf() ==> final(wechat).wf(),
        final(wechat).same_settings(old(wechat)),
{
    if !wechat.listening {
        return Ok(true);
    }
    let ghost before = *wechat;
    let reply = send_cmd(wechat, disable_listen_request());
    let ghost between = *wechat;
    let ghost (send, recv, asked) = choose|
        send: &mut S,
        recv: &mut S,
        asked: Result<Seq<u8>, TransportError>,
    |
        #[trigger] round_trip(
            before,
            send,
            *final(send),
            recv,
            *final(recv),
            between,
            disable_listen_asks(),
            asked,
        ) && payload_of(asked) == reply_view(reply);
    match wechat.listener.take() {
        Some(mut client) => {
            let ghost kept = client;
            client.close();
            let ghost closing = choose|closing: &mut S|
                *closing == kept && #[trigger] call_ensures(S::close, (closing,), ());
            assert(closed(closing));
        },
        None => {},
    }
    wechat.listening = false;
    assert(round_trip(
        before,
        send,
        *final(send),
        recv,
        *final(recv),
        *wechat,
        disable_listen_asks(),
        asked,
    ));
    match acknowledged(&reply) {
        Ok(_) => Ok(true),
        Err(e) => Err(e),
    }
}

/// Polls the subscription once: waits for one message on `client`, no longer
/// than its timeout.
///
/// Silence and a closed socket are no error: they give `None`, and so does a
/// response that is no pushed message. Bytes that are no response fail as
/// [`Error::MalformedMessage`]. [`read_event`] says what is handed back for
/// each thing that can be received.
///
/// The contract says it of the socket's call: `recv` is called once on
/// `client`, and what is handed back is what
/// [`event_of`](crate::dispatch::event_of) makes of what it gave.
pub fn recv_msg<S: Socket>(client: &mut S) -> (r: Result<Option<WxMsg>, Error>)
    ensures
        r matches Err(e) ==> e == Error::MalformedMessage,
        exists|recv: &mut S, reply: Option<Seq<u8>>|
            *recv == *old(client) && #[trigger] received(recv, reply)
                && *final(recv) == *final(client)
                && event_of(reply) == event_view(r),
{
    let ghost before = *client;
    let reply = client.recv();
    let ghost recv = choose|recv: &mut S|
        *recv == before && #[trigger] call_ensures(S::recv, (recv,), reply) && *final(recv)
            == *client;
    let ghost seen = option_view(reply);
    assert(received(recv, seen));
    let event = read_event(reply);
    assert(event_of(seen) == event_view(event));
    event
}

} // verus!
