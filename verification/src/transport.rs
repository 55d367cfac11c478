//! The transport channel: one paired socket, one exchange at a time.
//!
//! The socket itself is the caller's: anything that implements [`Socket`].
//! Nothing is assumed of what it does. [`connect`] and [`call`] decide in
//! which order it is used and which failure is reported; neither tries
//! anything twice.
//!
//! Their contracts say so of the socket's own calls. `call_ensures(S::send,
//! (socket, bytes), ok)` says that `send`, called on `socket` with `bytes`,
//! gave `ok`; `socket` is a `&mut S`, so `*socket` is the socket as the call
//! takes it and `*final(socket)` the socket as the call leaves it. The
//! predicates [`created`] to [`closed`] name one call each, and [`opened`]
//! and [`exchanged`] put them in order.

use vstd::prelude::*;

verus! {

/// The bound on sending and on receiving, in milliseconds.
pub const TIMEOUT_MS: u64 = 5000;

/// The failures of the transport channel.
#[derive(Clone, Copy, Debug, PartialEq, Eq, Structural)]
pub enum TransportError {
    /// The socket could not be made, given its timeouts or dialed.
    ConnectFailed,
    /// The request could not be sent.
    SendFailed,
    /// No reply came within the timeout.
    RecvFailed,
}

/// A paired message socket. Each method says by its result whether it
/// succeeded; a clone is another handle on the same socket.
pub trait Socket: Sized + Clone {
    /// Makes a socket that is not connected yet.
    fn create() -> Option<Self>;

    /// Bounds the time that `recv` blocks.
    fn set_recv_timeout(&mut self, millis: u64) -> bool;

    /// Bounds the time that `send` blocks.
    fn set_send_timeout(&mut self, millis: u64) -> bool;

    /// Connects to the peer at `url`.
    fn dial(&mut self, url: &str) -> bool;

    /// Sends one message.
    fn send(&mut self, bytes: &[u8]) -> bool;

    /// Waits for one message, no longer than the receive timeout.
    fn recv(&mut self) -> Option<Vec<u8>>;

    /// Releases the socket.
    fn close(&mut self);
}

/// `create` gave `made`.
pub open spec fn created<S: Socket>(made: Option<S>) -> bool {
    call_ensures(S::create, (), made)
}

/// `set_recv_timeout`, called on `socket` with `millis`, gave `ok`.
pub open spec fn recv_bounded<S: Socket>(socket: &mut S, millis: u64, ok: bool) -> bool {
    call_ensures(S::set_recv_timeout, (socket, millis), ok)
}

/// `set_send_timeout`, called on `socket` with `millis`, gave `ok`.
pub open spec fn send_bounded<S: Socket>(socket: &mut S, millis: u64, ok: bool) -> bool {
    call_ensures(S::set_send_timeout, (socket, millis), ok)
}

/// `dial`, called on `socket` with the address `url`, gave `ok`.
pub open spec fn dialed<S: Socket>(socket: &mut S, url: Seq<char>, ok: bool) -> bool {
    exists|address: &str| address@ == url && #[trigger] call_ensures(S::dial, (socket, address), ok)
}

/// `send`, called on `socket` with the bytes `request`, gave `ok`.
pub open spec fn sent<S: Socket>(socket: &mut S, request: Seq<u8>, ok: bool) -> bool {
    exists|message: &[u8]|
        message@ == request && #[trigger] call_ensures(S::send, (socket, message), ok)
}

/// `recv`, called on `socket`, gave `reply`.
pub open spec fn received<S: Socket>(socket: &mut S, reply: Option<Seq<u8>>) -> bool {
    exists|bytes: Option<Vec<u8>>|
        reply == (match bytes {
            Some(b) => Some(b@),
            None => None,
        }) && #[trigger] call_ensures(S::recv, (socket,), bytes)
}

/// `close` was called on `socket`.
pub open spec fn closed<S: Socket>(socket: &mut S) -> bool {
    call_ensures(S::close, (socket,), ())
}

/// What [`connect`] does, said of the calls it makes on the socket. Each of
/// `recv`, `send` and `dial` is the socket as one call takes it: `*recv` is
/// the socket before the call that bounds receiving and `recv_after` the
/// socket after it, and so on.
///
/// A channel is handed back exactly where a socket was made, took the bound
/// of [`TIMEOUT_MS`] on receiving, then on sending, and was then dialed at
/// `url`, each call succeeding on the socket as the call before left it: the
/// channel is the socket after the dial. A failure is
/// [`TransportError::ConnectFailed`], and the call that failed is the first
/// that was not made in vain: none follows it.
pub open spec fn opened<S: Socket>(
    made: Option<S>,
    recv: &mut S,
    recv_after: S,
    send: &mut S,
    send_after: S,
    dial: &mut S,
    dial_after: S,
    url: Seq<char>,
    r: Result<S, TransportError>,
) -> bool {
    &&& created(made)
    &&& match r {
        Ok(channel) => {
            &&& made == Some(*recv)
            &&& recv_bounded(recv, TIMEOUT_MS, true)
            &&& *send == recv_after
            &&& send_bounded(send, TIMEOUT_MS, true)
            &&& *dial == send_after
            &&& dialed(dial, url, true)
            &&& channel == dial_after
        },
        Err(e) => {
            &&& e == TransportError::ConnectFailed
            &&& {
                ||| made is None
                ||| made == Some(*recv) && recv_bounded(recv, TIMEOUT_MS, false)
                ||| made == Some(*recv) && recv_bounded(recv, TIMEOUT_MS, true) && *send
                    == recv_after && send_bounded(send, TIMEOUT_MS, false)
                ||| made == Some(*recv) && recv_bounded(recv, TIMEOUT_MS, true) && *send
                    == recv_after && send_bounded(send, TIMEOUT_MS, true) && *dial == send_after
                    && dialed(dial, url, false)
            }
        },
    }
}

/// What [`call`] does, said of the calls it makes on the socket: `*send` is
/// the socket as `send` takes it and `sent_after` the socket after that call,
/// `*recv` the socket as `recv` takes it and `recv_after` the socket after.
///
/// The request is handed to `send`, once and as it stands. Where `send`
/// refuses it, the exchange fails as [`TransportError::SendFailed`] and
/// nothing is received. Otherwise `recv` is called once, on the socket as
/// `send` left it: the outcome is the reply that it gave, or
/// [`TransportError::RecvFailed`] where it gave none.
pub open spec fn exchanged<S: Socket>(
    before: S,
    send: &mut S,
    sent_after: S,
    recv: &mut S,
    recv_after: S,
    after: S,
    request: Seq<u8>,
    outcome: Result<Seq<u8>, TransportError>,
) -> bool {
    &&& *send == before
    &&& match outcome {
        Ok(reply) => {
            &&& sent(send, request, true)
            &&& *recv == sent_after
            &&& received(recv, Some(reply))
            &&& after == recv_after
        },
        Err(TransportError::SendFailed) => sent(send, request, false) && after == sent_after,
        Err(TransportError::RecvFailed) => {
            &&& sent(send, request, true)
            &&& *recv == sent_after
            &&& received(recv, None)
            &&& after == recv_after
        },
        Err(TransportError::ConnectFailed) => false,
    }
}

/// What the outcome of an exchange holds.
pub open spec fn outcome_view(outcome: Result<Vec<u8>, TransportError>) -> Result<
    Seq<u8>,
    TransportError,
> {
    match outcome {
        Ok(bytes) => Ok(bytes@),
        Err(e) => Err(e),
    }
}

/// Opens a channel to `url`: makes a socket, bounds receiving and sending by
/// [`TIMEOUT_MS`] each, then dials. The first step that fails ends it, and
/// every failure is [`TransportError::ConnectFailed`]. [`opened`] says it of
/// the socket's calls.
pub fn connect<S: Socket>(url: &str) -> (r: Result<S, TransportError>)
    ensures
        r matches Err(e) ==> e == TransportError::ConnectFailed,
        exists|made: Option<S>, recv: &mut S, send: &mut S, dial: &mut S| #[trigger]
            opened(made, recv, *final(recv), send, *final(send), dial, *final(dial), url@, r),
{
    let ghost none: &mut S = arbitrary();
    let made = S::create();
    let mut socket = match made {
        Some(socket) => socket,
        None => {
            let r = Err(TransportError::ConnectFailed);
            assert(opened(
                made,
                none,
                *final(none),
                none,
                *final(none),
                none,
                *final(none),
                url@,
                r,
            ));
            return r;
        },
    };
    let ghost fresh = socket;
    let bounded = socket.set_recv_timeout(TIMEOUT_MS);
    let ghost first = socket;
    let ghost recv = choose|recv: &mut S|
        *recv == fresh && #[trigger] call_ensures(S::set_recv_timeout, (recv, TIMEOUT_MS), bounded)
            && *final(recv) == first;
    if !bounded {
        let r = Err(TransportError::ConnectFailed);
        assert(opened(made, recv, *final(recv), none, *final(none), none, *final(none), url@, r));
        return r;
    }
    let bounded = socket.set_send_timeout(TIMEOUT_MS);
    let ghost second = socket;
    let ghost send = choose|send: &mut S|
        *send == first && #[trigger] call_ensures(S::set_send_timeout, (send, TIMEOUT_MS), bounded)
            && *final(send) == second;
    if !bounded {
        let r = Err(TransportError::ConnectFailed);
        assert(opened(made, recv, *final(recv), send, *final(send), none, *final(none), url@, r));
        return r;
    }
    let reached = socket.dial(url);
    let ghost third = socket;
    let ghost dial = choose|dial: &mut S|
        *dial == second && #[trigger] call_ensures(S::dial, (dial, url), reached) && *final(dial)
            == third;
    assert(dialed(dial, url@, reached));
    if !reached {
        let r = Err(TransportError::ConnectFailed);
        assert(opened(made, recv, *final(recv), send, *final(send), dial, *final(dial), url@, r));
        return r;
    }
    let r = Ok(socket);
    assert(opened(made, recv, *final(recv), send, *final(send), dial, *final(dial), url@, r));
    r
}

/// One exchange: sends `request` and waits for the reply. The two failures
/// say which leg broke, and nothing is tried twice. [`exchanged`] says it of
/// the socket's calls.
pub fn call<S: Socket>(channel: &mut S, request: &[u8]) -> (r: Result<Vec<u8>, TransportError>)
    ensures
        r matches Err(e) ==> e == TransportError::SendFailed || e == TransportError::RecvFailed,
        exists|send: &mut S, recv: &mut S| #[trigger]
            exchanged(
                *old(channel),
                send,
                *final(send),
                recv,
                *final(recv),
                *final(channel),
                request@,
                outcome_view(r),
            ),
{
    let ghost before = *channel;
    let taken = channel.send(request);
    let ghost between = *channel;
    let ghost send = choose|send: &mut S|
        *send == before && #[trigger] call_ensures(S::send, (send, request), taken) && *final(send)
            == between;
    assert(sent(send, request@, taken));
    if !taken {
        assert(exchanged(
            before,
            send,
            *final(send),
            send,
            *final(send),
            *channel,
            request@,
            Err(TransportError::SendFailed),
        ));
        return Err(TransportError::SendFailed);
    }
    let reply = channel.recv();
    let ghost recv = choose|recv: &mut S|
        *recv == between && #[trigger] call_ensures(S::recv, (recv,), reply) && *final(recv)
            == *channel;
    match reply {
        Some(bytes) => {
            assert(received(recv, Some(bytes@)));
            assert(exchanged(
                before,
                send,
                *final(send),
                recv,
                *final(recv),
                *channel,
                request@,
                Ok(bytes@),
            ));
            Ok(bytes)
        },
        None => {
            assert(received(recv, None));
            assert(exchanged(
                before,
                send,
                *final(send),
                recv,
                *final(recv),
                *channel,
                request@,
                Err(TransportError::RecvFailed),
            ));
            Err(TransportError::RecvFailed)
        },
    }
}

} // verus!
