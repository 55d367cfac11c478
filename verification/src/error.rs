//! What can go wrong.

use vstd::prelude::*;

verus! {

/// Which part of a round trip broke.
#[derive(Clone, Copy, Debug, PartialEq, Eq, Structural)]
pub enum Cause {
    /// The request could not be handed to the socket.
    SendFailed,
    /// No reply came: the peer was silent for the whole timeout, or the
    /// socket was closed.
    RecvFailed,
    /// A reply came and its bytes are no response.
    SerializationFailed,
}

/// The errors of the client.
#[derive(Clone, Copy, Debug, PartialEq, Eq, Structural)]
pub enum Error {
    /// A socket could not be made, given its timeouts or dialed.
    ConnectFailed,
    /// A call did not give a response; the cause says which part broke.
    CommunicationFailed(Cause),
    /// What came on the subscription channel is no response.
    MalformedMessage,
    /// The session is subscribed already.
    AlreadySubscribed,
    /// The worker answered a call that must carry a result with none.
    RemoteFailed,
}

} // verus!
