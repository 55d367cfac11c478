//! Control client for a WeChatFerry worker.
//!
//! The worker is driven over two paired sockets: one takes a request and
//! gives a response, the other pushes the messages that the account
//! receives. This crate holds the protocol and proves it:
//!
//! - [`varint`], [`wire`], [`scalar`], [`message`] and [`repeated`] are the
//!   protobuf wire format, with the law that what is written reads back;
//! - [`wcf`] is the schema of the worker: its functions, the two envelopes
//!   and the records in them;
//! - [`codec`] writes and reads envelopes;
//! - [`requests`] builds the request of each operation, and [`dispatch`]
//!   says what an operation makes of a reply;
//! - [`transport`] is the socket, as a trait for the caller to implement,
//!   and the channel on it;
//! - [`wechat`] is the session: the operations and the subscription.
//!
//! Nothing here opens a real socket or starts a process.

pub mod codec;
pub mod dispatch;
pub mod error;
pub mod message;
pub mod repeated;
pub mod requests;
pub mod scalar;
pub mod transport;
pub mod varint;
pub mod wcf;
pub mod wechat;
pub mod wire;
