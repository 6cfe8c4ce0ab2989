//! Inter-process remote procedure calls: the decisions of both ends of a connection.
//!
//! A server and a client exchange messages over a pair of one-way channels. Every message carries
//! an identifier; a reply carries the identifier of the message that it answers, and that is how
//! a reply finds the caller who waits for it. This library holds what the two ends decide: how a
//! message is framed, who gets a reply, when a reply is given up, what the first handshake
//! demands, how the message schemas of the two ends are compared, and what a handle reports of the
//! state of its connection. It performs no input or output and reads no clock: channels, tasks and
//! timers are run by its caller, who hands in what happened and carries out what comes back.
//!
//! Times are `u128` nanoseconds since an instant that the caller fixes once.
pub mod client;
pub mod environment;
pub mod error;
pub mod key;
pub mod laws;
pub mod mail;
pub mod message;
pub mod pending;
pub mod receive;
pub mod schema;
pub mod server;
pub mod session;
pub mod status;

pub use client::IpcRpcClient;
pub use error::IpcRpcError;
pub use key::ConnectionKey;
pub use mail::MailAction;
pub use mail::MailEvent;
pub use mail::MailProcessor;
pub use message::InternalMessage;
pub use message::InternalMessageKind;
pub use message::OutgoingRequest;
pub use message::UserMessage;
pub use message::DEFAULT_REPLY_TIMEOUT;
pub use receive::IpcReceiveStream;
pub use server::IpcRpc;
pub use server::IpcRpcBuilder;
pub use server::IpcRpcServer;
pub use status::ConnectionStatus;
pub use status::SchemaValidationStatus;
