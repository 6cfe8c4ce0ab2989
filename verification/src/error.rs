//! The errors of a connection.
use std::sync::Arc;
use vstd::prelude::*;

verus! {

/// The error type of the operating system's input and output, carried through unread.
#[verifier::external_type_specification]
#[verifier::external_body]
pub struct ExIoError(std::io::Error);

/// What an `ipc_channel::Error` boxes, carried through unread.
#[verifier::external_type_specification]
#[verifier::external_body]
pub struct ExIpcChannelErrorKind(ipc_channel::ErrorKind);

/// Errors which can occur during operation.
#[derive(Debug)]
pub enum IpcRpcError {
    /// Input or output failed.
    IoError(Arc<std::io::Error>),
    /// The channel to the peer failed.
    IpcChannelError(Arc<ipc_channel::Error>),
    /// The connection was not established in time.
    ConnectTimeout,
    /// The first message of the peer was not the one that opens a connection.
    HandshakeFailure,
    /// A second client tried to connect.
    ClientAlreadyConnected,
    /// The peer has disconnected.
    Disconnected,
    /// No reply came before the deadline.
    ReplyTimeout,
    /// The task that would have produced the awaited value is gone.
    ConnectionDropped,
}

impl IpcRpcError {
    /// The text that describes the error.
    pub open spec fn text(self) -> Seq<char> {
        match self {
            IpcRpcError::IoError(_) => "io error"@,
            IpcRpcError::IpcChannelError(_) => "internal ipc channel error"@,
            IpcRpcError::ConnectTimeout => "connection initialization timed out"@,
            IpcRpcError::HandshakeFailure =>
                "connection established, but initial handshake was not performed properly"@,
            IpcRpcError::ClientAlreadyConnected => "client already connected"@,
            IpcRpcError::Disconnected => "peer disconnected"@,
            IpcRpcError::ReplyTimeout => "time out while waiting for a reply"@,
            IpcRpcError::ConnectionDropped => "connection dropped pre-emptively"@,
        }
    }

    /// Describes the error in words.
    pub fn to_string(&self) -> (r: String)
        ensures
            r@ == self.text(),
    {
        let text = match self {
            IpcRpcError::IoError(_) => "io error",
            IpcRpcError::IpcChannelError(_) => "internal ipc channel error",
            IpcRpcError::ConnectTimeout => "connection initialization timed out",
            IpcRpcError::HandshakeFailure =>
                "connection established, but initial handshake was not performed properly",
            IpcRpcError::ClientAlreadyConnected => "client already connected",
            IpcRpcError::Disconnected => "peer disconnected",
            IpcRpcError::ReplyTimeout => "time out while waiting for a reply",
            IpcRpcError::ConnectionDropped => "connection dropped pre-emptively",
        };
        text.to_owned()
    }
}

/// The words for each error. What the error came from does not show in them.
pub proof fn law_each_error_has_its_words(e: IpcRpcError)
    ensures
        e is IoError ==> e.text() == "io error"@,
        e is IpcChannelError ==> e.text() == "internal ipc channel error"@,
        e is ConnectTimeout ==> e.text() == "connection initialization timed out"@,
        e is HandshakeFailure ==> e.text()
            == "connection established, but initial handshake was not performed properly"@,
        e is ClientAlreadyConnected ==> e.text() == "client already connected"@,
        e is Disconnected ==> e.text() == "peer disconnected"@,
        e is ReplyTimeout ==> e.text() == "time out while waiting for a reply"@,
        e is ConnectionDropped ==> e.text() == "connection dropped pre-emptively"@,
{
}

impl Clone for IpcRpcError {
    fn clone(&self) -> (r: Self)
        ensures
            r == *self,
    {
        match self {
            IpcRpcError::IoError(e) => IpcRpcError::IoError(Arc::clone(e)),
            IpcRpcError::IpcChannelError(e) => IpcRpcError::IpcChannelError(Arc::clone(e)),
            IpcRpcError::ConnectTimeout => IpcRpcError::ConnectTimeout,
            IpcRpcError::HandshakeFailure => IpcRpcError::HandshakeFailure,
            IpcRpcError::ClientAlreadyConnected => IpcRpcError::ClientAlreadyConnected,
            IpcRpcError::Disconnected => IpcRpcError::Disconnected,
            IpcRpcError::ReplyTimeout => IpcRpcError::ReplyTimeout,
            IpcRpcError::ConnectionDropped => IpcRpcError::ConnectionDropped,
        }
    }
}

impl From<std::io::Error> for IpcRpcError {
    fn from(e: std::io::Error) -> (r: Self)
        ensures
            r == IpcRpcError::IoError(Arc::new(e)),
    {
        Self::IoError(Arc::new(e))
    }
}

impl vstd::std_specs::convert::FromSpecImpl<std::io::Error> for IpcRpcError {
    open spec fn obeys_from_spec() -> bool {
        true
    }

    open spec fn from_spec(e: std::io::Error) -> Self {
        IpcRpcError::IoError(Arc::new(e))
    }
}

impl From<Arc<std::io::Error>> for IpcRpcError {
    fn from(e: Arc<std::io::Error>) -> (r: Self)
        ensures
            r == IpcRpcError::IoError(e),
    {
        Self::IoError(e)
    }
}

impl vstd::std_specs::convert::FromSpecImpl<Arc<std::io::Error>> for IpcRpcError {
    open spec fn obeys_from_spec() -> bool {
        true
    }

    open spec fn from_spec(e: Arc<std::io::Error>) -> Self {
        IpcRpcError::IoError(e)
    }
}

impl From<Arc<ipc_channel::Error>> for IpcRpcError {
    fn from(e: Arc<ipc_channel::Error>) -> (r: Self)
        ensures
            r == IpcRpcError::IpcChannelError(e),
    {
        Self::IpcChannelError(e)
    }
}

impl vstd::std_specs::convert::FromSpecImpl<Arc<ipc_channel::Error>> for IpcRpcError {
    open spec fn obeys_from_spec() -> bool {
        true
    }

    open spec fn from_spec(e: Arc<ipc_channel::Error>) -> Self {
        IpcRpcError::IpcChannelError(e)
    }
}

impl From<ipc_channel::Error> for IpcRpcError {
    fn from(e: ipc_channel::Error) -> (r: Self)
        ensures
            r == IpcRpcError::IpcChannelError(Arc::new(e)),
    {
        Self::IpcChannelError(Arc::new(e))
    }
}

impl vstd::std_specs::convert::FromSpecImpl<ipc_channel::Error> for IpcRpcError {
    open spec fn obeys_from_spec() -> bool {
        true
    }

    open spec fn from_spec(e: ipc_channel::Error) -> Self {
        IpcRpcError::IpcChannelError(Arc::new(e))
    }
}

} // verus!
