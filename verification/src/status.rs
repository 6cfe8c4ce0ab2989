//! What the two ends report of their connection.
use crate::error::IpcRpcError;
use vstd::prelude::*;

verus! {

/// Reports the status of the connection between the server and the client.
#[derive(Debug)]
pub enum ConnectionStatus {
    /// The server is waiting for a client to connect. A client never waits for a server to connect.
    WaitingForClient,
    /// The connection is active.
    Connected,
    /// A shutdown happened, and this was normal. Nothing unexpected happened.
    DisconnectedCleanly,
    /// An unexpected shutdown occurred, error contained within.
    DisconnectError(IpcRpcError),
}

impl ConnectionStatus {
    /// How the session ended, or `None` while it has not.
    pub open spec fn session_end(self) -> Option<Result<(), IpcRpcError>> {
        match self {
            ConnectionStatus::WaitingForClient | ConnectionStatus::Connected => None,
            ConnectionStatus::DisconnectedCleanly => Some(Ok(())),
            ConnectionStatus::DisconnectError(e) => Some(Err(e)),
        }
    }

    /// Tells how the session ended, or `None` while it has not.
    pub fn session_end_result(&self) -> (r: Option<Result<(), IpcRpcError>>)
        ensures
            r == self.session_end(),
            r is None <==> self is WaitingForClient || self is Connected,
            r == Some(Ok::<(), IpcRpcError>(())) <==> self is DisconnectedCleanly,
            r matches Some(Err(e)) ==> *self == ConnectionStatus::DisconnectError(e),
    {
        match self {
            ConnectionStatus::WaitingForClient | ConnectionStatus::Connected => None,
            ConnectionStatus::DisconnectedCleanly => Some(Ok(())),
            ConnectionStatus::DisconnectError(e) => Some(Err(e.clone())),
        }
    }
}

/// How a session ended tells its status: it has not ended exactly while the server waits or the
/// connection is active, it ended well exactly after a clean shutdown, and it ended with an error
/// exactly where that error is what the status holds.
pub proof fn law_the_end_tells_the_status(status: ConnectionStatus, e: IpcRpcError)
    ensures
        status.session_end() is None <==> status is WaitingForClient || status is Connected,
        status.session_end() == Some(Ok::<(), IpcRpcError>(())) <==> status is DisconnectedCleanly,
        status.session_end() == Some(Err::<(), IpcRpcError>(e)) <==> status
            == ConnectionStatus::DisconnectError(e),
{
}

impl Clone for ConnectionStatus {
    fn clone(&self) -> (r: Self)
        ensures
            r == *self,
    {
        match self {
            ConnectionStatus::WaitingForClient => ConnectionStatus::WaitingForClient,
            ConnectionStatus::Connected => ConnectionStatus::Connected,
            ConnectionStatus::DisconnectedCleanly => ConnectionStatus::DisconnectedCleanly,
            ConnectionStatus::DisconnectError(e) => ConnectionStatus::DisconnectError(e.clone()),
        }
    }
}

/// Reports the outcome of automatic schema validation testing. This testing is performed
/// on connection initiation.
#[derive(Debug)]
pub enum SchemaValidationStatus {
    /// Validation is switched off, so it does not take place.
    ValidationDisabledAtCompileTime,
    /// The peer answered with something that is no answer to a schema.
    ValidationNotPerformedProperly,
    /// The schema or the answer to it did not arrive.
    ValidationCommunicationFailed(IpcRpcError),
    /// Schemas matched, all clear.
    SchemasMatched,
    /// Schemas didn't match, schemas provided for comparison.
    SchemaMismatch { our_schema: String, their_schema: String },
}

impl SchemaValidationStatus {
    /// Returns true if this is an instance of [`Self::SchemasMatched`], and false otherwise.
    pub fn is_success(&self) -> (r: bool)
        ensures
            r == (self is SchemasMatched),
    {
        matches!(self, SchemaValidationStatus::SchemasMatched)
    }

    /// Insists that this is an instance of [`Self::SchemasMatched`]. A caller who does not know
    /// that asks [`Self::is_success`] first.
    pub fn assert_success(&self)
        requires
            self is SchemasMatched,
    {
        if !self.is_success() {
            vstd::pervasive::unreached::<()>()
        }
    }
}

impl Clone for SchemaValidationStatus {
    fn clone(&self) -> (r: Self)
        ensures
            r == *self,
    {
        match self {
            SchemaValidationStatus::ValidationDisabledAtCompileTime =>
                SchemaValidationStatus::ValidationDisabledAtCompileTime,
            SchemaValidationStatus::ValidationNotPerformedProperly =>
                SchemaValidationStatus::ValidationNotPerformedProperly,
            SchemaValidationStatus::ValidationCommunicationFailed(e) =>
                SchemaValidationStatus::ValidationCommunicationFailed(e.clone()),
            SchemaValidationStatus::SchemasMatched => SchemaValidationStatus::SchemasMatched,
            SchemaValidationStatus::SchemaMismatch { our_schema, their_schema } =>
                SchemaValidationStatus::SchemaMismatch {
                our_schema: our_schema.clone(),
                their_schema: their_schema.clone(),
            },
        }
    }
}

} // verus!
