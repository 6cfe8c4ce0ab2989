//! The server's end of a connection, and how a server starts its client.
use crate::environment::assigned;
use crate::environment::assignments_view;
use crate::environment::names_distinct;
use crate::environment::Environment;
use crate::error::IpcRpcError;
use crate::key::denotes;
use crate::key::is_random_uuid;
use crate::key::is_reading;
use crate::key::ConnectionKey;
use crate::message::InternalMessage;
use crate::message::InternalMessageKind;
use crate::message::transmissions;
use crate::message::OutgoingRequest;
use crate::message::SendStep;
use crate::message::UserMessage;
use crate::message::DEFAULT_REPLY_TIMEOUT;
use crate::schema::is_validation_outcome;
use crate::session::are_schema_check_steps;
use crate::session::get_log_prefix;
use crate::session::log_prefix;
use crate::session::schema_view;
use crate::session::Session;
use crate::session::SessionState;
use crate::status::ConnectionStatus;
use crate::status::SchemaValidationStatus;
use std::marker::PhantomData;
use std::str::FromStr;
use vstd::prelude::*;

verus! {

/// What a server knows of the client that it serves, assuming that one does connect.
#[derive(Debug)]
pub struct IpcRpcServer<U: UserMessage> {
    session: Session,
    phantom: PhantomData<U>,
}

impl<U: UserMessage> View for IpcRpcServer<U> {
    type V = SessionState;

    closed spec fn view(&self) -> SessionState {
        self.session@
    }
}

/// How a server goes on once it got its first message, or failed to.
#[derive(Debug)]
pub enum Startup<U: UserMessage, P, D> {
    /// There is nobody to serve.
    Refused,
    /// Serve the client that is reached through `peer`. The steps of `opening` come first, in this
    /// order. Where schemas are validated, the validation is concluded from the reply to the schema
    /// among them.
    Serve { peer: P, opening: Vec<SendStep<U, P, D>> },
}

/// Whether `steps` begin to serve a client at `now`: first the server has its schema checked, with
/// the reply going into `drop_box`, and then it sends what was `queued` before, in order.
pub open spec fn is_server_opening<U: UserMessage, P, D>(
    steps: Seq<SendStep<U, P, D>>,
    our_schema: Option<Seq<char>>,
    queued: Seq<InternalMessage<U, P>>,
    drop_box: D,
    now: u128,
) -> bool {
    &&& steps.len() >= queued.len()
    &&& are_schema_check_steps(
        steps.take(steps.len() - queued.len()),
        our_schema,
        drop_box,
        now,
    )
    &&& steps.skip(steps.len() - queued.len()) == transmissions::<U, P, D>(queued)
}

/// The status of a server that got its first message, or failed to: only a message that opens
/// a connection is good enough.
pub open spec fn status_after_startup<U: UserMessage, P>(
    first: Result<InternalMessage<U, P>, ipc_channel::Error>,
) -> ConnectionStatus {
    match first {
        Ok(message) => if message.kind is InitConnection {
            ConnectionStatus::Connected
        } else {
            ConnectionStatus::DisconnectError(IpcRpcError::HandshakeFailure)
        },
        Err(e) => ConnectionStatus::DisconnectError(
            IpcRpcError::IpcChannelError(std::sync::Arc::new(e)),
        ),
    }
}

/// Whether a first message opens a connection.
pub open spec fn opens_connection<U: UserMessage, P>(
    first: Result<InternalMessage<U, P>, ipc_channel::Error>,
) -> bool {
    first matches Ok(message) && message.kind is InitConnection
}

/// The session of a server that got its first message, or failed to. Where there is nobody to serve,
/// the schemas will not be validated.
pub open spec fn after_startup<U: UserMessage, P>(
    state: SessionState,
    first: Result<InternalMessage<U, P>, ipc_channel::Error>,
) -> SessionState {
    let published = state.with_status(status_after_startup(first));
    if opens_connection(first) {
        published
    } else {
        published.without_validation_sender()
    }
}

impl<U: UserMessage> IpcRpcServer<U> {
    /// Begins a server that is reached under `server_name`, in the process `process`, and provides
    /// the [`ConnectionKey`] which a client can use to connect to it. `our_schema` is the schema
    /// of its messages, or `None` where schemas are not validated. A name that is no identifier
    /// makes no key.
    pub fn initialize_server(
        server_name: &str,
        process: Option<&str>,
        our_schema: Option<String>,
    ) -> (r: Result<(ConnectionKey, Self), uuid::Error>)
        ensures
            match r {
                Ok((key, server)) => {
                    &&& is_reading(server_name@, Ok(key@))
                    &&& denotes(server_name@, key@)
                    &&& server@ == SessionState::initial(
                        ConnectionStatus::WaitingForClient,
                        schema_view(our_schema),
                        log_prefix(true, process),
                    )
                    &&& server@.wf()
                },
                Err(e) => is_reading(server_name@, Err(e)) && forall|v: u128|
                    !denotes(server_name@, v),
            },
    {
        match ConnectionKey::from_str(server_name) {
            Ok(key) => Ok(
                (
                    key,
                    IpcRpcServer {
                        session: Session::new(
                            ConnectionStatus::WaitingForClient,
                            our_schema,
                            get_log_prefix(true, process),
                        ),
                        phantom: PhantomData,
                    },
                ),
            ),
            Err(e) => Err(e),
        }
    }

    /// Takes in the first message, or that there is none, at the time `now`. A client that opens
    /// a connection is served; anything else ends the session before it began. `queued` are the
    /// messages that were to be sent before there was a client, and `drop_box` is for the reply to
    /// the server's schema.
    pub fn startup<P, D>(
        &mut self,
        first: Result<InternalMessage<U, P>, ipc_channel::Error>,
        queued: Vec<InternalMessage<U, P>>,
        drop_box: D,
        now: u128,
    ) -> (r: Startup<U, P, D>)
        requires
            old(self)@.wf(),
            old(self)@.status_open,
            old(self)@.status is WaitingForClient,
            now + DEFAULT_REPLY_TIMEOUT <= u128::MAX,
        ensures
            final(self)@.wf(),
            final(self)@ == after_startup(old(self)@, first),
            match first {
                Ok(message) => if message.kind is InitConnection {
                    final(self)@.status is Connected && final(self)@.status_open
                } else {
                    final(self)@.status == ConnectionStatus::DisconnectError(
                        IpcRpcError::HandshakeFailure,
                    )
                },
                Err(e) => final(self)@.status == ConnectionStatus::DisconnectError(
                    IpcRpcError::IpcChannelError(std::sync::Arc::new(e)),
                ),
            },
            match first {
                Ok(
                    InternalMessage { kind: InternalMessageKind::InitConnection(client), uuid: _ },
                ) => {
                    &&& r matches Startup::Serve { peer, opening }
                    &&& peer == client
                    &&& is_server_opening(
                        opening@,
                        old(self)@.our_schema,
                        queued@,
                        drop_box,
                        now,
                    )
                },
                _ => r is Refused,
            },
    {
        match first {
            Ok(message) => match message.kind {
                InternalMessageKind::InitConnection(peer) => {
                    self.session.publish_status(ConnectionStatus::Connected);
                    Startup::Serve { peer, opening: self.opening(queued, drop_box, now) }
                },
                _ => {
                    self.session.publish_status(
                        ConnectionStatus::DisconnectError(IpcRpcError::HandshakeFailure),
                    );
                    self.session.validation_sender_gone();
                    Startup::Refused
                },
            },
            Err(e) => {
                self.session.publish_status(
                    ConnectionStatus::DisconnectError(IpcRpcError::from(e)),
                );
                self.session.validation_sender_gone();
                Startup::Refused
            },
        }
    }

    /// What comes first when a client is served.
    fn opening<P, D>(
        &self,
        queued: Vec<InternalMessage<U, P>>,
        drop_box: D,
        now: u128,
    ) -> (r: Vec<SendStep<U, P, D>>)
        requires
            now + DEFAULT_REPLY_TIMEOUT <= u128::MAX,
        ensures
            is_server_opening(r@, self@.our_schema, queued@, drop_box, now),
    {
        let mut opening: Vec<SendStep<U, P, D>> = self.session.schema_check_steps(drop_box, now);
        let ghost check = opening@;
        let ghost all = transmissions::<U, P, D>(queued@);
        let ghost messages = queued@;
        for message in it: queued
            invariant
                it.seq() == messages,
                all == transmissions::<U, P, D>(messages),
                opening@ == check + all.take(it.index() as int),
        {
            opening.push(SendStep::Transmit(message));
            assert(all.take(it.index() + 1) =~= all.take(it.index() as int).push(
                SendStep::Transmit(message),
            ));
        }
        assert(all.take(all.len() as int) =~= all);
        assert(opening@.take(check.len() as int) =~= check);
        assert(opening@.skip(check.len() as int) =~= all);
        opening
    }

    /// Takes note that the incoming mail is no longer processed: the session is over, and `end` tells
    /// how it ended.
    pub fn mail_stopped(&mut self, end: ConnectionStatus)
        requires
            old(self)@.wf(),
            end.session_end() is Some,
            // a server that waits for its client has no mail
            !(old(self)@.status is WaitingForClient) || !old(self)@.status_open,
        ensures
            final(self)@ == old(self)@.with_status(end),
            final(self)@.wf(),
    {
        self.session.publish_status(end);
    }

    /// Takes note that the task that publishes the status is gone.
    pub fn status_sender_gone(&mut self)
        requires
            old(self)@.wf(),
        ensures
            final(self)@ == old(self)@.without_status_sender(),
            final(self)@.wf(),
    {
        self.session.status_sender_gone();
    }

    /// Concludes the validation from the reply to our own schema.
    pub fn conclude_validation<P>(&mut self, reply: Result<InternalMessageKind<U, P>, IpcRpcError>)
        requires
            old(self)@.wf(),
            old(self)@.our_schema is Some,
        ensures
            final(self)@ == old(self)@.with_validation(final(self)@.validation),
            old(self)@.validation_open ==> is_validation_outcome(
                final(self)@.validation,
                reply,
                old(self)@.our_schema->0,
            ),
            final(self)@.wf(),
    {
        self.session.conclude_validation(reply);
    }

    /// Takes note that the validation will not come to a conclusion: our own schema could not be
    /// sent, or the task that waits for the reply is gone.
    pub fn validation_sender_gone(&mut self)
        requires
            old(self)@.wf(),
        ensures
            final(self)@ == old(self)@.without_validation_sender(),
            final(self)@.wf(),
    {
        self.session.validation_sender_gone();
    }

    /// A message for the client, made at `now`, whose sender will give up on receiving a reply
    /// after [`DEFAULT_REPLY_TIMEOUT`] has passed.
    pub fn send<P>(&self, user_message: U, now: u128) -> (r: OutgoingRequest<U, P>)
        requires
            now + DEFAULT_REPLY_TIMEOUT <= u128::MAX,
        ensures
            r.message.kind == InternalMessageKind::<U, P>::UserMessage(user_message),
            is_random_uuid(r.message.uuid),
            r.deadline == now + DEFAULT_REPLY_TIMEOUT,
    {
        self.send_timeout(user_message, DEFAULT_REPLY_TIMEOUT, now)
    }

    /// A message for the client, made at `now`, whose sender waits the given `timeout` for a
    /// reply.
    pub fn send_timeout<P>(&self, user_message: U, timeout: u128, now: u128) -> (r: OutgoingRequest<
        U,
        P,
    >)
        requires
            now + timeout <= u128::MAX,
        ensures
            r.message.kind == InternalMessageKind::<U, P>::UserMessage(user_message),
            is_random_uuid(r.message.uuid),
            r.deadline == now + timeout,
    {
        OutgoingRequest::internal_send(
            InternalMessageKind::UserMessage(user_message),
            timeout,
            now,
        )
    }

    /// The message that a handle sends when it is dropped.
    pub fn hangup<P>(&self) -> (r: InternalMessage<U, P>)
        ensures
            r.kind is Hangup,
            is_random_uuid(r.uuid),
    {
        InternalMessage::new(InternalMessageKind::Hangup)
    }

    /// Whether the connection to a client is active.
    pub fn client_connected(&self) -> (r: bool)
        ensures
            r == (self@.status is Connected),
    {
        matches!(self.session.status(), ConnectionStatus::Connected)
    }

    /// What someone gets who waits for a client to connect, or `None` as long as there is
    /// nothing but to wait.
    pub fn wait_for_client_to_connect(&self) -> (r: Option<Result<(), IpcRpcError>>)
        ensures
            r == self@.connection(),
    {
        if self.client_connected() {
            Some(Ok(()))
        } else {
            self.session.end()
        }
    }

    /// What someone gets who waits for the client to disconnect, or `None` as long as there is
    /// nothing but to wait.
    pub fn wait_for_client_to_disconnect(&self) -> (r: Option<Result<(), IpcRpcError>>)
        ensures
            r == self@.end(),
    {
        self.session.end()
    }

    /// The outcome of automatic schema validation testing, or `None` as long as there is nothing
    /// but to wait. This testing is performed on connection initiation.
    pub fn schema_validated(&self) -> (r: Option<Result<SchemaValidationStatus, IpcRpcError>>)
        ensures
            r == self@.schema_outcome(),
    {
        self.session.schema_validated()
    }

    /// The schema of our own messages, unless schemas are not validated.
    pub fn our_schema(&self) -> (r: Option<&str>)
        ensures
            match r {
                Some(schema) => self@.our_schema == Some(schema@),
                None => self@.our_schema is None,
            },
    {
        self.session.our_schema()
    }

    /// What the lines that this end logs begin with.
    pub fn log_prefix(&self) -> (r: &str)
        ensures
            r@ == self@.log_prefix,
    {
        self.session.log_prefix()
    }
}

/// A copy knows what the session was like when it was made. What happens later is to be reported
/// to it as well; handles that are to learn of it together share one value.
impl<U: UserMessage> Clone for IpcRpcServer<U> {
    fn clone(&self) -> (r: Self)
        ensures
            r@ == self@,
    {
        IpcRpcServer { session: self.session.clone(), phantom: PhantomData }
    }
}

/// What there is to say of a client process when its server lets go of it.
#[derive(Debug, Clone, Copy, PartialEq, Eq, Structural)]
pub enum ClientExit {
    /// The process ended well.
    Success,
    /// The process failed. The exit code is there unless it was killed.
    Failure { code: Option<i32> },
    /// The process has not ended, as far as that can be told.
    StillRunning,
}

/// A server together with the client process that it owns. This structure is the preferred
/// way for servers to manage a relationship with a client.
#[derive(Debug)]
pub struct IpcRpc<U: UserMessage> {
    /// The server's end of the connection.
    pub server: IpcRpcServer<U>,
}

impl<U: UserMessage> IpcRpc<U> {
    /// Starts to describe a server and its client process.
    pub fn build() -> (r: IpcRpcBuilder<U>)
        ensures
            r.wf(),
            r.environment() == Map::<Seq<u8>, Seq<u8>>::empty(),
            r.directory() is None,
    {
        IpcRpcBuilder::new()
    }

    /// A message for the client, made at `now`, whose sender will give up on receiving a reply
    /// after [`DEFAULT_REPLY_TIMEOUT`] has passed.
    pub fn send<P>(&self, user_message: U, now: u128) -> (r: OutgoingRequest<U, P>)
        requires
            now + DEFAULT_REPLY_TIMEOUT <= u128::MAX,
        ensures
            r.message.kind == InternalMessageKind::<U, P>::UserMessage(user_message),
            is_random_uuid(r.message.uuid),
            r.deadline == now + DEFAULT_REPLY_TIMEOUT,
    {
        self.server.send(user_message, now)
    }

    /// A message for the client, made at `now`, whose sender waits the given `timeout` for a
    /// reply.
    pub fn send_timeout<P>(&self, user_message: U, timeout: u128, now: u128) -> (r: OutgoingRequest<
        U,
        P,
    >)
        requires
            now + timeout <= u128::MAX,
        ensures
            r.message.kind == InternalMessageKind::<U, P>::UserMessage(user_message),
            is_random_uuid(r.message.uuid),
            r.deadline == now + timeout,
    {
        self.server.send_timeout(user_message, timeout, now)
    }

    /// The outcome of automatic schema validation testing, or `None` as long as there is nothing
    /// but to wait.
    pub fn schema_validated(&self) -> (r: Option<Result<SchemaValidationStatus, IpcRpcError>>)
        ensures
            r == self.server@.schema_outcome(),
    {
        self.server.schema_validated()
    }

    /// What there is to say of the client process when it is let go of. `ended` tells whether it
    /// succeeded, and its exit code, if it is known to have ended.
    pub fn client_exit(ended: Option<(bool, Option<i32>)>) -> (r: ClientExit)
        ensures
            match ended {
                Some((true, _)) => r is Success,
                Some((false, code)) => r == (ClientExit::Failure { code }),
                None => r is StillRunning,
            },
    {
        match ended {
            Some((success, code)) => if success {
                ClientExit::Success
            } else {
                ClientExit::Failure { code }
            },
            None => ClientExit::StillRunning,
        }
    }
}

/// How to start a client process. The file, the directory, and the names and values of the
/// variables are byte strings, as the operating system has them.
#[derive(Debug, Clone)]
pub struct ClientLaunch {
    /// The executable which is expected to connect to the server on startup.
    pub path_to_exe: Vec<u8>,
    /// Environment variables to pass in besides those of the server, no name twice.
    pub env_vars: Vec<(Vec<u8>, Vec<u8>)>,
    /// The directory of the client on startup, or that of the server where there is none.
    pub current_dir: Option<Vec<u8>>,
}

/// Describes a client process and its server. This is initialized via [`IpcRpc::build`].
#[derive(Debug)]
pub struct IpcRpcBuilder<U: UserMessage> {
    current_dir: Option<Vec<u8>>,
    env_vars: Environment,
    phantom: PhantomData<U>,
}

impl<U: UserMessage> IpcRpcBuilder<U> {
    /// Every variable is set at most once.
    pub closed spec fn wf(self) -> bool {
        self.env_vars.wf()
    }

    /// The additional environment variables of the client.
    pub closed spec fn environment(self) -> Map<Seq<u8>, Seq<u8>> {
        self.env_vars@
    }

    /// The directory of the client on startup, if one was set.
    pub closed spec fn directory(self) -> Option<Seq<u8>> {
        match self.current_dir {
            Some(path) => Some(path@),
            None => None,
        }
    }

    /// No additional variables, and the directory of the server.
    fn new() -> (r: Self)
        ensures
            r.wf(),
            r.environment() == Map::<Seq<u8>, Seq<u8>>::empty(),
            r.directory() is None,
    {
        IpcRpcBuilder { current_dir: None, env_vars: Environment::new(), phantom: PhantomData }
    }

    /// Additional environment variable to pass in to the new client.
    pub fn env(&mut self, key: Vec<u8>, value: Vec<u8>) -> (r: &mut Self)
        requires
            old(self).wf(),
        ensures
            r.wf(),
            r.environment() == old(self).environment().insert(key@, value@),
            r.directory() == old(self).directory(),
            *final(self) == *final(r),
    {
        self.env_vars.set(key, value);
        self
    }

    /// Additional environment variables to pass in to the new client.
    pub fn envs(&mut self, vars: Vec<(Vec<u8>, Vec<u8>)>) -> (r: &mut Self)
        requires
            old(self).wf(),
        ensures
            r.wf(),
            r.environment() == assigned(old(self).environment(), assignments_view(vars@)),
            r.directory() == old(self).directory(),
            *final(self) == *final(r),
    {
        self.env_vars.set_all(vars);
        self
    }

    /// Sets the current directory for the new client process.
    pub fn current_dir(&mut self, path: Vec<u8>) -> (r: &mut Self)
        requires
            old(self).wf(),
        ensures
            r.wf(),
            r.environment() == old(self).environment(),
            r.directory() == Some(path@),
            *final(self) == *final(r),
    {
        self.current_dir = Some(path);
        self
    }

    /// How to start the client process from the executable `path_to_exe`.
    pub fn finish(&self, path_to_exe: Vec<u8>) -> (r: ClientLaunch)
        requires
            self.wf(),
        ensures
            r.path_to_exe@ == path_to_exe@,
            names_distinct(assignments_view(r.env_vars@)),
            assigned(Map::empty(), assignments_view(r.env_vars@)) == self.environment(),
            // every variable is there, with its value, and nothing else
            forall|i: int|
                0 <= i < r.env_vars@.len() ==> self.environment().contains_key(
                    (#[trigger] r.env_vars@[i]).0@,
                ) && self.environment()[r.env_vars@[i].0@] == r.env_vars@[i].1@,
            forall|name: Seq<u8>| #[trigger]
                self.environment().contains_key(name) ==> exists|i: int|
                    0 <= i < r.env_vars@.len() && (#[trigger] r.env_vars@[i]).0@ == name,
            forall|i: int, j: int|
                0 <= i < j < r.env_vars@.len() ==> (#[trigger] r.env_vars@[i]).0@ != (
                #[trigger] r.env_vars@[j]).0@,
            match r.current_dir {
                Some(path) => self.directory() == Some(path@),
                None => self.directory() is None,
            },
    {
        ClientLaunch {
            path_to_exe,
            env_vars: self.env_vars.assignments(),
            current_dir: self.copied_dir(),
        }
    }

    /// The directory of the client on startup, if one was set.
    fn copied_dir(&self) -> (r: Option<Vec<u8>>)
        ensures
            match r {
                Some(path) => self.directory() == Some(path@),
                None => self.directory() is None,
            },
    {
        match &self.current_dir {
            Some(path) => {
                let copy = path.clone();
                assert(copy@ =~= path@);
                Some(copy)
            },
            None => None,
        }
    }
}

impl<U: UserMessage> Clone for IpcRpcBuilder<U> {
    fn clone(&self) -> (r: Self)
        ensures
            r.wf() == self.wf(),
            r.environment() == self.environment(),
            r.directory() == self.directory(),
    {
        IpcRpcBuilder {
            current_dir: self.copied_dir(),
            env_vars: self.env_vars.clone(),
            phantom: PhantomData,
        }
    }
}

impl<U: UserMessage> Default for IpcRpcBuilder<U> {
    fn default() -> (r: Self)
        ensures
            r.wf(),
            r.environment() == Map::<Seq<u8>, Seq<u8>>::empty(),
            r.directory() is None,
    {
        IpcRpcBuilder::new()
    }
}

} // verus!
