//! The client's end of a connection.
use crate::error::IpcRpcError;
use crate::key::is_random_uuid;
use crate::message::InternalMessage;
use crate::message::InternalMessageKind;
use crate::message::OutgoingRequest;
use crate::message::SendStep;
use crate::message::UserMessage;
use crate::message::DEFAULT_REPLY_TIMEOUT;
use crate::schema::is_validation_outcome;
use crate::session::are_schema_check_steps;
use crate::session::get_log_prefix;
use crate::session::log_prefix;
use crate::session::schema_view;
use crate::session::Session;
use crate::session::SessionState;
use crate::status::ConnectionStatus;
use crate::status::SchemaValidationStatus;
use std::marker::PhantomData;
use vstd::prelude::*;

verus! {

/// What a client knows of the server that it is connected to.
#[derive(Debug)]
pub struct IpcRpcClient<U: UserMessage> {
    session: Session,
    phantom: PhantomData<U>,
}

impl<U: UserMessage> View for IpcRpcClient<U> {
    type V = SessionState;

    closed spec fn view(&self) -> SessionState {
        self.session@
    }
}

/// How many handles of one client there are.
#[derive(Debug)]
pub struct ClientHandles {
    left: usize,
}

impl View for ClientHandles {
    type V = int;

    closed spec fn view(&self) -> int {
        self.left as int
    }
}

/// What can happen to the handles of a client.
#[derive(Debug, Clone, Copy, PartialEq, Eq, Structural)]
pub enum HandleEvent {
    /// One of them was cloned.
    Cloned,
    /// One of them was dropped.
    Dropped,
}

/// How many handles there are after an event.
pub open spec fn handles_after(handles: int, event: HandleEvent) -> int {
    match event {
        HandleEvent::Cloned => handles + 1,
        HandleEvent::Dropped => handles - 1,
    }
}

/// Whether an event makes a client hang up, where there were `handles` handles before it: when the
/// last of them is dropped.
pub open spec fn sends_hangup(handles: int, event: HandleEvent) -> bool {
    event is Dropped && handles == 1
}

impl ClientHandles {
    /// One handle.
    pub fn new() -> (r: Self)
        ensures
            r@ == 1,
    {
        ClientHandles { left: 1 }
    }

    /// How many handles there are.
    pub fn count(&self) -> (r: usize)
        ensures
            r == self@,
    {
        self.left
    }

    /// Takes note that a handle was cloned.
    pub fn cloned(&mut self)
        requires
            0 < old(self)@ < usize::MAX,
        ensures
            final(self)@ == handles_after(old(self)@, HandleEvent::Cloned),
            final(self)@ == old(self)@ + 1,
    {
        self.left = self.left + 1;
    }
}

/// Whether `steps` begin a client that its server reaches through `peer`: first it opens the
/// connection, and then it has its schema checked, once.
pub open spec fn is_client_opening<U: UserMessage, P, D>(
    steps: Seq<SendStep<U, P, D>>,
    peer: P,
    our_schema: Option<Seq<char>>,
    drop_box: D,
    now: u128,
) -> bool {
    &&& steps.len() > 0
    &&& steps[0] matches SendStep::Transmit(init)
    &&& init.kind == InternalMessageKind::<U, P>::InitConnection(peer)
    &&& is_random_uuid(init.uuid)
    &&& are_schema_check_steps(steps.skip(1), our_schema, drop_box, now)
}

impl<U: UserMessage> IpcRpcClient<U> {
    /// Begins a client in the process `process` that the server reaches through `peer`, at the time
    /// `now`. `our_schema` is the schema of its messages, or `None` where schemas are not validated.
    ///
    /// With the client comes what is to be done, in this order, before anyone gets to send through
    /// it: open the connection, and have the schema checked, with the reply going into `drop_box`.
    /// The validation is concluded from that reply.
    pub fn initialize_client<P, D>(
        peer: P,
        process: Option<&str>,
        our_schema: Option<String>,
        drop_box: D,
        now: u128,
    ) -> (r: (Self, Vec<SendStep<U, P, D>>))
        requires
            now + DEFAULT_REPLY_TIMEOUT <= u128::MAX,
        ensures
            r.0@ == SessionState::initial(
                ConnectionStatus::Connected,
                schema_view(our_schema),
                log_prefix(false, process),
            ),
            r.0@.wf(),
            is_client_opening(r.1@, peer, schema_view(our_schema), drop_box, now),
    {
        let session = Session::new(
            ConnectionStatus::Connected,
            our_schema,
            get_log_prefix(false, process),
        );
        let mut opening: Vec<SendStep<U, P, D>> = Vec::new();
        opening.push(
            SendStep::Transmit(InternalMessage::new(InternalMessageKind::InitConnection(peer))),
        );
        let mut check = session.schema_check_steps(drop_box, now);
        let ghost steps = check@;
        opening.append(&mut check);
        assert(opening@.skip(1) =~= steps);
        (IpcRpcClient { session, phantom: PhantomData }, opening)
    }

    /// Takes note that the incoming mail is no longer processed: the session is over, and `end` tells
    /// how it ended.
    pub fn mail_stopped(&mut self, end: ConnectionStatus)
        requires
            old(self)@.wf(),
            end.session_end() is Some,
        ensures
            final(self)@ == old(self)@.with_status(end),
            final(self)@.wf(),
    {
        self.session.publish_status(end);
    }

    /// Takes note that the task that publishes the status is gone.
    pub fn status_sender_gone(&mut self)
        requires
            old(self)@.wf(),
        ensures
            final(self)@ == old(self)@.without_status_sender(),
            final(self)@.wf(),
    {
        self.session.status_sender_gone();
    }

    /// Concludes the validation from the reply to our own schema.
    pub fn conclude_validation<P>(&mut self, reply: Result<InternalMessageKind<U, P>, IpcRpcError>)
        requires
            old(self)@.wf(),
            old(self)@.our_schema is Some,
        ensures
            final(self)@ == old(self)@.with_validation(final(self)@.validation),
            old(self)@.validation_open ==> is_validation_outcome(
                final(self)@.validation,
                reply,
                old(self)@.our_schema->0,
            ),
            final(self)@.wf(),
    {
        self.session.conclude_validation(reply);
    }

    /// Takes note that the validation will not come to a conclusion: the task that waits for the
    /// reply is gone.
    pub fn validation_sender_gone(&mut self)
        requires
            old(self)@.wf(),
        ensures
            final(self)@ == old(self)@.without_validation_sender(),
            final(self)@.wf(),
    {
        self.session.validation_sender_gone();
    }

    /// A message for the server, made at `now`, whose sender waits the given `timeout` for a
    /// reply.
    pub fn send_timeout<P>(&self, user_message: U, timeout: u128, now: u128) -> (r: OutgoingRequest<
        U,
        P,
    >)
        requires
            now + timeout <= u128::MAX,
        ensures
            r.message.kind == InternalMessageKind::<U, P>::UserMessage(user_message),
            is_random_uuid(r.message.uuid),
            r.deadline == now + timeout,
    {
        OutgoingRequest::internal_send(
            InternalMessageKind::UserMessage(user_message),
            timeout,
            now,
        )
    }

    /// A message for the server, made at `now`, whose sender will give up on receiving a reply
    /// after [`DEFAULT_REPLY_TIMEOUT`] has passed.
    pub fn send<P>(&self, user_message: U, now: u128) -> (r: OutgoingRequest<U, P>)
        requires
            now + DEFAULT_REPLY_TIMEOUT <= u128::MAX,
        ensures
            r.message.kind == InternalMessageKind::<U, P>::UserMessage(user_message),
            is_random_uuid(r.message.uuid),
            r.deadline == now + DEFAULT_REPLY_TIMEOUT,
    {
        self.send_timeout(user_message, DEFAULT_REPLY_TIMEOUT, now)
    }

    /// The message that a handle sends when it is dropped, being one of `handles`: only the last
    /// one has something to send. A handle that stays can still send.
    pub fn hangup<P>(&self, handles: &mut ClientHandles) -> (r: Option<InternalMessage<U, P>>)
        requires
            old(handles)@ > 0,
        ensures
            final(handles)@ == handles_after(old(handles)@, HandleEvent::Dropped),
            final(handles)@ == old(handles)@ - 1,
            r is Some <==> final(handles)@ == 0,
            match r {
                Some(message) => sends_hangup(old(handles)@, HandleEvent::Dropped)
                    && message.kind is Hangup && is_random_uuid(message.uuid),
                None => !sends_hangup(old(handles)@, HandleEvent::Dropped),
            },
    {
        handles.left = handles.left - 1;
        if handles.left == 0 {
            Some(InternalMessage::new(InternalMessageKind::Hangup))
        } else {
            None
        }
    }

    /// What someone gets who waits for the server to disconnect, or `None` as long as there is
    /// nothing but to wait.
    pub fn wait_for_server_to_disconnect(&self) -> (r: Option<Result<(), IpcRpcError>>)
        ensures
            r == self@.end(),
    {
        self.session.end()
    }

    /// The outcome of automatic schema validation testing, or `None` as long as there is nothing
    /// but to wait. This testing is performed on connection initiation.
    pub fn schema_validated(&self) -> (r: Option<Result<SchemaValidationStatus, IpcRpcError>>)
        ensures
            r == self@.schema_outcome(),
    {
        self.session.schema_validated()
    }

    /// The schema of our own messages, unless schemas are not validated.
    pub fn our_schema(&self) -> (r: Option<&str>)
        ensures
            match r {
                Some(schema) => self@.our_schema == Some(schema@),
                None => self@.our_schema is None,
            },
    {
        self.session.our_schema()
    }

    /// What the lines that this end logs begin with.
    pub fn log_prefix(&self) -> (r: &str)
        ensures
            r@ == self@.log_prefix,
    {
        self.session.log_prefix()
    }
}

/// A copy knows what the session was like when it was made. What happens later is to be reported
/// to it as well; handles that are to learn of it together share one value.
impl<U: UserMessage> Clone for IpcRpcClient<U> {
    fn clone(&self) -> (r: Self)
        ensures
            r@ == self@,
    {
        IpcRpcClient { session: self.session.clone(), phantom: PhantomData }
    }
}

} // verus!
