//! What travels between the two ends, and what becomes of a reply.
use crate::error::IpcRpcError;
use crate::key::is_random_uuid;
use crate::key::new_uuid;
use crate::pending::PendingReply;
use crate::pending::PendingReplyEntry;
use vstd::prelude::*;

verus! {

/// How long a `send()` style call waits for its reply, in nanoseconds: five seconds.
pub const DEFAULT_REPLY_TIMEOUT: u128 = 5_000_000_000;

/// What a type must offer to be used as a message. Serialisation is the business of whoever
/// moves the messages.
pub trait UserMessage: 'static + Send + std::fmt::Debug + Clone {

}

impl<T> UserMessage for T where T: 'static + Send + std::fmt::Debug + Clone {

}

/// A message with what its delivery needs: the envelope of a letter.
#[derive(Debug, Clone)]
pub struct InternalMessage<U: UserMessage, P> {
    /// An identifier used for pairing messages with responses. A response to a message carries
    /// the identifier the message itself had.
    pub uuid: u128,
    /// The actual contents of the message.
    pub kind: InternalMessageKind<U, P>,
}

/// The reasons to send a message. `P` is the sending end of a channel back to the sender.
#[derive(Debug, Clone)]
pub enum InternalMessageKind<U: UserMessage, P> {
    /// Opens a connection, and brings the means to reach the client.
    InitConnection(P),
    /// The conversation has come to a close, it's time to shut down.
    Hangup,
    /// A message between the users of the two ends.
    UserMessage(U),
    /// Describes the user message schema for validation purposes.
    UserMessageSchema(String),
    /// Returned if the user message schema matched.
    UserMessageSchemaOk,
    /// Returned if the user message schema did not match.
    UserMessageSchemaError { other_schema: String },
}

/// A message that awaits a reply, and the time until which its sender waits for it.
#[derive(Debug, Clone)]
pub struct OutgoingRequest<U: UserMessage, P> {
    /// What to send.
    pub message: InternalMessage<U, P>,
    /// When the sender stops waiting.
    pub deadline: u128,
}

/// What is to be done to send a message whose reply is awaited. `D` is the drop box for the reply.
#[derive(Debug)]
pub enum SendStep<U: UserMessage, P, D> {
    /// Hand in a drop box for the reply.
    Register(PendingReplyEntry<D>),
    /// Send a message to the peer.
    Transmit(InternalMessage<U, P>),
}

/// The steps by which messages are sent in the order in which they stand.
pub open spec fn transmissions<U: UserMessage, P, D>(messages: Seq<InternalMessage<U, P>>) -> Seq<
    SendStep<U, P, D>,
> {
    messages.map_values(|message: InternalMessage<U, P>| SendStep::Transmit(message))
}

impl<U: UserMessage, P> InternalMessage<U, P> {
    /// A message of the given kind under a fresh identifier.
    pub fn new(kind: InternalMessageKind<U, P>) -> (r: Self)
        ensures
            r.kind == kind,
            is_random_uuid(r.uuid),
    {
        InternalMessage { uuid: new_uuid(), kind }
    }

    /// What goes back to the peer once the handler has answered the message `uuid`: nothing
    /// where the handler had no answer.
    pub fn user_reply(uuid: u128, answer: Option<U>) -> (r: Option<Self>)
        ensures
            r == Self::spec_user_reply(uuid, answer),
            r is Some <==> answer is Some,
            r matches Some(reply) ==> reply.uuid == uuid && reply.kind == InternalMessageKind::<
                U,
                P,
            >::UserMessage(answer->0),
    {
        match answer {
            Some(m) => Some(InternalMessage { uuid, kind: InternalMessageKind::UserMessage(m) }),
            None => None,
        }
    }

    /// The handler's answer, under the identifier of the message that it answers.
    pub open spec fn spec_user_reply(uuid: u128, answer: Option<U>) -> Option<Self> {
        match answer {
            Some(m) => Some(
                InternalMessage { uuid, kind: InternalMessageKind::UserMessage(m) },
            ),
            None => None,
        }
    }
}

impl<U: UserMessage, P> OutgoingRequest<U, P> {
    /// The request under the identifier `uuid`, made at `now`, whose sender waits for `timeout`.
    pub fn with_uuid(
        uuid: u128,
        kind: InternalMessageKind<U, P>,
        timeout: u128,
        now: u128,
    ) -> (r: Self)
        requires
            now + timeout <= u128::MAX,
        ensures
            r.message == (InternalMessage { uuid, kind }),
            r.deadline == now + timeout,
    {
        OutgoingRequest { message: InternalMessage { uuid, kind }, deadline: now + timeout }
    }

    /// A request under a fresh identifier, made at `now`, whose sender waits for `timeout`.
    pub fn internal_send(kind: InternalMessageKind<U, P>, timeout: u128, now: u128) -> (r: Self)
        requires
            now + timeout <= u128::MAX,
        ensures
            r.message.kind == kind,
            is_random_uuid(r.message.uuid),
            r.deadline == now + timeout,
    {
        OutgoingRequest::with_uuid(new_uuid(), kind, timeout, now)
    }

    /// What it takes to send the request and to get its reply: first its drop box goes up, then its
    /// message is sent, so that no reply can come before there is a drop box for it.
    pub open spec fn spec_steps<D>(self, drop_box: D) -> Seq<SendStep<U, P, D>> {
        seq![
            SendStep::Register(
                PendingReplyEntry {
                    uuid: self.message.uuid,
                    reply: PendingReply { drop_box, deadline: self.deadline },
                },
            ),
            SendStep::Transmit(self.message),
        ]
    }

    /// What is to be done, in this order, to send the request and to get its reply into `drop_box`.
    /// Nothing more is sent when the reply is awaited.
    pub fn steps<D>(self, drop_box: D) -> (r: Vec<SendStep<U, P, D>>)
        ensures
            r@ == self.spec_steps(drop_box),
            r@.len() == 2,
            r@[0] matches SendStep::Register(entry) && entry.uuid == self.message.uuid
                && entry.reply.drop_box == drop_box && entry.reply.deadline == self.deadline,
            r@[1] == SendStep::<U, P, D>::Transmit(self.message),
    {
        let mut steps: Vec<SendStep<U, P, D>> = Vec::new();
        steps.push(
            SendStep::Register(
                PendingReplyEntry {
                    uuid: self.message.uuid,
                    reply: PendingReply { drop_box, deadline: self.deadline },
                },
            ),
        );
        steps.push(SendStep::Transmit(self.message));
        steps
    }
}

/// What a failed or successful transmission means for the caller who awaits the reply: a
/// failure is reported in place of the reply.
pub fn transmission_outcome(sent: Result<(), ipc_channel::Error>) -> (r: Result<(), IpcRpcError>)
    ensures
        match sent {
            Ok(_) => r == Ok::<(), IpcRpcError>(()),
            Err(e) => r == Err::<(), IpcRpcError>(
                IpcRpcError::IpcChannelError(std::sync::Arc::new(e)),
            ),
        },
{
    match sent {
        Ok(_) => Ok(()),
        Err(e) => Err(IpcRpcError::from(e)),
    }
}

/// What a caller gets who awaits a reply: what came out of the drop box, or, where the drop
/// box is gone and nothing can come any more, that the connection was dropped.
pub open spec fn spec_reply_outcome<U: UserMessage, P>(
    received: Option<Result<InternalMessageKind<U, P>, IpcRpcError>>,
) -> Result<InternalMessageKind<U, P>, IpcRpcError> {
    match received {
        Some(reply) => reply,
        None => Err(IpcRpcError::ConnectionDropped),
    }
}

/// Tells what a caller gets who awaits a reply.
pub fn reply_outcome<U: UserMessage, P>(
    received: Option<Result<InternalMessageKind<U, P>, IpcRpcError>>,
) -> (r: Result<InternalMessageKind<U, P>, IpcRpcError>)
    ensures
        r == spec_reply_outcome(received),
        match received {
            Some(reply) => r == reply,
            None => r == Err::<InternalMessageKind<U, P>, IpcRpcError>(
                IpcRpcError::ConnectionDropped,
            ),
        },
{
    match received {
        Some(reply) => reply,
        None => Err(IpcRpcError::ConnectionDropped),
    }
}

/// Opens the reply to a user message. Such a message is answered by a user message or by an
/// error; a caller who is not sure of that asks [`is_user_reply`] first.
pub fn open_user_reply<U: UserMessage, P>(
    reply: Result<InternalMessageKind<U, P>, IpcRpcError>,
) -> (r: Result<U, IpcRpcError>)
    requires
        spec_is_user_reply(reply),
    ensures
        match reply {
            Ok(kind) => kind matches InternalMessageKind::UserMessage(m) && r == Ok::<
                U,
                IpcRpcError,
            >(m),
            Err(e) => r == Err::<U, IpcRpcError>(e),
        },
{
    match reply {
        Ok(InternalMessageKind::UserMessage(m)) => Ok(m),
        Ok(_) => vstd::pervasive::unreached(),
        Err(e) => Err(e),
    }
}

/// A handler's answer goes back as a user message under the identifier of the message that it
/// answers, and without an answer nothing goes back.
pub proof fn law_an_answer_carries_the_identifier_of_its_message<U: UserMessage, P>(
    uuid: u128,
    answer: Option<U>,
)
    ensures
        answer is None <==> InternalMessage::<U, P>::spec_user_reply(uuid, answer) is None,
        InternalMessage::<U, P>::spec_user_reply(uuid, answer) matches Some(reply) ==> reply.uuid
            == uuid && (reply.kind matches InternalMessageKind::UserMessage(m) && answer == Some(m)),
{
}

/// A caller gets what came out of the drop box, whatever it is, and learns that the connection was
/// dropped where nothing can come any more. User messages and errors are replies to a user message,
/// and nothing else is.
pub proof fn law_a_caller_gets_what_came<U: UserMessage, P>(
    reply: Result<InternalMessageKind<U, P>, IpcRpcError>,
)
    ensures
        spec_reply_outcome(Some(reply)) == reply,
        spec_reply_outcome::<U, P>(None) == Err::<InternalMessageKind<U, P>, IpcRpcError>(
            IpcRpcError::ConnectionDropped,
        ),
        !spec_is_user_reply(reply) <==> (reply matches Ok(kind) && !(kind is UserMessage)),
{
}

/// Messages are sent one by one, all of them and nothing else, in the order in which they stand.
pub proof fn law_messages_are_sent_in_order<U: UserMessage, P, D>(
    messages: Seq<InternalMessage<U, P>>,
)
    ensures
        transmissions::<U, P, D>(messages).len() == messages.len(),
        forall|i: int|
            0 <= i < messages.len() ==> #[trigger] transmissions::<U, P, D>(messages)[i]
                == SendStep::<U, P, D>::Transmit(messages[i]),
{
}

/// Whether a reply is one that a user message can be answered with.
pub open spec fn spec_is_user_reply<U: UserMessage, P>(
    reply: Result<InternalMessageKind<U, P>, IpcRpcError>,
) -> bool {
    reply matches Ok(kind) ==> kind is UserMessage
}

/// Tells whether a reply is one that a user message can be answered with.
pub fn is_user_reply<U: UserMessage, P>(
    reply: &Result<InternalMessageKind<U, P>, IpcRpcError>,
) -> (r: bool)
    ensures
        r == spec_is_user_reply(*reply),
        !r <==> (reply matches Ok(kind) && !(kind is UserMessage)),
{
    match reply {
        Ok(InternalMessageKind::UserMessage(_)) => true,
        Ok(_) => false,
        Err(_) => true,
    }
}

} // verus!
