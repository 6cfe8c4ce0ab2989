//! What an end does with its incoming mail.
use crate::error::IpcRpcError;
use crate::message::InternalMessage;
use crate::message::InternalMessageKind;
use crate::message::UserMessage;
use crate::pending::lists_overdue;
use crate::pending::overdue;
use crate::pending::still_pending;
use crate::pending::PendingReplies;
use crate::pending::PendingReply;
use crate::pending::PendingReplyEntry;
use crate::schema::answer_schema_check;
use crate::schema::is_schema_answer;
use crate::schema::schema_comparison;
use crate::status::ConnectionStatus;
use vstd::prelude::*;

verus! {

/// How often the awaited replies are looked through for overdue ones, in nanoseconds: every
/// hundred milliseconds.
pub const PENDING_REPLY_CLEANUP_CHECK_DURATION: u128 = 100_000_000;

/// How many receive errors in a row are put up with.
pub const MAX_CONSECUTIVE_ERRORS: u32 = 20;

/// Why nothing could be received.
#[derive(Debug)]
pub enum ReceiveError {
    /// The peer is gone.
    Disconnected,
    /// A message could not be received or understood.
    Other(IpcRpcError),
}

/// What can happen to an end while it processes its incoming mail. `D` is the drop box of a
/// caller who awaits a reply.
#[derive(Debug)]
pub enum MailEvent<U: UserMessage, P, D> {
    /// The time to look for overdue replies has come.
    SweepDue,
    /// A message was sent, and its sender awaits the reply.
    Register(PendingReplyEntry<D>),
    /// Everyone who could still send a message is gone.
    HandlesGone,
    /// A message came in.
    Received(InternalMessage<U, P>),
    /// A message could not be received.
    ReceiveFailed(ReceiveError),
    /// No further message can come in.
    StreamEnded,
}

/// What goes into the drop box of a caller who awaits the reply to the message `uuid`.
#[derive(Debug)]
pub struct Answer<U: UserMessage, P, D> {
    /// The identifier of the message that is answered.
    pub uuid: u128,
    /// Where the answer goes.
    pub drop_box: D,
    /// The answer.
    pub reply: Result<InternalMessageKind<U, P>, IpcRpcError>,
}

/// What is to be done after an event.
#[derive(Debug)]
pub enum MailAction<U: UserMessage, P, D> {
    /// Nothing but to wait for the next event.
    Continue,
    /// Put each answer into its drop box.
    Answer(Vec<Answer<U, P, D>>),
    /// Let the user's handler answer a message, and send the answer as a reply to `uuid`.
    Handle { uuid: u128, message: U },
    /// Send a message to the peer.
    Respond(InternalMessage<U, P>),
    /// Shut down, and report how the session ended.
    Stop(ConnectionStatus),
}

/// The state of an end that processes its incoming mail.
#[verifier::ext_equal]
pub struct MailState<D> {
    /// Who awaits which reply.
    pub pending: Map<u128, PendingReply<D>>,
    /// How many receive errors came in a row.
    pub consecutive_errors: int,
    /// When the awaited replies are next looked through.
    pub next_sweep: int,
    /// The schema of our own messages, unless schemas are not validated.
    pub our_schema: Option<Seq<char>>,
    /// Whether the end goes on.
    pub running: bool,
}

impl<D> MailState<D> {
    /// While the end goes on, it has not seen more errors in a row than it puts up with. Once it has
    /// stopped, it holds no drop boxes: whoever still waited learns that nothing will come.
    pub open spec fn wf(self) -> bool {
        &&& self.running ==> 0 <= self.consecutive_errors <= MAX_CONSECUTIVE_ERRORS
        &&& !self.running ==> self.pending == Map::<u128, PendingReply<D>>::empty()
    }

    /// The state of an end that stops: it lets go of all drop boxes.
    pub open spec fn stopped(self) -> Self {
        MailState { pending: Map::empty(), running: false, ..self }
    }

    /// The state in which an end starts at the time `now`.
    pub open spec fn initial(now: u128, our_schema: Option<Seq<char>>) -> Self {
        MailState {
            pending: Map::empty(),
            consecutive_errors: 0,
            next_sweep: now + PENDING_REPLY_CLEANUP_CHECK_DURATION,
            our_schema,
            running: true,
        }
    }

    /// The state after an event. Nothing happens any more to an end that has stopped.
    pub open spec fn after<U: UserMessage, P>(self, event: MailEvent<U, P, D>) -> Self {
        if !self.running {
            self
        } else {
            self.after_running(event)
        }
    }

    /// The state after an event of an end that goes on.
    pub open spec fn after_running<U: UserMessage, P>(self, event: MailEvent<U, P, D>) -> Self {
        match event {
            MailEvent::SweepDue => MailState {
                pending: still_pending(self.pending, self.next_sweep as u128),
                next_sweep: self.next_sweep + PENDING_REPLY_CLEANUP_CHECK_DURATION,
                ..self
            },
            MailEvent::Register(entry) => MailState {
                pending: self.pending.insert(entry.uuid, entry.reply),
                ..self
            },
            MailEvent::HandlesGone | MailEvent::StreamEnded => self.stopped(),
            MailEvent::ReceiveFailed(ReceiveError::Disconnected) => self.stopped(),
            MailEvent::ReceiveFailed(ReceiveError::Other(_)) => {
                let counted = MailState {
                    consecutive_errors: self.consecutive_errors + 1,
                    ..self
                };
                if self.consecutive_errors < MAX_CONSECUTIVE_ERRORS {
                    counted
                } else {
                    counted.stopped()
                }
            },
            MailEvent::Received(message) => {
                let received = MailState {
                    pending: self.pending.remove(message.uuid),
                    consecutive_errors: 0,
                    ..self
                };
                if message.kind is Hangup && !self.pending.contains_key(message.uuid) {
                    received.stopped()
                } else {
                    received
                }
            },
        }
    }

    /// Whether `action` is what an event calls for. Nothing is to be done any more for an end that
    /// has stopped.
    pub open spec fn calls_for<U: UserMessage, P>(
        self,
        event: MailEvent<U, P, D>,
        action: MailAction<U, P, D>,
    ) -> bool {
        if !self.running {
            action is Continue
        } else {
            self.calls_for_running(event, action)
        }
    }

    /// Whether `action` is what an event calls for at an end that goes on.
    pub open spec fn calls_for_running<U: UserMessage, P>(
        self,
        event: MailEvent<U, P, D>,
        action: MailAction<U, P, D>,
    ) -> bool {
        match event {
            MailEvent::SweepDue => action matches MailAction::Answer(answers) && times_out_overdue(
                answers@,
                self.pending,
                self.next_sweep as u128,
            ),
            MailEvent::Register(_) => action is Continue,
            MailEvent::HandlesGone | MailEvent::StreamEnded => stops_cleanly(action),
            MailEvent::ReceiveFailed(ReceiveError::Disconnected) => stops_cleanly(action),
            MailEvent::ReceiveFailed(ReceiveError::Other(e)) => if self.consecutive_errors
                < MAX_CONSECUTIVE_ERRORS {
                action is Continue
            } else {
                // one error too many is no normal shutdown
                action == MailAction::<U, P, D>::Stop(ConnectionStatus::DisconnectError(e))
            },
            MailEvent::Received(message) => if self.pending.contains_key(message.uuid) {
                // a reply goes to whoever awaits it, whatever it is
                action matches MailAction::Answer(answers) && answers@ == seq![
                    Answer {
                        uuid: message.uuid,
                        drop_box: self.pending[message.uuid].drop_box,
                        reply: Ok::<InternalMessageKind<U, P>, IpcRpcError>(message.kind),
                    },
                ]
            } else {
                match message.kind {
                    InternalMessageKind::UserMessage(user_message) => action == (MailAction::<
                        U,
                        P,
                        D,
                    >::Handle { uuid: message.uuid, message: user_message }),
                    InternalMessageKind::UserMessageSchema(theirs) => match self.our_schema {
                        Some(ours) => action matches MailAction::Respond(response) && response.uuid
                            == message.uuid && is_schema_answer(
                            response.kind,
                            schema_comparison(ours, theirs@),
                            ours,
                        ),
                        None => action is Continue,
                    },
                    InternalMessageKind::Hangup => stops_cleanly(action),
                    _ => action is Continue,
                }
            },
        }
    }
}

/// The state of an end after a number of events.
pub open spec fn run<U: UserMessage, P, D>(
    state: MailState<D>,
    events: Seq<MailEvent<U, P, D>>,
) -> MailState<D>
    decreases events.len(),
{
    if events.len() == 0 {
        state
    } else {
        run(state, events.drop_last()).after(events.last())
    }
}

/// The events by which drop boxes that were handed in go up, one after the other.
pub open spec fn queued_events<U: UserMessage, P, D>(queued: Seq<PendingReplyEntry<D>>) -> Seq<
    MailEvent<U, P, D>,
> {
    queued.map_values(|entry: PendingReplyEntry<D>| MailEvent::Register(entry))
}

/// Whether `action` is to shut down after nothing unexpected happened.
pub open spec fn stops_cleanly<U: UserMessage, P, D>(action: MailAction<U, P, D>) -> bool {
    action == MailAction::<U, P, D>::Stop(ConnectionStatus::DisconnectedCleanly)
}

/// Whether `answers` tell each caller whose reply is overdue at `time`, and nobody else, that no
/// reply came in time; each of them once, in any order.
pub open spec fn times_out_overdue<U: UserMessage, P, D>(
    answers: Seq<Answer<U, P, D>>,
    pending: Map<u128, PendingReply<D>>,
    time: u128,
) -> bool {
    &&& forall|i: int|
        0 <= i < answers.len() ==> pending.contains_key((#[trigger] answers[i]).uuid) && overdue(
            pending[answers[i].uuid],
            time,
        ) && answers[i].drop_box == pending[answers[i].uuid].drop_box && answers[i].reply == Err::<
            InternalMessageKind<U, P>,
            IpcRpcError,
        >(IpcRpcError::ReplyTimeout)
    &&& forall|i: int, j: int|
        0 <= i < j < answers.len() ==> (#[trigger] answers[i]).uuid != (#[trigger] answers[j]).uuid
    &&& forall|uuid: u128| #[trigger]
        pending.contains_key(uuid) && overdue(pending[uuid], time) ==> exists|i: int|
            0 <= i < answers.len() && (#[trigger] answers[i]).uuid == uuid
}

/// Processes the incoming mail of one end, client or server.
pub struct MailProcessor<D> {
    pending: PendingReplies<D>,
    consecutive_errors: u32,
    next_sweep: u128,
    our_schema: Option<String>,
    running: bool,
}

impl<D> View for MailProcessor<D> {
    type V = MailState<D>;

    closed spec fn view(&self) -> MailState<D> {
        MailState {
            pending: self.pending@,
            consecutive_errors: self.consecutive_errors as int,
            next_sweep: self.next_sweep as int,
            our_schema: match self.our_schema {
                Some(schema) => Some(schema@),
                None => None,
            },
            running: self.running,
        }
    }
}

/// Tells everyone in `expired` that no reply came in time.
fn time_out<U: UserMessage, P, D>(expired: Vec<PendingReplyEntry<D>>) -> (r: Vec<Answer<U, P, D>>)
    ensures
        r@.len() == expired@.len(),
        forall|i: int|
            0 <= i < r@.len() ==> (#[trigger] r@[i]).uuid == expired@[r@.len() - 1 - i].uuid
                && r@[i].drop_box == expired@[r@.len() - 1 - i].reply.drop_box && r@[i].reply
                == Err::<InternalMessageKind<U, P>, IpcRpcError>(IpcRpcError::ReplyTimeout),
{
    let ghost all = expired@;
    let mut rest = expired;
    let mut answers: Vec<Answer<U, P, D>> = Vec::new();
    while rest.len() > 0
        invariant
            rest@.len() + answers@.len() == all.len(),
            rest@ == all.take(rest@.len() as int),
            forall|i: int|
                0 <= i < answers@.len() ==> (#[trigger] answers@[i]).uuid == all[all.len() - 1
                    - i].uuid && answers@[i].drop_box == all[all.len() - 1 - i].reply.drop_box
                    && answers@[i].reply == Err::<InternalMessageKind<U, P>, IpcRpcError>(
                    IpcRpcError::ReplyTimeout,
                ),
        decreases rest@.len(),
    {
        if let Some(entry) = rest.pop() {
            answers.push(
                Answer {
                    uuid: entry.uuid,
                    drop_box: entry.reply.drop_box,
                    reply: Err(IpcRpcError::ReplyTimeout),
                },
            );
        }
    }
    answers
}

impl<D> MailProcessor<D> {
    /// An end that starts at the time `now` and awaits no reply. `our_schema` is the schema of its
    /// messages, or `None` where schemas are not validated.
    /// A server starts before its client connects, so that what is sent meanwhile is given up in
    /// time.
    pub fn new(now: u128, our_schema: Option<String>) -> (r: Self)
        requires
            now + PENDING_REPLY_CLEANUP_CHECK_DURATION <= u128::MAX,
        ensures
            r@ == MailState::<D>::initial(
                now,
                match our_schema {
                    Some(schema) => Some(schema@),
                    None => None,
                },
            ),
            r@.wf(),
            r@.running,
            r@.pending == Map::<u128, PendingReply<D>>::empty(),
            r@.consecutive_errors == 0,
            r@.next_sweep == now + 100_000_000,
            match our_schema {
                Some(schema) => r@.our_schema == Some(schema@),
                None => r@.our_schema is None,
            },
    {
        MailProcessor {
            pending: PendingReplies::new(),
            consecutive_errors: 0,
            next_sweep: now + PENDING_REPLY_CLEANUP_CHECK_DURATION,
            our_schema,
            running: true,
        }
    }

    /// When the event [`MailEvent::SweepDue`] is next to be handed in.
    pub fn next_sweep(&self) -> (r: u128)
        ensures
            r == self@.next_sweep,
    {
        self.next_sweep
    }

    /// Whether the end goes on.
    pub fn is_running(&self) -> (r: bool)
        ensures
            r == self@.running,
    {
        self.running
    }

    /// Distributes a message that came in: to the caller who awaits it, or as a message of its own.
    fn receive<U: UserMessage, P>(&mut self, message: InternalMessage<U, P>) -> (r: MailAction<
        U,
        P,
        D,
    >)
        requires
            old(self)@.wf(),
            old(self)@.running,
        ensures
            final(self)@ == old(self)@.after(MailEvent::Received(message)),
            old(self)@.calls_for(MailEvent::Received(message), r),
            final(self)@.wf(),
            final(self)@.running == !(r is Stop),
            r matches MailAction::Stop(end) ==> end.session_end() is Some,
    {
        self.consecutive_errors = 0;
        if let Some(drop_box) = self.pending.take(message.uuid) {
            let mut answers: Vec<Answer<U, P, D>> = Vec::new();
            answers.push(Answer { uuid: message.uuid, drop_box, reply: Ok(message.kind) });
            return MailAction::Answer(answers);
        }
        assert(old(self)@.pending.remove(message.uuid) =~= old(self)@.pending);
        let uuid: u128 = message.uuid;
        match message.kind {
            InternalMessageKind::UserMessage(user_message) => MailAction::Handle {
                uuid,
                message: user_message,
            },
            InternalMessageKind::UserMessageSchema(theirs) => match &self.our_schema {
                Some(ours) => MailAction::Respond(
                    InternalMessage {
                        uuid,
                        kind: answer_schema_check(ours.as_str(), theirs.as_str()),
                    },
                ),
                None => MailAction::Continue,
            },
            InternalMessageKind::Hangup => {
                self.stop();
                MailAction::Stop(ConnectionStatus::DisconnectedCleanly)
            },
            _ => MailAction::Continue,
        }
    }

    /// Stops, and lets go of all drop boxes.
    fn stop(&mut self)
        ensures
            final(self)@ == old(self)@.stopped(),
    {
        self.pending = PendingReplies::new();
        self.running = false;
    }

    /// Takes in one event, and tells what to do about it.
    fn process_event<U: UserMessage, P>(&mut self, event: MailEvent<U, P, D>) -> (action: MailAction<
        U,
        P,
        D,
    >)
        requires
            old(self)@.wf(),
            event is SweepDue && old(self)@.running ==> old(self)@.next_sweep
                + PENDING_REPLY_CLEANUP_CHECK_DURATION <= u128::MAX,
        ensures
            final(self)@ == old(self)@.after(event),
            old(self)@.calls_for(event, action),
            final(self)@.wf(),
            action is Stop <==> old(self)@.running && !final(self)@.running,
            action matches MailAction::Stop(end) ==> end.session_end() is Some,
    {
        if !self.running {
            return MailAction::Continue;
        }
        match event {
            MailEvent::SweepDue => {
                let expired = self.pending.expire(self.next_sweep);
                let ghost listed = expired@;
                let answers: Vec<Answer<U, P, D>> = time_out(expired);
                self.next_sweep = self.next_sweep + PENDING_REPLY_CLEANUP_CHECK_DURATION;
                proof {
                    lemma_time_out(answers@, listed, old(self)@.pending, old(self).next_sweep);
                }
                MailAction::Answer(answers)
            },
            MailEvent::Register(entry) => {
                self.pending.register(entry);
                MailAction::Continue
            },
            MailEvent::HandlesGone | MailEvent::StreamEnded => {
                self.stop();
                MailAction::Stop(ConnectionStatus::DisconnectedCleanly)
            },
            MailEvent::ReceiveFailed(ReceiveError::Disconnected) => {
                self.stop();
                MailAction::Stop(ConnectionStatus::DisconnectedCleanly)
            },
            MailEvent::ReceiveFailed(ReceiveError::Other(e)) => {
                self.consecutive_errors = self.consecutive_errors + 1;
                if self.consecutive_errors > MAX_CONSECUTIVE_ERRORS {
                    self.stop();
                    MailAction::Stop(ConnectionStatus::DisconnectError(e))
                } else {
                    MailAction::Continue
                }
            },
            MailEvent::Received(message) => self.receive(message),
        }
    }

    /// Takes in what happened, and tells what to do about it. `queued` are the drop boxes that were
    /// handed in by then, in the order in which they were: all of them go up before the event
    /// counts, so that a reply is never mistaken for a message of its own. An end that stops lets go
    /// of every drop box, and of those that are handed in later.
    pub fn process_incoming_mail<U: UserMessage, P>(
        &mut self,
        queued: Vec<PendingReplyEntry<D>>,
        event: MailEvent<U, P, D>,
    ) -> (action: MailAction<U, P, D>)
        requires
            old(self)@.wf(),
            event is SweepDue && old(self)@.running ==> old(self)@.next_sweep
                + PENDING_REPLY_CLEANUP_CHECK_DURATION <= u128::MAX,
        ensures
            final(self)@ == run(old(self)@, queued_events::<U, P, D>(queued@)).after(event),
            run(old(self)@, queued_events::<U, P, D>(queued@)).calls_for(event, action),
            final(self)@.wf(),
            action is Stop <==> old(self)@.running && !final(self)@.running,
            action matches MailAction::Stop(end) ==> end.session_end() is Some,
            action is Stop ==> final(self)@.pending == Map::<u128, PendingReply<D>>::empty(),
    {
        let ghost all = queued_events::<U, P, D>(queued@);
        let ghost entries = queued@;
        assert(all.take(0) =~= Seq::empty());
        for entry in it: queued
            invariant
                it.seq() == entries,
                all == queued_events::<U, P, D>(entries),
                self@ == run(old(self)@, all.take(it.index() as int)),
                self@.wf(),
                self@.running == old(self)@.running,
                self@.next_sweep == old(self)@.next_sweep,
        {
            let registration: MailEvent<U, P, D> = MailEvent::Register(entry);
            self.process_event(registration);
            assert(all.take(it.index() + 1).drop_last() =~= all.take(it.index() as int));
        }
        assert(all.take(all.len() as int) =~= all);
        self.process_event(event)
    }
}

/// Answers that time out a list of all overdue replies, in the opposite order, time out the
/// overdue replies.
proof fn lemma_time_out<U: UserMessage, P, D>(
    answers: Seq<Answer<U, P, D>>,
    expired: Seq<PendingReplyEntry<D>>,
    pending: Map<u128, PendingReply<D>>,
    time: u128,
)
    requires
        lists_overdue(expired, pending, time),
        answers.len() == expired.len(),
        forall|i: int|
            0 <= i < answers.len() ==> (#[trigger] answers[i]).uuid == expired[answers.len() - 1
                - i].uuid && answers[i].drop_box == expired[answers.len() - 1 - i].reply.drop_box
                && answers[i].reply == Err::<InternalMessageKind<U, P>, IpcRpcError>(
                IpcRpcError::ReplyTimeout,
            ),
    ensures
        times_out_overdue(answers, pending, time),
{
    assert forall|uuid: u128| #[trigger]
        pending.contains_key(uuid) && overdue(pending[uuid], time) implies exists|i: int|
        0 <= i < answers.len() && (#[trigger] answers[i]).uuid == uuid by {
        let k = choose|k: int| 0 <= k < expired.len() && (#[trigger] expired[k]).uuid == uuid;
        assert(answers[answers.len() - 1 - k].uuid == uuid);
    }
}

} // verus!
