//! What holds of the library as a whole, over any number of steps.
use crate::client::handles_after;
use crate::client::is_client_opening;
use crate::client::sends_hangup;
use crate::client::HandleEvent;
use crate::error::IpcRpcError;
use crate::key::denotes;
use crate::key::hyphenated;
use crate::key::is_random_uuid;
use crate::key::law_key_text_round_trip;
use crate::mail::queued_events;
use crate::mail::run;
use crate::mail::times_out_overdue;
use crate::mail::Answer;
use crate::mail::MailAction;
use crate::mail::MailEvent;
use crate::mail::MailState;
use crate::mail::ReceiveError;
use crate::mail::MAX_CONSECUTIVE_ERRORS;
use crate::mail::PENDING_REPLY_CLEANUP_CHECK_DURATION;
use crate::message::spec_is_user_reply;
use crate::message::spec_reply_outcome;
use crate::message::transmissions;
use crate::message::InternalMessage;
use crate::message::InternalMessageKind;
use crate::message::OutgoingRequest;
use crate::message::SendStep;
use crate::message::UserMessage;
use crate::pending::overdue;
use crate::pending::PendingReply;
use crate::pending::PendingReplyEntry;
use crate::schema::is_schema_answer;
use crate::schema::is_schema_json;
use crate::schema::is_validation_outcome;
use crate::schema::schema_comparison;
use crate::schema::schema_json_equal;
use crate::server::after_startup;
use crate::server::is_server_opening;
use crate::server::opens_connection;
use crate::session::is_schema_check;
use crate::session::SessionState;
use crate::status::ConnectionStatus;
use crate::status::SchemaValidationStatus;
use vstd::prelude::*;

verus! {

/// How often among `events` the awaited replies were looked through.
pub open spec fn sweeps<U: UserMessage, P, D>(events: Seq<MailEvent<U, P, D>>) -> int
    decreases events.len(),
{
    if events.len() == 0 {
        0
    } else {
        sweeps(events.drop_last()) + if events.last() is SweepDue {
            1int
        } else {
            0int
        }
    }
}

/// Whether an event has nothing to do with the message `uuid`: it neither answers it nor puts up
/// a drop box for it.
pub open spec fn unrelated<U: UserMessage, P, D>(event: MailEvent<U, P, D>, uuid: u128) -> bool {
    match event {
        MailEvent::Register(entry) => entry.uuid != uuid,
        MailEvent::Received(message) => message.uuid != uuid,
        _ => true,
    }
}

/// The time at which the awaited replies were last looked through, after `events` of which at
/// least one was such a look.
pub open spec fn last_sweep<U: UserMessage, P, D>(
    state: MailState<D>,
    events: Seq<MailEvent<U, P, D>>,
) -> int {
    state.next_sweep + (sweeps(events) - 1) * PENDING_REPLY_CLEANUP_CHECK_DURATION
}

/// The awaited replies are looked through at regular times, whatever else happens, as long as the
/// end goes on.
pub proof fn law_sweeps_are_regular<U: UserMessage, P, D>(
    state: MailState<D>,
    events: Seq<MailEvent<U, P, D>>,
)
    requires
        run(state, events).running,
    ensures
        sweeps(events) >= 0,
        run(state, events).next_sweep == state.next_sweep + sweeps(events)
            * PENDING_REPLY_CLEANUP_CHECK_DURATION,
    decreases events.len(),
{
    if events.len() > 0 {
        law_sweeps_are_regular(state, events.drop_last());
    }
}

/// Whoever awaits a reply keeps waiting for it until the deadline has passed, and not past the
/// first look at the awaited replies after that, whatever else happens meanwhile, as long as the
/// end goes on. As the looks are regular, the reply is given up no later after its deadline than the
/// time between two looks.
pub proof fn law_reply_is_awaited_until_its_deadline<U: UserMessage, P, D>(
    state: MailState<D>,
    events: Seq<MailEvent<U, P, D>>,
    uuid: u128,
)
    requires
        state.pending.contains_key(uuid),
        run(state, events).running,
        forall|i: int| 0 <= i < events.len() ==> unrelated(#[trigger] events[i], uuid),
        0 <= state.next_sweep,
        run(state, events).next_sweep <= u128::MAX,
    ensures
        run(state, events).pending.contains_key(uuid) <==> (sweeps(events) == 0 || last_sweep(
            state,
            events,
        ) <= state.pending[uuid].deadline),
        run(state, events).pending.contains_key(uuid) ==> run(state, events).pending[uuid]
            == state.pending[uuid],
    decreases events.len(),
{
    if events.len() > 0 {
        let before = events.drop_last();
        assert forall|i: int| 0 <= i < before.len() implies unrelated(
            #[trigger] before[i],
            uuid,
        ) by {
            assert(unrelated(events[i], uuid));
        }
        law_sweeps_are_regular(state, before);
        law_reply_is_awaited_until_its_deadline(state, before, uuid);
        assert(unrelated(events.last(), uuid));
    }
}

/// A look at the awaited replies answers whoever waits in vain, exactly once and with a time out,
/// and takes the drop box down. Nobody whose deadline has not passed is answered.
pub proof fn law_overdue_reply_is_given_up<U: UserMessage, P, D>(
    state: MailState<D>,
    action: MailAction<U, P, D>,
    uuid: u128,
)
    requires
        state.running,
        state.pending.contains_key(uuid),
        0 <= state.next_sweep <= u128::MAX,
        state.calls_for(MailEvent::SweepDue, action),
    ensures
        action matches MailAction::Answer(answers) && {
            let given_up = state.pending[uuid].deadline < state.next_sweep;
            &&& given_up <==> !state.after(MailEvent::<U, P, D>::SweepDue).pending.contains_key(uuid)
            &&& given_up ==> exists|i: int|
                0 <= i < answers@.len() && #[trigger] answers@[i] == (Answer {
                    uuid,
                    drop_box: state.pending[uuid].drop_box,
                    reply: Err::<InternalMessageKind<U, P>, IpcRpcError>(IpcRpcError::ReplyTimeout),
                })
            &&& forall|i: int, j: int|
                0 <= i < j < answers@.len() ==> !((#[trigger] answers@[i]).uuid == uuid && (
                #[trigger] answers@[j]).uuid == uuid)
            &&& !given_up ==> forall|i: int|
                0 <= i < answers@.len() ==> (#[trigger] answers@[i]).uuid != uuid
        },
{
    let answers = action->Answer_0@;
    assert(times_out_overdue(answers, state.pending, state.next_sweep as u128));
    if state.pending[uuid].deadline < state.next_sweep {
        assert(overdue(state.pending[uuid], state.next_sweep as u128));
        let i = choose|i: int| 0 <= i < answers.len() && (#[trigger] answers[i]).uuid == uuid;
        assert(answers[i] == (Answer {
            uuid,
            drop_box: state.pending[uuid].drop_box,
            reply: Err::<InternalMessageKind<U, P>, IpcRpcError>(IpcRpcError::ReplyTimeout),
        }));
    }
}

/// An end that has just begun awaits nothing, has seen no errors, holds the schema that it was
/// given, and goes on. It first looks through its awaited replies a hundred milliseconds after it
/// began, whenever that was.
pub proof fn law_an_end_begins<D>(now: u128, our_schema: Option<Seq<char>>)
    ensures
        ({
            let state = MailState::<D>::initial(now, our_schema);
            &&& state.running
            &&& forall|uuid: u128| !#[trigger] state.pending.contains_key(uuid)
            &&& state.consecutive_errors == 0
            &&& state.our_schema == our_schema
            &&& state.next_sweep - now == 100_000_000
            &&& state.wf()
        }),
{
}

/// The state after a number of events is that after all but the last, and then the last.
pub proof fn law_events_count_one_after_the_other<U: UserMessage, P, D>(
    state: MailState<D>,
    events: Seq<MailEvent<U, P, D>>,
    event: MailEvent<U, P, D>,
)
    ensures
        run(state, Seq::<MailEvent<U, P, D>>::empty()) == state,
        run(state, events.push(event)) == run(state, events).after(event),
{
    assert(events.push(event).drop_last() =~= events);
}

/// A request that is not answered is given up in time: at the first look after its deadline, which
/// comes no more than a hundred milliseconds after the deadline. This holds of an end that began at
/// any time `now` and has since seen any events `before`, for every request that was made no
/// earlier than the last look before it.
pub proof fn law_requests_are_given_up_in_time<U: UserMessage, P, D>(
    now: u128,
    our_schema: Option<Seq<char>>,
    before: Seq<MailEvent<U, P, D>>,
    entry: PendingReplyEntry<D>,
    meanwhile: Seq<MailEvent<U, P, D>>,
)
    requires
        entry.reply.deadline >= now + sweeps(before) * 100_000_000,
        forall|i: int| 0 <= i < meanwhile.len() ==> unrelated(#[trigger] meanwhile[i], entry.uuid),
        now + (sweeps(before) + sweeps(meanwhile) + 1) * 100_000_000 <= u128::MAX,
        run(
            run(MailState::<D>::initial(now, our_schema), before).after(
                MailEvent::<U, P, D>::Register(entry),
            ),
            meanwhile,
        ).running,
    ensures
        ({
            let waiting = run(
                run(MailState::<D>::initial(now, our_schema), before).after(
                    MailEvent::<U, P, D>::Register(entry),
                ),
                meanwhile,
            );
            // how many looks there were by then, and when the last of them was
            let looks = sweeps(before) + sweeps(meanwhile);
            let last = now + looks * 100_000_000;
            &&& waiting.next_sweep == last + 100_000_000
            &&& last <= entry.reply.deadline ==> waiting.pending.contains_key(entry.uuid)
                && waiting.pending[entry.uuid] == entry.reply
            &&& last > entry.reply.deadline ==> !waiting.pending.contains_key(entry.uuid)
            &&& last >= entry.reply.deadline + 100_000_000 ==> !waiting.pending.contains_key(
                entry.uuid,
            )
        }),
{
    let initial = MailState::<D>::initial(now, our_schema);
    let begun = run(initial, before);
    let registered = begun.after(MailEvent::<U, P, D>::Register(entry));
    if !begun.running {
        law_stopped_is_stopped(registered, meanwhile);
    }
    law_sweeps_are_regular(initial, before);
    if !registered.running {
        law_stopped_is_stopped(registered, meanwhile);
    }
    law_sweeps_are_regular(registered, meanwhile);
    law_reply_is_awaited_until_its_deadline(registered, meanwhile, entry.uuid);
}

/// What an event does to one awaited reply: a look gives it up where its deadline is before the time
/// of the look, a new drop box for the same message takes its place, the message that it awaits takes
/// it down, and everything that ends the processing lets go of it. Nothing else touches it.
pub proof fn law_what_becomes_of_an_awaited_reply<U: UserMessage, P, D>(
    state: MailState<D>,
    event: MailEvent<U, P, D>,
    uuid: u128,
)
    requires
        state.running,
        0 <= state.next_sweep <= u128::MAX,
    ensures
        ({
            let was = state.pending.contains_key(uuid);
            let kept = state.after(event).pending.contains_key(uuid);
            match event {
                MailEvent::SweepDue => kept <==> was && state.pending[uuid].deadline
                    >= state.next_sweep,
                MailEvent::Register(entry) => kept <==> was || entry.uuid == uuid,
                MailEvent::Received(message) => kept <==> was && message.uuid != uuid && (
                message.kind is Hangup ==> state.pending.contains_key(message.uuid)),
                MailEvent::ReceiveFailed(ReceiveError::Other(_)) => kept <==> was
                    && state.consecutive_errors < 20,
                _ => !kept,
            }
        }),
        state.after(event).pending.contains_key(uuid) ==> state.after(event).pending[uuid] == (
        match event {
            MailEvent::Register(entry) => if entry.uuid == uuid {
                entry.reply
            } else {
                state.pending[uuid]
            },
            _ => state.pending[uuid],
        }),
{
}

/// What an event does to everything but the awaited replies: the next look moves by a hundred
/// milliseconds with a look and with nothing else, an error adds to those in a row and a message
/// ends the row, and the schema never changes.
pub proof fn law_what_becomes_of_an_end<U: UserMessage, P, D>(
    state: MailState<D>,
    event: MailEvent<U, P, D>,
)
    requires
        state.running,
        state.wf(),
    ensures
        state.after(event).our_schema == state.our_schema,
        event is SweepDue ==> state.after(event).next_sweep == state.next_sweep + 100_000_000,
        !(event is SweepDue) ==> state.after(event).next_sweep == state.next_sweep,
        event is Received ==> state.after(event).consecutive_errors == 0,
        (event matches MailEvent::ReceiveFailed(e) && e is Other) ==> state.after(
            event,
        ).consecutive_errors == state.consecutive_errors + 1,
        event is SweepDue || event is Register ==> state.after(event).consecutive_errors
            == state.consecutive_errors,
        state.after(event).running <==> match event {
            MailEvent::SweepDue | MailEvent::Register(_) => true,
            MailEvent::HandlesGone | MailEvent::StreamEnded => false,
            MailEvent::ReceiveFailed(ReceiveError::Disconnected) => false,
            MailEvent::ReceiveFailed(ReceiveError::Other(_)) => state.consecutive_errors != 20,
            MailEvent::Received(message) => !(message.kind is Hangup) || state.pending.contains_key(
                message.uuid,
            ),
        },
{
}

/// What is to be done tells what happened: each action is called for by certain events and by no
/// others, and holds what these brought.
pub proof fn law_what_is_done_tells_what_happened<U: UserMessage, P, D>(
    state: MailState<D>,
    event: MailEvent<U, P, D>,
    action: MailAction<U, P, D>,
)
    requires
        state.running,
        state.wf(),
        state.calls_for(event, action),
    ensures
        // the handler is asked exactly for user messages that nobody awaits
        action is Handle <==> (event matches MailEvent::Received(message)
            && !state.pending.contains_key(message.uuid) && message.kind is UserMessage),
        action matches MailAction::Handle { uuid, message: asked } ==> (
        event matches MailEvent::Received(message) && uuid == message.uuid && message.kind
            == InternalMessageKind::<U, P>::UserMessage(asked)),
        // a response goes out exactly for schemas that nobody awaits, where schemas are validated
        action is Respond <==> (event matches MailEvent::Received(message)
            && !state.pending.contains_key(message.uuid) && message.kind is UserMessageSchema
            && state.our_schema is Some),
        action matches MailAction::Respond(response) ==> {
            &&& event matches MailEvent::Received(message)
            &&& message.kind matches InternalMessageKind::UserMessageSchema(theirs)
            &&& response.uuid == message.uuid
            &&& response.kind is UserMessageSchemaOk <==> is_schema_json(theirs@)
                && schema_json_equal(state.our_schema->0, theirs@)
            &&& response.kind is UserMessageSchemaOk || (
            response.kind matches InternalMessageKind::UserMessageSchemaError { other_schema }
                && other_schema@ == state.our_schema->0)
        },
        // callers are answered exactly at a look and by a message that someone awaits
        action is Answer <==> event is SweepDue || (event matches MailEvent::Received(message)
            && state.pending.contains_key(message.uuid)),
        (action matches MailAction::Answer(answers) && event matches MailEvent::Received(message))
            ==> {
            let answers = action->Answer_0@;
            let message = event->Received_0;
            &&& answers.len() == 1
            &&& answers[0].uuid == message.uuid
            &&& answers[0].drop_box == state.pending[message.uuid].drop_box
            &&& answers[0].reply == Ok::<InternalMessageKind<U, P>, IpcRpcError>(message.kind)
        },
        // it is over exactly where the processing ends
        action is Stop <==> !state.after(event).running,
        action matches MailAction::Stop(end) ==> match event {
            MailEvent::ReceiveFailed(ReceiveError::Other(e)) => end
                == ConnectionStatus::DisconnectError(e),
            _ => end is DisconnectedCleanly,
        },
{
}

/// Nothing is to be done any more for an end that has stopped, and nothing changes for it.
pub proof fn law_an_end_that_has_stopped_rests<U: UserMessage, P, D>(
    state: MailState<D>,
    event: MailEvent<U, P, D>,
    action: MailAction<U, P, D>,
)
    requires
        !state.running,
        state.calls_for(event, action),
    ensures
        action is Continue,
        state.after(event) == state,
{
}

/// Every answer goes to the one who awaits it: it carries the identifier of the message that it
/// answers, and it ends up in the drop box that was put up for that message, which is then taken
/// down. So nobody gets a second answer.
pub proof fn law_answers_go_to_whoever_awaits_them<U: UserMessage, P, D>(
    state: MailState<D>,
    event: MailEvent<U, P, D>,
    action: MailAction<U, P, D>,
)
    requires
        state.calls_for(event, action),
    ensures
        action matches MailAction::Answer(answers) ==> forall|i: int|
            0 <= i < answers@.len() ==> {
                &&& state.pending.contains_key((#[trigger] answers@[i]).uuid)
                &&& answers@[i].drop_box == state.pending[answers@[i].uuid].drop_box
                &&& !state.after(event).pending.contains_key(answers@[i].uuid)
            },
{
}

/// A message in reply to another one leaves alone everyone who awaits a different reply, unless it
/// ends the processing.
pub proof fn law_other_replies_stay_awaited<U: UserMessage, P, D>(
    state: MailState<D>,
    message: InternalMessage<U, P>,
    uuid: u128,
)
    requires
        uuid != message.uuid,
        state.after(MailEvent::Received(message)).running,
    ensures
        state.after(MailEvent::Received(message)).pending.contains_key(uuid)
            == state.pending.contains_key(uuid),
        state.pending.contains_key(uuid) ==> state.after(
            MailEvent::Received(message),
        ).pending[uuid] == state.pending[uuid],
{
}

/// Requests and responses are paired: a message that one end sends reaches the handler of the
/// other end; the handler's answer goes back under the same identifier; and it is delivered to the
/// caller who sent the message, whatever else that end did meanwhile, unless it has stopped or the
/// caller's deadline has passed. Nobody waits for it any more after that.
///
/// The caller is known by a drop box that was put up before anything could come back. That
/// the other end does not itself await a reply under the same identifier is what random
/// identifiers are for.
pub proof fn law_requests_and_responses_are_paired<U: UserMessage, P, D>(
    caller: MailState<D>,
    peer: MailState<D>,
    entry: PendingReplyEntry<D>,
    meanwhile: Seq<MailEvent<U, P, D>>,
    question: U,
    answer: U,
    handling: MailAction<U, P, D>,
    delivery: MailAction<U, P, D>,
)
    requires
        peer.running,
        !peer.pending.contains_key(entry.uuid),
        peer.calls_for(
            MailEvent::Received(
                InternalMessage {
                    uuid: entry.uuid,
                    kind: InternalMessageKind::UserMessage(question),
                },
            ),
            handling,
        ),
        run(caller.after(MailEvent::<U, P, D>::Register(entry)), meanwhile).running,
        0 <= caller.next_sweep,
        forall|i: int| 0 <= i < meanwhile.len() ==> unrelated(#[trigger] meanwhile[i], entry.uuid),
        sweeps(meanwhile) == 0 || last_sweep(caller, meanwhile) <= entry.reply.deadline,
        run(caller.after(MailEvent::<U, P, D>::Register(entry)), meanwhile).next_sweep <= u128::MAX,
        handling is Handle ==> run(
            caller.after(MailEvent::<U, P, D>::Register(entry)),
            meanwhile,
        ).calls_for(
            MailEvent::Received(
                InternalMessage::<U, P>::spec_user_reply(handling->uuid, Some(answer))->0,
            ),
            delivery,
        ),
    ensures
        handling == (MailAction::<U, P, D>::Handle { uuid: entry.uuid, message: question }),
        ({
            let reply = InternalMessage::<U, P>::spec_user_reply(entry.uuid, Some(answer))->0;
            let waiting = run(caller.after(MailEvent::<U, P, D>::Register(entry)), meanwhile);
            &&& reply.uuid == entry.uuid
            &&& delivery matches MailAction::Answer(answers)
            &&& answers@ == seq![
                Answer {
                    uuid: entry.uuid,
                    drop_box: entry.reply.drop_box,
                    reply: Ok::<InternalMessageKind<U, P>, IpcRpcError>(
                        InternalMessageKind::UserMessage(answer),
                    ),
                },
            ]
            &&& spec_is_user_reply(spec_reply_outcome(Some(answers@[0].reply)))
            &&& waiting.after(MailEvent::Received(reply)).pending == waiting.pending.remove(
                entry.uuid,
            )
        }),
{
    let registered = caller.after(MailEvent::<U, P, D>::Register(entry));
    if !registered.running {
        law_stopped_is_stopped(registered, meanwhile);
    }
    law_reply_is_awaited_until_its_deadline(registered, meanwhile, entry.uuid);
}

/// Both ends find out whether their message schemas match: an end that sends its schema `ours` to
/// an end with the schema `theirs` concludes that they match exactly where the two are the
/// same, and otherwise has both of them to compare. Neither end stops over it.
pub proof fn law_schemas_are_validated<U: UserMessage, P, D>(
    asking: MailState<D>,
    asked: MailState<D>,
    ours: Seq<char>,
    theirs: Seq<char>,
    text: String,
    uuid: u128,
    response: MailAction<U, P, D>,
    delivery: MailAction<U, P, D>,
    outcome: Option<SchemaValidationStatus>,
)
    requires
        text@ == ours,
        asked.our_schema == Some(theirs),
        asked.running,
        !asked.pending.contains_key(uuid),
        asked.calls_for(
            MailEvent::Received(
                InternalMessage { uuid, kind: InternalMessageKind::UserMessageSchema(text) },
            ),
            response,
        ),
        asking.running,
        asking.pending.contains_key(uuid),
        response is Respond ==> asking.calls_for(MailEvent::Received(response->Respond_0), delivery),
        delivery is Answer ==> is_validation_outcome(
            outcome,
            spec_reply_outcome(Some(delivery->Answer_0@[0].reply)),
            ours,
        ),
    ensures
        response is Respond,
        response->Respond_0.uuid == uuid,
        delivery is Answer,
        delivery->Answer_0@.len() == 1,
        delivery->Answer_0@[0].drop_box == asking.pending[uuid].drop_box,
        outcome == Some(SchemaValidationStatus::SchemasMatched) <==> is_schema_json(ours)
            && schema_json_equal(theirs, ours),
        !(is_schema_json(ours) && schema_json_equal(theirs, ours)) ==> (outcome matches Some(
            SchemaValidationStatus::SchemaMismatch { our_schema, their_schema },
        ) && our_schema@ == ours && their_schema@ == theirs),
        asked.after(
            MailEvent::<U, P, D>::Received(
                InternalMessage { uuid, kind: InternalMessageKind::UserMessageSchema(text) },
            ),
        ).running,
{
    assert(is_schema_answer(
        response->Respond_0.kind,
        schema_comparison(theirs, ours),
        theirs,
    ));
}

/// A validation that fails harms nothing: how the connection stands does not depend on how the
/// validation went.
pub proof fn law_validation_leaves_the_connection_alone(
    state: SessionState,
    outcome: Option<SchemaValidationStatus>,
)
    ensures
        state.with_validation(outcome).end() == state.end(),
        state.with_validation(outcome).connection() == state.connection(),
        state.without_validation_sender().end() == state.end(),
        state.without_validation_sender().connection() == state.connection(),
{
}

/// What ends the processing of incoming mail: that nobody is left to send or to receive, a farewell
/// of the peer, or one error too many in a row.
pub proof fn law_what_ends_the_processing<U: UserMessage, P, D>(
    state: MailState<D>,
    event: MailEvent<U, P, D>,
)
    requires
        state.wf(),
        state.running,
    ensures
        state.after(event).wf(),
        !state.after(event).running <==> match event {
            MailEvent::HandlesGone | MailEvent::StreamEnded => true,
            MailEvent::ReceiveFailed(ReceiveError::Disconnected) => true,
            MailEvent::ReceiveFailed(ReceiveError::Other(_)) => state.consecutive_errors
                == MAX_CONSECUTIVE_ERRORS,
            MailEvent::Received(message) => message.kind is Hangup && !state.pending.contains_key(
                message.uuid,
            ),
            MailEvent::SweepDue | MailEvent::Register(_) => false,
        },
{
}

/// How the processing of incoming mail ends: cleanly, unless there was one error too many, which
/// is then what ended it.
pub proof fn law_the_end_is_clean_unless_there_were_too_many_errors<U: UserMessage, P, D>(
    state: MailState<D>,
    event: MailEvent<U, P, D>,
    action: MailAction<U, P, D>,
)
    requires
        state.wf(),
        state.running,
        state.calls_for(event, action),
    ensures
        action is Stop <==> !state.after(event).running,
        action matches MailAction::Stop(end) ==> match event {
            MailEvent::ReceiveFailed(ReceiveError::Other(e)) => state.consecutive_errors
                == MAX_CONSECUTIVE_ERRORS && end == ConnectionStatus::DisconnectError(e),
            _ => end == ConnectionStatus::DisconnectedCleanly,
        },
{
}

/// A row of receive errors.
pub open spec fn errors_in_a_row<U: UserMessage, P, D>(errors: Seq<IpcRpcError>) -> Seq<
    MailEvent<U, P, D>,
> {
    errors.map_values(|e: IpcRpcError| MailEvent::ReceiveFailed(ReceiveError::Other(e)))
}

/// Twenty receive errors in a row are put up with, counting those that came before, and the one
/// after that ends the processing.
pub proof fn law_errors_in_a_row<U: UserMessage, P, D>(
    state: MailState<D>,
    errors: Seq<IpcRpcError>,
)
    requires
        state.wf(),
        state.running,
    ensures
        run(state, errors_in_a_row::<U, P, D>(errors)).running <==> state.consecutive_errors
            + errors.len() <= 20,
        run(state, errors_in_a_row::<U, P, D>(errors)).running ==> run(
            state,
            errors_in_a_row::<U, P, D>(errors),
        ).consecutive_errors == state.consecutive_errors + errors.len(),
    decreases errors.len(),
{
    if errors.len() > 0 {
        law_errors_in_a_row::<U, P, D>(state, errors.drop_last());
        assert(errors_in_a_row::<U, P, D>(errors).drop_last() =~= errors_in_a_row::<U, P, D>(
            errors.drop_last(),
        ));
    }
}

/// One error too many is no normal shutdown: whoever waits for the end of the session gets the
/// error that ended it.
pub proof fn law_one_error_too_many_is_reported<U: UserMessage, P, D>(
    state: MailState<D>,
    session: SessionState,
    errors: Seq<IpcRpcError>,
    last: IpcRpcError,
    action: MailAction<U, P, D>,
)
    requires
        state.wf(),
        state.running,
        state.consecutive_errors + errors.len() == 20,
        run(state, errors_in_a_row::<U, P, D>(errors)).calls_for(
            MailEvent::ReceiveFailed(ReceiveError::Other(last)),
            action,
        ),
        session.wf(),
        session.status_open,
    ensures
        action matches MailAction::Stop(end) && session.with_status(end).end() == Some(
            Err::<(), IpcRpcError>(last),
        ),
{
    law_errors_in_a_row::<U, P, D>(state, errors);
}

/// A message that comes in makes up for all errors before it. Nothing else does: neither a look at
/// the awaited replies nor a new drop box interrupts a row of errors.
pub proof fn law_a_message_makes_up_for_errors<U: UserMessage, P, D>(
    state: MailState<D>,
    message: InternalMessage<U, P>,
    entry: PendingReplyEntry<D>,
)
    requires
        state.running,
    ensures
        state.after(MailEvent::Received(message)).consecutive_errors == 0,
        state.after(MailEvent::<U, P, D>::SweepDue).consecutive_errors == state.consecutive_errors,
        state.after(MailEvent::<U, P, D>::Register(entry)).consecutive_errors
            == state.consecutive_errors,
{
}

/// Nothing happens any more to an end that has stopped, and nothing is to be done for it.
pub proof fn law_stopped_is_stopped<U: UserMessage, P, D>(
    state: MailState<D>,
    events: Seq<MailEvent<U, P, D>>,
)
    requires
        !state.running,
    ensures
        run(state, events) == state,
    decreases events.len(),
{
    if events.len() > 0 {
        law_stopped_is_stopped(state, events.drop_last());
    }
}

/// When the processing ends, for whatever reason, every drop box is let go of with nothing put into
/// it, those that were handed in but not yet up among them, and none goes up later. What its
/// caller then gets is that the connection was dropped.
pub proof fn law_callers_are_released_when_the_processing_ends<U: UserMessage, P, D>(
    state: MailState<D>,
    queued: Seq<PendingReplyEntry<D>>,
    event: MailEvent<U, P, D>,
    action: MailAction<U, P, D>,
    later: Seq<MailEvent<U, P, D>>,
    answer: MailAction<U, P, D>,
    last: MailEvent<U, P, D>,
)
    requires
        state.wf(),
        state.running,
        run(state, queued_events::<U, P, D>(queued)).calls_for(event, action),
        action is Stop,
        run(run(state, queued_events::<U, P, D>(queued)).after(event), later).calls_for(
            last,
            answer,
        ),
    ensures
        ({
            let stopped = run(state, queued_events::<U, P, D>(queued)).after(event);
            &&& stopped.pending == Map::<u128, PendingReply<D>>::empty()
            &&& run(stopped, later).pending == Map::<u128, PendingReply<D>>::empty()
            &&& !(answer is Answer)
        }),
        spec_reply_outcome::<U, P>(None) == Err::<InternalMessageKind<U, P>, IpcRpcError>(
            IpcRpcError::ConnectionDropped,
        ),
{
    let stopped = run(state, queued_events::<U, P, D>(queued)).after(event);
    law_queued_drop_boxes_go_up::<U, P, D>(state, queued);
    law_stopped_is_stopped(stopped, later);
}

/// Drop boxes that were handed in go up in the order in which they were, and change nothing else:
/// each of them is up, unless a later one for the same message took its place, and those that were
/// up before stay up.
pub proof fn law_queued_drop_boxes_go_up<U: UserMessage, P, D>(
    state: MailState<D>,
    queued: Seq<PendingReplyEntry<D>>,
)
    requires
        state.running,
    ensures
        ({
            let after = run(state, queued_events::<U, P, D>(queued));
            &&& after == MailState { pending: after.pending, ..state }
            &&& forall|i: int|
                0 <= i < queued.len() && (forall|j: int|
                    i < j < queued.len() ==> queued[j].uuid != queued[i].uuid)
                    ==> after.pending.contains_key((#[trigger] queued[i]).uuid)
                    && after.pending[queued[i].uuid] == queued[i].reply
            &&& forall|uuid: u128|
                (forall|j: int| 0 <= j < queued.len() ==> (#[trigger] queued[j]).uuid != uuid) ==> {
                    &&& (#[trigger] after.pending.contains_key(uuid)) == state.pending.contains_key(
                        uuid,
                    )
                    &&& state.pending.contains_key(uuid) ==> after.pending[uuid]
                        == state.pending[uuid]
                }
        }),
    decreases queued.len(),
{
    let events = queued_events::<U, P, D>(queued);
    if queued.len() > 0 {
        let before = queued.drop_last();
        law_queued_drop_boxes_go_up::<U, P, D>(state, before);
        assert(events.drop_last() =~= queued_events::<U, P, D>(before));
        let after = run(state, events);
        assert forall|i: int|
            0 <= i < queued.len() && (forall|j: int|
                i < j < queued.len() ==> queued[j].uuid != queued[i].uuid) implies (
        after.pending.contains_key((#[trigger] queued[i]).uuid) && after.pending[queued[i].uuid]
            == queued[i].reply) by {
            if i < before.len() {
                assert(queued[queued.len() - 1].uuid != queued[i].uuid);
                assert(before[i] == queued[i]);
                assert forall|j: int| i < j < before.len() implies before[j].uuid
                    != before[i].uuid by {
                    assert(queued[j].uuid != queued[i].uuid);
                }
            }
        }
        assert forall|uuid: u128|
            (forall|j: int| 0 <= j < queued.len() ==> (#[trigger] queued[j]).uuid != uuid) implies ({
            &&& (#[trigger] after.pending.contains_key(uuid)) == state.pending.contains_key(uuid)
            &&& state.pending.contains_key(uuid) ==> after.pending[uuid] == state.pending[uuid]
        }) by {
            assert(queued[queued.len() - 1].uuid != uuid);
            assert forall|j: int| 0 <= j < before.len() implies (#[trigger] before[j]).uuid
                != uuid by {
                assert(queued[j].uuid != uuid);
            }
        }
    }
}

/// A drop box that was handed in before a message is taken in gets the reply that the message is: the
/// reply is never mistaken for a message of its own.
pub proof fn law_a_queued_drop_box_gets_its_reply<U: UserMessage, P, D>(
    state: MailState<D>,
    queued: Seq<PendingReplyEntry<D>>,
    i: int,
    message: InternalMessage<U, P>,
    action: MailAction<U, P, D>,
)
    requires
        state.running,
        0 <= i < queued.len(),
        queued[i].uuid == message.uuid,
        forall|j: int| i < j < queued.len() ==> queued[j].uuid != queued[i].uuid,
        run(state, queued_events::<U, P, D>(queued)).calls_for(
            MailEvent::Received(message),
            action,
        ),
    ensures
        action matches MailAction::Answer(answers) && answers@ == seq![
            Answer {
                uuid: message.uuid,
                drop_box: queued[i].reply.drop_box,
                reply: Ok::<InternalMessageKind<U, P>, IpcRpcError>(message.kind),
            },
        ],
{
    law_queued_drop_boxes_go_up::<U, P, D>(state, queued);
}

/// A session that has just begun has the status and the schema that it was given, nothing is known
/// of the validation, and both tasks are there to publish what they find.
pub proof fn law_a_session_begins(
    status: ConnectionStatus,
    our_schema: Option<Seq<char>>,
    log_prefix: Seq<char>,
)
    ensures
        ({
            let state = SessionState::initial(status, our_schema, log_prefix);
            &&& state.status == status
            &&& state.status_open
            &&& state.validation is None
            &&& state.validation_open
            &&& state.our_schema == our_schema
            &&& state.log_prefix == log_prefix
        }),
{
}

/// What is published is what is known afterwards, as long as someone is there to publish it: the last
/// thing for a status exactly where it ends the session, and for the validation always. What one
/// task publishes leaves alone what the other one does.
pub proof fn law_what_is_published_is_known(
    state: SessionState,
    status: ConnectionStatus,
    outcome: Option<SchemaValidationStatus>,
)
    ensures
        ({
            let published = state.with_status(status);
            &&& state.status_open ==> published.status == status && (published.status_open
                <==> status is WaitingForClient || status is Connected)
            &&& !state.status_open ==> published.status == state.status && !published.status_open
            &&& published.validation == state.validation
            &&& published.validation_open == state.validation_open
            &&& published.our_schema == state.our_schema
            &&& published.log_prefix == state.log_prefix
        }),
        ({
            let concluded = state.with_validation(outcome);
            &&& !concluded.validation_open
            &&& concluded.validation == if state.validation_open {
                outcome
            } else {
                state.validation
            }
            &&& concluded.status == state.status
            &&& concluded.status_open == state.status_open
            &&& concluded.our_schema == state.our_schema
            &&& concluded.log_prefix == state.log_prefix
        }),
        ({
            let left = state.without_status_sender();
            &&& !left.status_open
            &&& left.status == state.status
            &&& left.validation == state.validation
            &&& left.validation_open == state.validation_open
            &&& left.our_schema == state.our_schema
            &&& left.log_prefix == state.log_prefix
        }),
        ({
            let left = state.without_validation_sender();
            &&& !left.validation_open
            &&& left.validation == state.validation
            &&& left.status == state.status
            &&& left.status_open == state.status_open
            &&& left.our_schema == state.our_schema
            &&& left.log_prefix == state.log_prefix
        }),
{
}

/// What someone gets who waits tells how the session stands: there is nothing but to wait exactly
/// while what is waited for can still be published, an error of the session is handed out as it is,
/// and a connection counts as dropped exactly where nobody is left to publish anything.
pub proof fn law_what_one_waits_for_tells_the_session(
    state: SessionState,
    e: IpcRpcError,
    outcome: SchemaValidationStatus,
)
    ensures
        ({
            let going = state.status is WaitingForClient || state.status is Connected;
            &&& state.end() is None <==> going && state.status_open
            &&& state.end() == Some(Ok::<(), IpcRpcError>(())) <==> state.status
                is DisconnectedCleanly
            &&& state.end() == Some(Err::<(), IpcRpcError>(e)) <==> state.status
                == ConnectionStatus::DisconnectError(e) || (going && !state.status_open
                && e is ConnectionDropped)
        }),
        ({
            let waiting = state.status is WaitingForClient;
            &&& state.connection() is None <==> waiting && state.status_open
            &&& state.connection() == Some(Ok::<(), IpcRpcError>(())) <==> state.status is Connected
                || state.status is DisconnectedCleanly
            &&& state.connection() == Some(Err::<(), IpcRpcError>(e)) <==> state.status
                == ConnectionStatus::DisconnectError(e) || (waiting && !state.status_open
                && e is ConnectionDropped)
        }),
        ({
            let validates = state.our_schema is Some;
            &&& state.schema_outcome() is None <==> validates && state.validation is None
                && state.validation_open
            &&& state.schema_outcome() == Some(Ok::<SchemaValidationStatus, IpcRpcError>(outcome))
                <==> (validates && state.validation == Some(outcome)) || (!validates
                && outcome is ValidationDisabledAtCompileTime)
            &&& state.schema_outcome() == Some(Err::<SchemaValidationStatus, IpcRpcError>(e))
                <==> validates && state.validation is None && !state.validation_open
                && e is ConnectionDropped
        }),
{
}

/// What is reported of the validation is what was concluded from the reply to our schema, and
/// nothing else: a match is reported exactly where the peer said so, an error of the communication
/// as that very error, a mismatch with both schemas, and where nothing was concluded, that the
/// connection was dropped.
pub proof fn law_what_was_concluded_is_reported<U: UserMessage, P>(
    state: SessionState,
    reply: Result<InternalMessageKind<U, P>, IpcRpcError>,
    outcome: Option<SchemaValidationStatus>,
)
    requires
        state.our_schema is Some,
        state.validation_open,
        is_validation_outcome(outcome, reply, state.our_schema->0),
    ensures
        ({
            let reported = state.with_validation(outcome).schema_outcome();
            &&& outcome matches Some(status) ==> reported == Some(
                Ok::<SchemaValidationStatus, IpcRpcError>(status),
            )
            &&& outcome is None ==> reported == Some(
                Err::<SchemaValidationStatus, IpcRpcError>(IpcRpcError::ConnectionDropped),
            )
            &&& reported == Some(
                Ok::<SchemaValidationStatus, IpcRpcError>(SchemaValidationStatus::SchemasMatched),
            ) <==> (reply matches Ok(kind) && kind is UserMessageSchemaOk)
            &&& reply matches Ok(kind) ==> (kind matches InternalMessageKind::UserMessageSchemaError {
                other_schema,
            } ==> (reported matches Some(Ok(status)) && (
            status matches SchemaValidationStatus::SchemaMismatch { our_schema, their_schema }
                && our_schema@ == state.our_schema->0 && their_schema == other_schema)))
            &&& reply matches Err(e) ==> reported == (if e is ConnectionDropped {
                Some(Err::<SchemaValidationStatus, IpcRpcError>(e))
            } else {
                Some(
                    Ok::<SchemaValidationStatus, IpcRpcError>(
                        SchemaValidationStatus::ValidationCommunicationFailed(e),
                    ),
                )
            })
        }),
{
}

/// A server that waits for its client is connected exactly where the first message opens a
/// connection, whether or not it validates schemas. Anything else ends its session with the error
/// that says why, and then its schemas will not be validated.
pub proof fn law_a_server_is_connected_by_a_message_that_opens_a_connection<U: UserMessage, P>(
    state: SessionState,
    first: Result<InternalMessage<U, P>, ipc_channel::Error>,
)
    requires
        state.status_open,
        state.status is WaitingForClient,
    ensures
        ({
            let after = after_startup(state, first);
            &&& after.connection() == Some(Ok::<(), IpcRpcError>(())) <==> (
            first matches Ok(message) && message.kind is InitConnection)
            &&& opens_connection(first) <==> (first matches Ok(message)
                && message.kind is InitConnection)
            &&& first matches Ok(message) ==> if message.kind is InitConnection {
                &&& after.status is Connected
                &&& after.status_open
                &&& after.end() is None
                &&& after.validation_open == state.validation_open
            } else {
                &&& after.status == ConnectionStatus::DisconnectError(IpcRpcError::HandshakeFailure)
                &&& after.end() == Some(Err::<(), IpcRpcError>(IpcRpcError::HandshakeFailure))
                &&& !after.status_open
                &&& !after.validation_open
            }
            &&& first matches Err(e) ==> {
                let error = IpcRpcError::IpcChannelError(std::sync::Arc::new(e));
                &&& after.status == ConnectionStatus::DisconnectError(error)
                &&& after.connection() == Some(Err::<(), IpcRpcError>(error))
                &&& !after.status_open
                &&& !after.validation_open
            }
            &&& after.validation == state.validation
            &&& after.our_schema == state.our_schema
            &&& after.log_prefix == state.log_prefix
        }),
{
}

/// A schema is checked by a request that brings that schema, under a random identifier, and whose
/// reply is awaited for five seconds; and there is no such request where schemas are not validated.
pub proof fn law_a_schema_check_brings_the_schema<U: UserMessage, P>(
    request: Option<OutgoingRequest<U, P>>,
    our_schema: Option<Seq<char>>,
    now: u128,
)
    requires
        is_schema_check(request, our_schema, now),
    ensures
        request is Some <==> our_schema is Some,
        request matches Some(check) ==> {
            &&& is_random_uuid(check.message.uuid)
            &&& check.deadline - now == 5_000_000_000
            &&& check.message.kind matches InternalMessageKind::UserMessageSchema(text)
            &&& our_schema == Some(text@)
        },
{
}

/// A session whose mail is no longer processed has ended, in the way in which the processing
/// ended, if it had not ended before. It ends for whoever waits for the peer to connect just the
/// same.
pub proof fn law_processing_mail_ends_with_the_session(state: SessionState, end: ConnectionStatus)
    requires
        state.wf(),
        state.status_open,
        end.session_end() is Some,
    ensures
        state.with_status(end).end() == end.session_end(),
        state.with_status(end).connection() == end.session_end(),
{
}

/// What can happen to the session of an end.
pub enum SessionStep<U: UserMessage, P> {
    /// A server got its first message, or failed to.
    Startup(Result<InternalMessage<U, P>, ipc_channel::Error>),
    /// The incoming mail is no longer processed.
    MailStopped(ConnectionStatus),
    /// The task that publishes the status is gone.
    StatusSenderGone,
    /// The validation of the schemas came to a conclusion.
    ConcludeValidation(Option<SchemaValidationStatus>),
    /// The task that publishes the outcome of the validation is gone.
    ValidationSenderGone,
}

impl<U: UserMessage, P> SessionStep<U, P> {
    /// Whether the step can be taken in a state. Only a server that waits for its client starts up,
    /// and it has no mail before that.
    pub open spec fn possible(self, state: SessionState) -> bool {
        let waiting = state.status is WaitingForClient && state.status_open;
        match self {
            SessionStep::Startup(_) => waiting,
            SessionStep::MailStopped(end) => end.session_end() is Some && !waiting,
            _ => true,
        }
    }

    /// The state after the step.
    pub open spec fn after(self, state: SessionState) -> SessionState {
        match self {
            SessionStep::Startup(first) => after_startup(state, first),
            SessionStep::MailStopped(end) => state.with_status(end),
            SessionStep::StatusSenderGone => state.without_status_sender(),
            SessionStep::ConcludeValidation(outcome) => state.with_validation(outcome),
            SessionStep::ValidationSenderGone => state.without_validation_sender(),
        }
    }

    /// Whether the step publishes a status, where someone is there to publish it.
    pub open spec fn publishes(self) -> bool {
        self is Startup || self is MailStopped
    }
}

/// The state of a session after a number of steps.
pub open spec fn session_run<U: UserMessage, P>(
    state: SessionState,
    steps: Seq<SessionStep<U, P>>,
) -> SessionState
    decreases steps.len(),
{
    if steps.len() == 0 {
        state
    } else {
        steps.last().after(session_run(state, steps.drop_last()))
    }
}

/// Whether each of a number of steps can be taken after those before it.
pub open spec fn all_possible<U: UserMessage, P>(
    state: SessionState,
    steps: Seq<SessionStep<U, P>>,
) -> bool
    decreases steps.len(),
{
    steps.len() > 0 ==> all_possible(state, steps.drop_last()) && steps.last().possible(
        session_run(state, steps.drop_last()),
    )
}

/// The statuses of a session from the first to the last, over a number of steps.
pub open spec fn statuses<U: UserMessage, P>(
    state: SessionState,
    steps: Seq<SessionStep<U, P>>,
) -> Seq<ConnectionStatus>
    decreases steps.len(),
{
    if steps.len() == 0 {
        seq![state.status]
    } else {
        let before = session_run(state, steps.drop_last());
        if steps.last().publishes() && before.status_open {
            statuses(state, steps.drop_last()).push(session_run(state, steps).status)
        } else {
            statuses(state, steps.drop_last())
        }
    }
}

/// Whatever happens to a session, nothing follows its end nor the outcome of the validation.
pub proof fn law_nothing_follows_the_end<U: UserMessage, P>(
    state: SessionState,
    steps: Seq<SessionStep<U, P>>,
)
    requires
        state.wf(),
    ensures
        session_run(state, steps).wf(),
    decreases steps.len(),
{
    if steps.len() > 0 {
        law_nothing_follows_the_end(state, steps.drop_last());
    }
}

/// Once a session has ended, it stays ended, and everyone who asks how gets the same answer,
/// whatever happens afterwards.
pub proof fn law_the_end_is_final<U: UserMessage, P>(
    state: SessionState,
    steps: Seq<SessionStep<U, P>>,
)
    requires
        state.wf(),
        state.end() is Some,
    ensures
        session_run(state, steps).end() == state.end(),
    decreases steps.len(),
{
    if steps.len() > 0 {
        law_nothing_follows_the_end(state, steps.drop_last());
        law_the_end_is_final(state, steps.drop_last());
    }
}

/// Once the outcome of the validation is known, it does not change, whatever happens afterwards.
pub proof fn law_the_outcome_of_validation_is_final<U: UserMessage, P>(
    state: SessionState,
    steps: Seq<SessionStep<U, P>>,
)
    requires
        state.wf(),
        state.schema_outcome() is Some,
    ensures
        session_run(state, steps).schema_outcome() == state.schema_outcome(),
    decreases steps.len(),
{
    if steps.len() > 0 {
        law_nothing_follows_the_end(state, steps.drop_last());
        law_the_outcome_of_validation_is_final(state, steps.drop_last());
    }
}

/// Whether `s` begins `[WaitingForClient, Connected, end]` or `[WaitingForClient, DisconnectError]`,
/// where `end` ends the session.
pub open spec fn is_server_history(s: Seq<ConnectionStatus>) -> bool {
    &&& 1 <= s.len() <= 3
    &&& s[0] is WaitingForClient
    &&& s.len() == 2 ==> s[1] is Connected || s[1] is DisconnectError
    &&& s.len() == 3 ==> s[1] is Connected && s[2].session_end() is Some
}

/// A server waits for its client, is connected, and is disconnected, or it is disconnected with an
/// error in place of being connected; and no more than that. It is connected only if a message
/// that opens a connection came first. So it serves one client, and never waits for another.
pub proof fn law_a_server_serves_one_client<U: UserMessage, P>(
    our_schema: Option<Seq<char>>,
    log_prefix: Seq<char>,
    steps: Seq<SessionStep<U, P>>,
)
    requires
        all_possible(
            SessionState::initial(ConnectionStatus::WaitingForClient, our_schema, log_prefix),
            steps,
        ),
    ensures
        ({
            let state = SessionState::initial(
                ConnectionStatus::WaitingForClient,
                our_schema,
                log_prefix,
            );
            let s = statuses(state, steps);
            &&& session_run(state, steps).wf()
            &&& is_server_history(s)
            &&& s.last() == session_run(state, steps).status
            &&& s.len() > 1 && s[1] is Connected ==> exists|i: int|
                0 <= i < steps.len() && ((#[trigger] steps[i]) matches SessionStep::Startup(first)
                    && opens_connection(first))
        }),
    decreases steps.len(),
{
    let state = SessionState::initial(ConnectionStatus::WaitingForClient, our_schema, log_prefix);
    if steps.len() > 0 {
        let before = steps.drop_last();
        law_a_server_serves_one_client(our_schema, log_prefix, before);
        let s = statuses(state, steps);
        if s.len() > 1 && s[1] is Connected {
            if statuses(state, before).len() > 1 {
                let i = choose|i: int|
                    0 <= i < before.len() && ((#[trigger] before[i]) matches SessionStep::Startup(
                        first,
                    ) && opens_connection(first));
                assert(steps[i] == before[i]);
            } else {
                assert(steps[steps.len() - 1] is Startup);
            }
        }
    }
}

/// A client is connected, and then disconnected; and no more than that.
pub proof fn law_a_client_is_connected_until_it_is_disconnected<U: UserMessage, P>(
    our_schema: Option<Seq<char>>,
    log_prefix: Seq<char>,
    steps: Seq<SessionStep<U, P>>,
)
    requires
        all_possible(
            SessionState::initial(ConnectionStatus::Connected, our_schema, log_prefix),
            steps,
        ),
    ensures
        ({
            let state = SessionState::initial(ConnectionStatus::Connected, our_schema, log_prefix);
            let s = statuses(state, steps);
            &&& session_run(state, steps).wf()
            &&& 1 <= s.len() <= 2
            &&& s[0] is Connected
            &&& s.len() == 2 ==> s[1].session_end() is Some
            &&& s.last() == session_run(state, steps).status
        }),
    decreases steps.len(),
{
    if steps.len() > 0 {
        law_a_client_is_connected_until_it_is_disconnected(
            our_schema,
            log_prefix,
            steps.drop_last(),
        );
    }
}

/// A client never waits for a server to connect: it is connected from the beginning.
pub proof fn law_a_client_is_connected_at_once(
    our_schema: Option<Seq<char>>,
    log_prefix: Seq<char>,
)
    ensures
        SessionState::initial(ConnectionStatus::Connected, our_schema, log_prefix).connection()
            == Some(Ok::<(), IpcRpcError>(())),
{
}

/// How many handles of a client there are after a number of events, where there was one at first.
pub open spec fn handles_left(events: Seq<HandleEvent>) -> int
    decreases events.len(),
{
    if events.len() == 0 {
        1
    } else {
        handles_after(handles_left(events.drop_last()), events.last())
    }
}

/// How often an event occurs among others.
pub open spec fn times(events: Seq<HandleEvent>, event: HandleEvent) -> int
    decreases events.len(),
{
    if events.len() == 0 {
        0
    } else {
        times(events.drop_last(), event) + if events.last() == event {
            1int
        } else {
            0int
        }
    }
}

/// One more event is counted if it is the one that is looked for.
proof fn lemma_times_push(events: Seq<HandleEvent>, last: HandleEvent, event: HandleEvent)
    ensures
        times(events.push(last), event) == times(events, event) + if last == event {
            1int
        } else {
            0int
        },
{
    assert(events.push(last).drop_last() =~= events);
}

/// Of the handles of a client there are as many as were made, the first one and every clone, less
/// those that were dropped. A drop hangs up exactly where after it as many were dropped as were
/// made; cloning never does.
pub proof fn law_handles_are_counted(events: Seq<HandleEvent>)
    ensures
        handles_left(events) == 1 + times(events, HandleEvent::Cloned) - times(
            events,
            HandleEvent::Dropped,
        ),
        ({
            let dropped = events.push(HandleEvent::Dropped);
            sends_hangup(handles_left(events), HandleEvent::Dropped) <==> times(
                dropped,
                HandleEvent::Dropped,
            ) == 1 + times(dropped, HandleEvent::Cloned)
        }),
        !sends_hangup(handles_left(events), HandleEvent::Cloned),
    decreases events.len(),
{
    if events.len() > 0 {
        law_handles_are_counted(events.drop_last());
    }
    lemma_times_push(events, HandleEvent::Dropped, HandleEvent::Dropped);
    lemma_times_push(events, HandleEvent::Dropped, HandleEvent::Cloned);
}

/// Whether there was a handle left for each of a number of events to happen to.
pub open spec fn handles_sufficed(events: Seq<HandleEvent>) -> bool
    decreases events.len(),
{
    events.len() > 0 ==> handles_sufficed(events.drop_last()) && handles_left(events.drop_last()) > 0
}

/// How often a client hung up over a number of events.
pub open spec fn hangups(events: Seq<HandleEvent>) -> int
    decreases events.len(),
{
    if events.len() == 0 {
        0
    } else {
        hangups(events.drop_last()) + if sends_hangup(
            handles_left(events.drop_last()),
            events.last(),
        ) {
            1int
        } else {
            0int
        }
    }
}

/// However often the handles of a client are cloned, and in whatever order they are dropped, the
/// client hangs up exactly once in all, and it does so when the last handle is dropped: as long as
/// one is left, it has not hung up.
pub proof fn law_a_client_hangs_up_once(events: Seq<HandleEvent>)
    requires
        handles_sufficed(events),
    ensures
        handles_left(events) >= 0,
        hangups(events) == if handles_left(events) == 0 {
            1int
        } else {
            0int
        },
        handles_left(events) == 0 ==> hangups(events.drop_last()) == 0 && sends_hangup(
            handles_left(events.drop_last()),
            events.last(),
        ),
    decreases events.len(),
{
    if events.len() > 0 {
        law_a_client_hangs_up_once(events.drop_last());
    }
}

/// To send a request, one drop box is handed in, and after it one message is sent: the drop box for
/// the reply to that very message, with the time until which its sender waits. An end that takes
/// in the drop box awaits the reply before its peer can answer.
pub proof fn law_a_drop_box_goes_up_before_its_message<U: UserMessage, P, D>(
    request: OutgoingRequest<U, P>,
    kind: InternalMessageKind<U, P>,
    timeout: u128,
    now: u128,
    drop_box: D,
    caller: MailState<D>,
)
    requires
        caller.running,
        request.message.kind == kind,
        request.deadline == now + timeout,
    ensures
        ({
            let steps = request.spec_steps(drop_box);
            &&& steps.len() == 2
            &&& steps[0] matches SendStep::Register(entry)
            &&& steps[1] matches SendStep::Transmit(message)
            &&& message == request.message
            &&& entry.uuid == message.uuid
            &&& message.kind == kind
            &&& entry.reply == PendingReply { drop_box, deadline: (now + timeout) as u128 }
            &&& caller.after(MailEvent::<U, P, D>::Register(entry)).pending.contains_key(
                message.uuid,
            )
            &&& caller.after(MailEvent::<U, P, D>::Register(entry)).pending[message.uuid]
                == entry.reply
        }),
{
}

/// Whether a step sends a schema to have it checked.
pub open spec fn sends_schema<U: UserMessage, P, D>(step: SendStep<U, P, D>) -> bool {
    step matches SendStep::Transmit(message) && message.kind is UserMessageSchema
}

/// The first message that a client sends opens the connection. Where schemas are validated, its
/// schema follows, once, and before it goes the drop box for the reply, with the default time to
/// wait. All of that comes before anyone gets to send through the client.
pub proof fn law_a_client_opens_and_then_has_its_schema_checked<U: UserMessage, P, D>(
    steps: Seq<SendStep<U, P, D>>,
    peer: P,
    our_schema: Option<Seq<char>>,
    drop_box: D,
    now: u128,
)
    requires
        is_client_opening(steps, peer, our_schema, drop_box, now),
    ensures
        steps[0] matches SendStep::Transmit(init) && init.kind == InternalMessageKind::<
            U,
            P,
        >::InitConnection(peer) && is_random_uuid(init.uuid),
        steps.len() == if our_schema is Some {
            3int
        } else {
            1int
        },
        our_schema matches Some(ours) ==> {
            &&& steps[1] matches SendStep::Register(entry)
            &&& steps[2] matches SendStep::Transmit(check)
            &&& check.kind matches InternalMessageKind::UserMessageSchema(text)
            &&& text@ == ours
            &&& is_random_uuid(check.uuid)
            &&& entry.uuid == check.uuid
            &&& entry.reply.drop_box == drop_box
            &&& entry.reply.deadline == now + 5_000_000_000
        },
        forall|i: int|
            0 <= i < steps.len() ==> (sends_schema(#[trigger] steps[i]) <==> i == 2),
{
    let check = steps.skip(1);
    assert(check.len() == steps.len() - 1);
    if our_schema is Some {
        assert(steps[1] == check[0]);
        assert(steps[2] == check[1]);
    }
}

/// Where schemas are validated, the first message that a server sends to its client is its schema,
/// and before it goes the drop box for the reply. What was to be sent before there was a client
/// follows, all of it, in order, and nothing else.
pub proof fn law_queued_mail_follows_the_schema<U: UserMessage, P, D>(
    steps: Seq<SendStep<U, P, D>>,
    our_schema: Option<Seq<char>>,
    queued: Seq<InternalMessage<U, P>>,
    drop_box: D,
    now: u128,
)
    requires
        is_server_opening(steps, our_schema, queued, drop_box, now),
    ensures
        match our_schema {
            Some(ours) => {
                &&& steps.len() == queued.len() + 2
                &&& steps[0] matches SendStep::Register(entry)
                &&& steps[1] matches SendStep::Transmit(check)
                &&& check.kind matches InternalMessageKind::UserMessageSchema(text)
                &&& text@ == ours
                &&& is_random_uuid(check.uuid)
                &&& entry.uuid == check.uuid
                &&& entry.reply.drop_box == drop_box
                &&& entry.reply.deadline == now + 5_000_000_000
                &&& forall|i: int|
                    2 <= i < steps.len() ==> #[trigger] steps[i] == SendStep::<U, P, D>::Transmit(
                        queued[i - 2],
                    )
            },
            None => {
                &&& steps.len() == queued.len()
                &&& forall|i: int|
                    0 <= i < steps.len() ==> #[trigger] steps[i] == SendStep::<U, P, D>::Transmit(
                        queued[i],
                    )
            },
        },
{
    let n = steps.len() - queued.len();
    let check = steps.take(n);
    let rest = steps.skip(n);
    assert(rest == transmissions::<U, P, D>(queued));
    if our_schema is Some {
        assert(steps[0] == check[0]);
        assert(steps[1] == check[1]);
    }
    assert forall|i: int| n <= i < steps.len() implies #[trigger] steps[i] == SendStep::<
        U,
        P,
        D,
    >::Transmit(queued[i - n]) by {
        assert(rest[i - n] == steps[i]);
    }
}

/// Whoever holds the key of a server whose name is an identifier in hyphenated form finds the
/// server: the text of the key is the name of the server.
pub proof fn law_a_key_leads_to_its_server(server_name: Seq<char>, name: u128, key: u128)
    requires
        server_name == hyphenated(name),
        denotes(server_name, key),
    ensures
        hyphenated(key) == server_name,
{
    law_key_text_round_trip(name);
}

} // verus!
