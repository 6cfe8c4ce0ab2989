//! What an end does with its incoming mail.
use ipc_rpc::mail::ReceiveError;
use ipc_rpc::mail::MAX_CONSECUTIVE_ERRORS;
use ipc_rpc::mail::PENDING_REPLY_CLEANUP_CHECK_DURATION;
use ipc_rpc::pending::PendingReplies;
use ipc_rpc::pending::PendingReply;
use ipc_rpc::pending::PendingReplyEntry;
use ipc_rpc::receive::TryReceiveError;
use ipc_rpc::message::SendStep;
use ipc_rpc::ConnectionStatus;
use ipc_rpc::InternalMessage;
use ipc_rpc::InternalMessageKind;
use ipc_rpc::IpcReceiveStream;
use ipc_rpc::IpcRpcError;
use ipc_rpc::MailAction;
use ipc_rpc::MailEvent;
use ipc_rpc::MailProcessor;
use ipc_rpc::OutgoingRequest;
use ipc_rpc::DEFAULT_REPLY_TIMEOUT;

type Event = MailEvent<u8, (), &'static str>;
type Action = MailAction<u8, (), &'static str>;

fn entry(uuid: u128, drop_box: &'static str, deadline: u128) -> PendingReplyEntry<&'static str> {
    PendingReplyEntry {
        uuid,
        reply: PendingReply { drop_box, deadline },
    }
}

fn received(uuid: u128, kind: InternalMessageKind<u8, ()>) -> Event {
    MailEvent::Received(InternalMessage { uuid, kind })
}

/// Hands in a sweep, and returns the drop boxes that it answers.
fn sweep(mail: &mut MailProcessor<&'static str>) -> Vec<&'static str> {
    let event: Event = MailEvent::SweepDue;
    match mail.process_incoming_mail(Vec::new(), event) {
        MailAction::Answer(answers) => {
            let mut boxes: Vec<&'static str> = Vec::new();
            for answer in answers {
                assert!(matches!(answer.reply, Err(IpcRpcError::ReplyTimeout)));
                boxes.push(answer.drop_box);
            }
            boxes.sort();
            boxes
        }
        other => panic!("unexpected action {:?}", other),
    }
}

fn failed() -> Event {
    MailEvent::ReceiveFailed(ReceiveError::Other(IpcRpcError::Disconnected))
}

fn stops_cleanly(action: &Action) -> bool {
    matches!(action, MailAction::Stop(ConnectionStatus::DisconnectedCleanly))
}

fn is_continue(action: Action) -> bool {
    matches!(action, MailAction::Continue)
}

#[test]
fn default_timings() {
    assert_eq!(DEFAULT_REPLY_TIMEOUT, 5_000_000_000);
    assert_eq!(PENDING_REPLY_CLEANUP_CHECK_DURATION, 100_000_000);
    assert_eq!(MAX_CONSECUTIVE_ERRORS, 20);
}

#[test]
fn sweeps_come_at_regular_times() {
    let mut mail: MailProcessor<&'static str> = MailProcessor::new(7, None);
    assert_eq!(mail.next_sweep(), 100_000_007);
    assert!(sweep(&mut mail).is_empty());
    assert_eq!(mail.next_sweep(), 200_000_007);
    let event: Event = failed();
    assert!(is_continue(mail.process_incoming_mail(Vec::new(), event)));
    assert_eq!(mail.next_sweep(), 200_000_007);
}

#[test]
fn only_replies_whose_deadline_has_passed_are_given_up() {
    let mut mail: MailProcessor<&'static str> = MailProcessor::new(0, None);
    for e in vec![
        entry(1, "before", 99_999_999),
        entry(2, "at", 100_000_000),
        entry(3, "after", 100_000_001),
        entry(4, "long before", 0),
    ] {
        let event: Event = MailEvent::Register(e);
        assert!(is_continue(mail.process_incoming_mail(Vec::new(), event)));
    }
    assert_eq!(sweep(&mut mail), vec!["before", "long before"]);
    assert_eq!(sweep(&mut mail), vec!["after", "at"]);
    assert!(sweep(&mut mail).is_empty());
}

#[test]
fn a_reply_that_was_given_up_comes_too_late() {
    let mut mail: MailProcessor<&'static str> = MailProcessor::new(0, None);
    let event: Event = MailEvent::Register(entry(1, "caller", 1));
    mail.process_incoming_mail(Vec::new(), event);
    assert_eq!(sweep(&mut mail), vec!["caller"]);
    let action = mail.process_incoming_mail(Vec::new(), received(1, InternalMessageKind::UserMessage(9)));
    assert!(matches!(action, MailAction::Handle { uuid: 1, message: 9 }));
}

#[test]
fn a_reply_goes_into_its_drop_box_whatever_it_is() {
    let mut mail: MailProcessor<&'static str> = MailProcessor::new(0, None);
    for kind in vec![
        InternalMessageKind::InitConnection(()),
        InternalMessageKind::Hangup,
        InternalMessageKind::UserMessage(3),
        InternalMessageKind::UserMessageSchema(String::from("true")),
        InternalMessageKind::UserMessageSchemaOk,
        InternalMessageKind::UserMessageSchemaError {
            other_schema: String::from("false"),
        },
    ] {
        let event: Event = MailEvent::Register(entry(5, "caller", 1_000));
        mail.process_incoming_mail(Vec::new(), event);
        let sent = format!("{:?}", kind);
        match mail.process_incoming_mail(Vec::new(), received(5, kind)) {
            MailAction::Answer(answers) => {
                assert_eq!(answers.len(), 1);
                assert_eq!(answers[0].uuid, 5);
                assert_eq!(answers[0].drop_box, "caller");
                assert_eq!(format!("{:?}", answers[0].reply.as_ref().unwrap()), sent);
            }
            other => panic!("unexpected action {:?}", other),
        }
        assert!(mail.is_running());
    }
}

#[test]
fn a_message_that_nobody_awaits_is_handled_by_its_kind() {
    let mut mail: MailProcessor<&'static str> = MailProcessor::new(0, Some(String::from("true")));
    let action = mail.process_incoming_mail(Vec::new(), received(1, InternalMessageKind::UserMessage(4)));
    assert!(matches!(action, MailAction::Handle { uuid: 1, message: 4 }));
    let action = mail.process_incoming_mail(Vec::new(), received(
        2,
        InternalMessageKind::UserMessageSchema(String::from("true")),
    ));
    assert!(matches!(
        action,
        MailAction::Respond(InternalMessage {
            uuid: 2,
            kind: InternalMessageKind::UserMessageSchemaOk
        })
    ));
    for text in vec!["false", "not a schema"] {
        let action = mail.process_incoming_mail(Vec::new(), received(
            3,
            InternalMessageKind::UserMessageSchema(String::from(text)),
        ));
        match action {
            MailAction::Respond(InternalMessage {
                uuid: 3,
                kind: InternalMessageKind::UserMessageSchemaError { other_schema },
            }) => assert_eq!(other_schema, "true"),
            other => panic!("unexpected action {:?}", other),
        }
    }
    for kind in vec![
        InternalMessageKind::InitConnection(()),
        InternalMessageKind::UserMessageSchemaOk,
        InternalMessageKind::UserMessageSchemaError {
            other_schema: String::from("true"),
        },
    ] {
        assert!(is_continue(mail.process_incoming_mail(Vec::new(), received(4, kind))));
        assert!(mail.is_running());
    }
    let action = mail.process_incoming_mail(Vec::new(), received(5, InternalMessageKind::Hangup));
    assert!(stops_cleanly(&action));
    assert!(!mail.is_running());
}

#[test]
fn without_validation_a_schema_is_not_answered() {
    let mut mail: MailProcessor<&'static str> = MailProcessor::new(0, None);
    let action = mail.process_incoming_mail(Vec::new(), received(
        1,
        InternalMessageKind::UserMessageSchema(String::from("true")),
    ));
    assert!(is_continue(action));
}

#[test]
fn twenty_errors_in_a_row_are_put_up_with() {
    let mut mail: MailProcessor<&'static str> = MailProcessor::new(0, None);
    for _ in 0..20 {
        let event: Event = failed();
        assert!(is_continue(mail.process_incoming_mail(Vec::new(), event)));
        assert!(mail.is_running());
    }
    // a message makes up for all of them
    mail.process_incoming_mail(Vec::new(), received(1, InternalMessageKind::UserMessage(0)));
    for _ in 0..20 {
        let event: Event = failed();
        assert!(is_continue(mail.process_incoming_mail(Vec::new(), event)));
    }
    // neither a sweep nor a new drop box does
    sweep(&mut mail);
    let event: Event = MailEvent::Register(entry(2, "caller", 1_000_000_000));
    mail.process_incoming_mail(Vec::new(), event);
    let event: Event = MailEvent::ReceiveFailed(ReceiveError::Other(IpcRpcError::ReplyTimeout));
    let action = mail.process_incoming_mail(Vec::new(), event);
    // and what ended it is the last error
    assert!(matches!(
        action,
        MailAction::Stop(ConnectionStatus::DisconnectError(IpcRpcError::ReplyTimeout))
    ));
    assert!(!mail.is_running());
}

#[test]
fn what_ends_the_processing() {
    for event in vec![
        MailEvent::HandlesGone,
        MailEvent::StreamEnded,
        MailEvent::ReceiveFailed(ReceiveError::Disconnected),
        received(1, InternalMessageKind::Hangup),
    ] {
        let mut mail: MailProcessor<&'static str> = MailProcessor::new(0, None);
        let action: Action = mail.process_incoming_mail(Vec::new(), event);
        assert!(stops_cleanly(&action));
        assert!(!mail.is_running());
    }
}

#[test]
fn a_second_drop_box_for_one_identifier_takes_the_place_of_the_first() {
    let mut pending: PendingReplies<&'static str> = PendingReplies::new();
    pending.register(entry(1, "first", 10));
    pending.register(entry(1, "second", 20));
    pending.register(entry(2, "other", 5));
    let expired = pending.expire(15);
    assert_eq!(expired.len(), 1);
    assert_eq!(expired[0].uuid, 2);
    assert_eq!(expired[0].reply.drop_box, "other");
    assert_eq!(expired[0].reply.deadline, 5);
    assert_eq!(pending.take(1), Some("second"));
    assert_eq!(pending.take(1), None);
    assert_eq!(pending.take(2), None);
}

#[test]
fn requests_have_deadlines_and_fresh_identifiers() {
    let a: OutgoingRequest<u8, ()> =
        OutgoingRequest::internal_send(InternalMessageKind::UserMessage(1), 30, 12);
    let b: OutgoingRequest<u8, ()> =
        OutgoingRequest::internal_send(InternalMessageKind::UserMessage(1), 30, 12);
    assert_eq!(a.deadline, 42);
    assert!(matches!(a.message.kind, InternalMessageKind::UserMessage(1)));
    assert_ne!(a.message.uuid, b.message.uuid);
    for request in vec![a, b] {
        let id = uuid::Uuid::from_u128(request.message.uuid);
        assert_eq!(id.get_version_num(), 4);
        assert_eq!(id.get_variant(), uuid::Variant::RFC4122);
    }
    let c: OutgoingRequest<u8, ()> =
        OutgoingRequest::with_uuid(77, InternalMessageKind::Hangup, u128::MAX, 0);
    assert_eq!(c.message.uuid, 77);
    assert_eq!(c.deadline, u128::MAX);
}

#[test]
fn a_handler_without_an_answer_sends_nothing() {
    let nothing: Option<InternalMessage<u8, ()>> = InternalMessage::user_reply(3, None);
    assert!(nothing.is_none());
    let something: InternalMessage<u8, ()> = InternalMessage::user_reply(3, Some(8)).unwrap();
    assert_eq!(something.uuid, 3);
    assert!(matches!(something.kind, InternalMessageKind::UserMessage(8)));
}

#[test]
fn messages_are_moved_until_the_consumer_is_gone() {
    let mut stream = IpcReceiveStream::new();
    let message: Result<u8, TryReceiveError<&'static str>> = Ok(4);
    assert_eq!(stream.poll_next(message), Some(Ok(4)));
    stream.attempted(false);
    let failure: Result<u8, TryReceiveError<&'static str>> = Err(TryReceiveError::IpcError("gone"));
    assert_eq!(stream.poll_next(failure), Some(Err("gone")));
    stream.attempted(false);
    let nothing: Result<u8, TryReceiveError<&'static str>> = Err(TryReceiveError::Empty);
    assert_eq!(stream.poll_next(nothing), None);
    assert!(stream.is_running());
    stream.attempted(true);
    assert!(!stream.is_running());
    stream.attempted(false);
    assert!(!stream.is_running());
}

#[test]
fn a_drop_box_goes_up_before_its_message() {
    let request: OutgoingRequest<u8, ()> =
        OutgoingRequest::with_uuid(7, InternalMessageKind::UserMessage(1), 30, 12);
    let steps = request.steps("caller");
    assert_eq!(steps.len(), 2);
    match &steps[0] {
        SendStep::Register(entry) => {
            assert_eq!(entry.uuid, 7);
            assert_eq!(entry.reply.drop_box, "caller");
            assert_eq!(entry.reply.deadline, 42);
        }
        other => panic!("unexpected step {:?}", other),
    }
    assert!(matches!(
        &steps[1],
        SendStep::Transmit(InternalMessage {
            uuid: 7,
            kind: InternalMessageKind::UserMessage(1)
        })
    ));
}

#[test]
fn a_queued_drop_box_goes_up_before_a_message_is_taken_in() {
    let mut mail: MailProcessor<&'static str> = MailProcessor::new(0, None);
    let queued = vec![entry(1, "first", 9), entry(2, "second", 9), entry(1, "third", 9)];
    match mail.process_incoming_mail(queued, received(1, InternalMessageKind::UserMessage(6))) {
        MailAction::Answer(answers) => {
            assert_eq!(answers.len(), 1);
            assert_eq!(answers[0].drop_box, "third");
            assert!(matches!(
                answers[0].reply,
                Ok(InternalMessageKind::UserMessage(6))
            ));
        }
        other => panic!("unexpected action {:?}", other),
    }
    assert_eq!(sweep(&mut mail), vec!["second"]);
}

#[test]
fn callers_are_released_when_the_processing_ends() {
    let up = std::sync::Arc::new(());
    let boxed = |uuid: u128| PendingReplyEntry {
        uuid,
        reply: PendingReply {
            drop_box: std::sync::Arc::clone(&up),
            deadline: 1_000_000_000,
        },
    };
    type Stopping = MailEvent<u8, (), std::sync::Arc<()>>;
    let stopping: Vec<Stopping> = vec![
        MailEvent::HandlesGone,
        MailEvent::StreamEnded,
        MailEvent::ReceiveFailed(ReceiveError::Disconnected),
        MailEvent::Received(InternalMessage {
            uuid: 9,
            kind: InternalMessageKind::Hangup,
        }),
    ];
    for event in stopping {
        let mut mail: MailProcessor<std::sync::Arc<()>> = MailProcessor::new(0, None);
        let register: Stopping = MailEvent::Register(boxed(1));
        mail.process_incoming_mail(vec![boxed(2)], register);
        assert_eq!(std::sync::Arc::strong_count(&up), 3);
        let action = mail.process_incoming_mail(vec![boxed(3)], event);
        assert!(matches!(action, MailAction::Stop(_)));
        assert_eq!(std::sync::Arc::strong_count(&up), 1);
        // what is handed in later is let go of as well, and nothing is answered any more
        let late: Stopping = MailEvent::Received(InternalMessage {
            uuid: 1,
            kind: InternalMessageKind::UserMessage(1),
        });
        let action = mail.process_incoming_mail(vec![boxed(1)], late);
        assert!(matches!(action, MailAction::Continue));
        assert_eq!(std::sync::Arc::strong_count(&up), 1);
        assert!(!mail.is_running());
    }
}
