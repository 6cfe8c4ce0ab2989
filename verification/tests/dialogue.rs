//! Conversations between a server and a client that are joined in memory.
use ipc_rpc::client::ClientHandles;
use ipc_rpc::mail::Answer;
use ipc_rpc::mail::ReceiveError;
use ipc_rpc::message::is_user_reply;
use ipc_rpc::message::open_user_reply;
use ipc_rpc::message::reply_outcome;
use ipc_rpc::message::SendStep;
use ipc_rpc::pending::PendingReply;
use ipc_rpc::pending::PendingReplyEntry;
use ipc_rpc::server::Startup;
use ipc_rpc::ConnectionStatus;
use ipc_rpc::InternalMessage;
use ipc_rpc::InternalMessageKind;
use ipc_rpc::IpcRpcClient;
use ipc_rpc::IpcRpcError;
use ipc_rpc::IpcRpcServer;
use ipc_rpc::MailAction;
use ipc_rpc::MailEvent;
use ipc_rpc::MailProcessor;
use ipc_rpc::OutgoingRequest;
use std::sync::Arc;

const SERVER_NAME: &str = "67e55044-10b1-426f-9247-bb680e5fe0c8";
const SECOND: u128 = 1_000_000_000;

#[derive(Debug, Clone, PartialEq)]
struct IpcProtocolMessage {
    kind: IpcProtocolMessageKind,
}

#[derive(Debug, Clone, PartialEq)]
enum IpcProtocolMessageKind {
    TestMessage,
    ClientTestReply,
    ServerTestReply,
}

type Peer = &'static str;
type Message = InternalMessage<IpcProtocolMessage, Peer>;
type Kind = InternalMessageKind<IpcProtocolMessage, Peer>;
type Request = OutgoingRequest<IpcProtocolMessage, Peer>;
type Handler = Box<dyn Fn(IpcProtocolMessage) -> Option<IpcProtocolMessage>>;

fn test_message() -> IpcProtocolMessage {
    IpcProtocolMessage {
        kind: IpcProtocolMessageKind::TestMessage,
    }
}

fn schema_text() -> String {
    let schema = schemars::SchemaGenerator::default().into_root_schema_for::<Option<String>>();
    serde_json::to_string(&schema).unwrap()
}

/// A numbered drop box, with a resource that shows whether it is still there.
type DropBox = (usize, Option<Arc<()>>);
type Event = MailEvent<IpcProtocolMessage, Peer, DropBox>;

/// One end while it processes its mail.
struct End {
    mail: MailProcessor<DropBox>,
    handler: Handler,
    delivered: Vec<(usize, Result<Kind, IpcRpcError>)>,
    next_drop_box: usize,
    ended: Option<ConnectionStatus>,
}

impl End {
    fn new(handler: Handler, now: u128, schema: Option<String>) -> Self {
        End {
            mail: MailProcessor::new(now, schema),
            handler,
            delivered: Vec::new(),
            next_drop_box: 0,
            ended: None,
        }
    }

    /// Hands in an event, carries out what it calls for, and returns what is to be sent.
    fn happens(&mut self, event: Event) -> Option<Message> {
        assert!(self.mail.is_running());
        match self.mail.process_incoming_mail(Vec::new(), event) {
            MailAction::Continue => None,
            MailAction::Answer(answers) => {
                for Answer { drop_box, reply, .. } in answers {
                    self.delivered.push((drop_box.0, reply));
                }
                None
            }
            MailAction::Handle { uuid, message } => {
                let answer = (self.handler)(message);
                InternalMessage::user_reply(uuid, answer)
            }
            MailAction::Respond(message) => Some(message),
            MailAction::Stop(end) => {
                self.ended = Some(end);
                None
            }
        }
    }

    /// Puts up a drop box for a request, and returns its number.
    fn register(&mut self, request: &Request, detector: Option<Arc<()>>) -> usize {
        let drop_box = self.next_drop_box;
        self.next_drop_box += 1;
        let sent = self.happens(MailEvent::Register(PendingReplyEntry {
            uuid: request.message.uuid,
            reply: PendingReply {
                drop_box: (drop_box, detector),
                deadline: request.deadline,
            },
        }));
        assert!(sent.is_none());
        drop_box
    }

    /// Lets time pass until `now`.
    fn pass_time(&mut self, now: u128) {
        while self.mail.next_sweep() <= now {
            assert!(self.happens(MailEvent::SweepDue).is_none());
        }
    }

    /// What lies in a drop box, if anything does.
    fn take(&mut self, drop_box: usize) -> Option<Result<Kind, IpcRpcError>> {
        let at = self.delivered.iter().position(|d| d.0 == drop_box)?;
        Some(self.delivered.remove(at).1)
    }
}

/// A server and a client that have opened a connection and validated their schemas.
struct Pair {
    server: IpcRpcServer<IpcProtocolMessage>,
    client: IpcRpcClient<IpcProtocolMessage>,
    server_end: End,
    client_end: End,
}

/// Takes the steps of one end towards the other one, with the answers coming back.
fn take_steps(
    asking: &mut End,
    asked: &mut End,
    steps: Vec<SendStep<IpcProtocolMessage, Peer, DropBox>>,
) {
    for step in steps {
        match step {
            SendStep::Register(entry) => {
                assert!(asking.happens(MailEvent::Register(entry)).is_none());
            }
            SendStep::Transmit(message) => {
                if let Some(answer) = asked.happens(MailEvent::Received(message)) {
                    assert!(asking.happens(MailEvent::Received(answer)).is_none());
                }
            }
        }
    }
}

/// Sends a request of one end to the other one and the answer back, and returns the number of the
/// drop box where the reply is awaited.
fn ask(asking: &mut End, asked: &mut End, request: Request) -> usize {
    let drop_box = asking.next_drop_box;
    asking.next_drop_box += 1;
    take_steps(asking, asked, request.steps((drop_box, None)));
    drop_box
}

/// A server and a client with these schemas that have opened a connection, with the messages that
/// the server was to send before.
fn open(
    handlers: (Handler, Handler),
    schemas: (String, String),
    queued: Vec<Message>,
    now: u128,
) -> Pair {
    let (key, mut server) =
        IpcRpcServer::initialize_server(SERVER_NAME, Some("tester"), Some(schemas.0.clone()))
            .unwrap();
    assert_eq!(key.to_string(), SERVER_NAME);
    assert!(!server.client_connected());
    assert!(server.wait_for_client_to_connect().is_none());
    let (mut client, mut client_opening) = IpcRpcClient::initialize_client(
        "to the client",
        Some("tester"),
        Some(schemas.1.clone()),
        (0, None),
        now,
    );
    let init = match client_opening.remove(0) {
        SendStep::Transmit(message) => message,
        other => panic!("unexpected step {:?}", other),
    };
    let opening = match server.startup(Ok(init), queued, (0, None), now) {
        Startup::Serve { peer, opening } => {
            assert_eq!(peer, "to the client");
            opening
        }
        Startup::Refused => panic!("the client was refused"),
    };
    assert!(server.client_connected());
    assert!(matches!(server.wait_for_client_to_connect(), Some(Ok(()))));
    let mut server_end = End::new(handlers.0, now, Some(schemas.0));
    let mut client_end = End::new(handlers.1, now, Some(schemas.1));
    server_end.next_drop_box = 1;
    client_end.next_drop_box = 1;
    assert!(server.schema_validated().is_none());
    assert!(client.schema_validated().is_none());
    take_steps(&mut server_end, &mut client_end, opening);
    server.conclude_validation(reply_outcome(server_end.take(0)));
    take_steps(&mut client_end, &mut server_end, client_opening);
    client.conclude_validation(reply_outcome(client_end.take(0)));
    Pair {
        server,
        client,
        server_end,
        client_end,
    }
}

fn connect(server_handler: Handler, client_handler: Handler, now: u128) -> Pair {
    let pair = open(
        (server_handler, client_handler),
        (schema_text(), schema_text()),
        Vec::new(),
        now,
    );
    pair.server.schema_validated().unwrap().unwrap().assert_success();
    pair.client.schema_validated().unwrap().unwrap().assert_success();
    pair
}

fn answering(kind: IpcProtocolMessageKind) -> Handler {
    Box::new(move |message: IpcProtocolMessage| match message.kind {
        IpcProtocolMessageKind::TestMessage => Some(IpcProtocolMessage { kind: kind.clone() }),
        _ => None,
    })
}

fn silent() -> Handler {
    Box::new(|_| None)
}

#[test]
fn basic_dialogue() {
    let mut pair = connect(
        answering(IpcProtocolMessageKind::ServerTestReply),
        answering(IpcProtocolMessageKind::ClientTestReply),
        0,
    );
    let awaited = ask(
        &mut pair.server_end,
        &mut pair.client_end,
        pair.server.send(test_message(), 0),
    );
    let client_reply = open_user_reply(reply_outcome(pair.server_end.take(awaited)));
    assert!(matches!(
        client_reply.as_ref().map(|r| &r.kind),
        Ok(IpcProtocolMessageKind::ClientTestReply)
    ));
    let awaited = ask(
        &mut pair.client_end,
        &mut pair.server_end,
        pair.client.send(test_message(), 0),
    );
    let server_reply = open_user_reply(reply_outcome(pair.client_end.take(awaited)));
    assert!(matches!(
        server_reply.as_ref().map(|r| &r.kind),
        Ok(IpcProtocolMessageKind::ServerTestReply)
    ));
}

#[test]
fn send_without_await() {
    let server_success = Arc::new(std::sync::Mutex::new(0));
    let client_success = Arc::new(std::sync::Mutex::new(0));
    let count = |counter: &Arc<std::sync::Mutex<u32>>| -> Handler {
        let counter = Arc::clone(counter);
        Box::new(move |message: IpcProtocolMessage| {
            if let IpcProtocolMessageKind::TestMessage = message.kind {
                *counter.lock().unwrap() += 1;
            }
            None
        })
    };
    let mut pair = connect(count(&server_success), count(&client_success), 0);
    let to_client: Request = pair.server.send(test_message(), 0);
    assert!(pair.client_end.happens(MailEvent::Received(to_client.message)).is_none());
    let to_server: Request = pair.client.send(test_message(), 0);
    assert!(pair.server_end.happens(MailEvent::Received(to_server.message)).is_none());
    assert_eq!(*server_success.lock().unwrap(), 1);
    assert_eq!(*client_success.lock().unwrap(), 1);
}

#[test]
fn timeout_test() {
    let mut pair = connect(silent(), silent(), 0);
    let awaited = ask(
        &mut pair.server_end,
        &mut pair.client_end,
        pair.server.send(test_message(), 0),
    );
    pair.server_end.pass_time(5 * SECOND);
    assert!(pair.server_end.take(awaited).is_none());
    pair.server_end.pass_time(5 * SECOND + SECOND / 10);
    let client_reply = open_user_reply(reply_outcome(pair.server_end.take(awaited)));
    assert!(matches!(client_reply, Err(IpcRpcError::ReplyTimeout)));
    let awaited = ask(
        &mut pair.client_end,
        &mut pair.server_end,
        pair.client.send(test_message(), 0),
    );
    pair.client_end.pass_time(5 * SECOND);
    assert!(pair.client_end.take(awaited).is_none());
    pair.client_end.pass_time(5 * SECOND + SECOND / 10);
    let server_reply = open_user_reply(reply_outcome(pair.client_end.take(awaited)));
    assert!(matches!(server_reply, Err(IpcRpcError::ReplyTimeout)));
}

#[test]
fn server_disconnect_test() {
    // A resource inside a drop box shows whether the end let go of it.
    let drop_detector = Arc::new(());
    let drop_detector_clone = drop_detector.clone();
    let mut pair = connect(silent(), silent(), 0);
    let unanswered: Request = pair.server.send(test_message(), 0);
    pair.server_end
        .register(&unanswered, Some(drop_detector_clone.clone()));
    assert_eq!(Arc::strong_count(&drop_detector_clone), 3);
    assert!(pair.client.wait_for_server_to_disconnect().is_none());
    let hangup: Message = pair.server.hangup();
    pair.client_end.happens(MailEvent::Received(hangup));
    assert!(!pair.client_end.mail.is_running());
    pair.client.mail_stopped(pair.client_end.ended.take().unwrap());
    pair.client.wait_for_server_to_disconnect().unwrap().unwrap();
    pair.server_end.happens(MailEvent::HandlesGone);
    assert!(!pair.server_end.mail.is_running());
    drop(drop_detector_clone);
    assert_eq!(Arc::strong_count(&drop_detector), 1);
}

#[test]
fn client_disconnect_test() {
    let drop_detector = Arc::new(());
    let drop_detector_clone = drop_detector.clone();
    let mut pair = connect(silent(), silent(), 0);
    let unanswered: Request = pair.client.send(test_message(), 0);
    pair.client_end
        .register(&unanswered, Some(drop_detector_clone.clone()));
    assert_eq!(Arc::strong_count(&drop_detector_clone), 3);
    assert!(pair.server.wait_for_client_to_disconnect().is_none());
    let mut handles = ClientHandles::new();
    handles.cloned();
    let not_last: Option<Message> = pair.client.hangup(&mut handles);
    assert!(not_last.is_none());
    let hangup: Message = pair.client.hangup(&mut handles).unwrap();
    pair.server_end.happens(MailEvent::Received(hangup));
    assert!(!pair.server_end.mail.is_running());
    pair.server.mail_stopped(pair.server_end.ended.take().unwrap());
    pair.server.wait_for_client_to_disconnect().unwrap().unwrap();
    assert!(!pair.server.client_connected());
    pair.client_end.happens(MailEvent::ReceiveFailed(ReceiveError::Disconnected));
    assert!(!pair.client_end.mail.is_running());
    drop(drop_detector_clone);
    assert_eq!(Arc::strong_count(&drop_detector), 1);
}

#[test]
fn queued_mail_follows_the_schema_of_the_server() {
    let (_, mut server) =
        IpcRpcServer::<IpcProtocolMessage>::initialize_server(SERVER_NAME, None, Some(schema_text()))
            .unwrap();
    let first: Request = server.send(test_message(), 0);
    let second: Request = server.send(test_message(), 0);
    let uuids = (first.message.uuid, second.message.uuid);
    let init: Message = InternalMessage::new(InternalMessageKind::InitConnection("client"));
    let queued = vec![first.message, second.message];
    let opening = match server.startup(Ok(init), queued, "reply", 10) {
        Startup::Serve { peer, opening } => {
            assert_eq!(peer, "client");
            opening
        }
        Startup::Refused => panic!("the client was refused"),
    };
    assert_eq!(opening.len(), 4);
    match (&opening[0], &opening[1]) {
        (SendStep::Register(entry), SendStep::Transmit(check)) => {
            assert_eq!(entry.uuid, check.uuid);
            assert_eq!(entry.reply.drop_box, "reply");
            assert_eq!(entry.reply.deadline, 5 * SECOND + 10);
            match &check.kind {
                InternalMessageKind::UserMessageSchema(text) => assert_eq!(*text, schema_text()),
                other => panic!("unexpected message {:?}", other),
            }
        }
        other => panic!("unexpected steps {:?}", other),
    }
    match (&opening[2], &opening[3]) {
        (SendStep::Transmit(a), SendStep::Transmit(b)) => assert_eq!((a.uuid, b.uuid), uuids),
        other => panic!("unexpected steps {:?}", other),
    }
}

#[test]
fn rpc_call_macro_test() {
    let mut pair = connect(
        Box::new(|_| {
            Some(IpcProtocolMessage {
                kind: IpcProtocolMessageKind::ServerTestReply,
            })
        }),
        Box::new(|_| {
            Some(IpcProtocolMessage {
                kind: IpcProtocolMessageKind::ClientTestReply,
            })
        }),
        0,
    );
    let awaited = ask(
        &mut pair.server_end,
        &mut pair.client_end,
        pair.server.send(test_message(), 0),
    );
    let reply = reply_outcome(pair.server_end.take(awaited));
    assert!(is_user_reply(&reply));
    assert_eq!(
        open_user_reply(reply).unwrap(),
        IpcProtocolMessage {
            kind: IpcProtocolMessageKind::ClientTestReply
        }
    );
    let awaited = ask(
        &mut pair.client_end,
        &mut pair.server_end,
        pair.client.send(test_message(), 0),
    );
    let reply = reply_outcome(pair.client_end.take(awaited));
    assert!(is_user_reply(&reply));
    assert_eq!(
        open_user_reply(reply).unwrap(),
        IpcProtocolMessage {
            kind: IpcProtocolMessageKind::ServerTestReply
        }
    );
}

#[test]
fn replies_find_their_callers_in_any_order() {
    let mut pair = connect(
        silent(),
        answering(IpcProtocolMessageKind::ClientTestReply),
        0,
    );
    let first: Request = pair.server.send(test_message(), 0);
    let second: Request = pair.server.send_timeout(test_message(), 2 * SECOND, 0);
    assert_ne!(first.message.uuid, second.message.uuid);
    let first_box = pair.server_end.register(&first, None);
    let second_box = pair.server_end.register(&second, None);
    let second_uuid = second.message.uuid;
    let answer = pair
        .client_end
        .happens(MailEvent::Received(second.message))
        .unwrap();
    assert_eq!(answer.uuid, second_uuid);
    pair.server_end.happens(MailEvent::Received(answer));
    assert!(pair.server_end.take(first_box).is_none());
    assert!(matches!(pair.server_end.take(second_box), Some(Ok(_))));
    // the second one was answered, so its deadline passes unnoticed
    pair.server_end.pass_time(3 * SECOND);
    assert!(pair.server_end.delivered.is_empty());
    let answer = pair
        .client_end
        .happens(MailEvent::Received(first.message))
        .unwrap();
    pair.server_end.happens(MailEvent::Received(answer.clone()));
    assert!(matches!(pair.server_end.take(first_box), Some(Ok(_))));
    // nobody awaits a second copy of the answer: it is a message like any other
    pair.server_end.happens(MailEvent::Received(answer));
    assert!(pair.server_end.delivered.is_empty());
}

#[test]
fn callers_whose_drop_box_is_gone_learn_that_the_connection_was_dropped() {
    let reply: Result<Kind, IpcRpcError> = reply_outcome(None);
    assert!(is_user_reply(&reply));
    assert!(matches!(
        open_user_reply(reply),
        Err(IpcRpcError::ConnectionDropped)
    ));
}

#[test]
fn a_message_that_answers_no_user_message_is_told_apart() {
    let reply: Result<Kind, IpcRpcError> = Ok(InternalMessageKind::UserMessageSchemaOk);
    assert!(!is_user_reply(&reply));
}

#[test]
fn different_schemas_are_noticed_on_both_sides() {
    let ours = schema_text();
    let theirs = serde_json::to_string(
        &schemars::SchemaGenerator::default().into_root_schema_for::<Vec<bool>>(),
    )
    .unwrap();
    let pair = open(
        (silent(), silent()),
        (ours.clone(), theirs.clone()),
        Vec::new(),
        0,
    );
    let (server, client) = (pair.server, pair.client);
    let seen_by_server = server.schema_validated().unwrap().unwrap();
    assert!(!seen_by_server.is_success());
    match seen_by_server {
        ipc_rpc::SchemaValidationStatus::SchemaMismatch {
            our_schema,
            their_schema,
        } => {
            assert_eq!(our_schema, ours);
            assert_eq!(their_schema, theirs);
        }
        other => panic!("unexpected status {:?}", other),
    }
    match client.schema_validated().unwrap().unwrap() {
        ipc_rpc::SchemaValidationStatus::SchemaMismatch {
            our_schema,
            their_schema,
        } => {
            assert_eq!(our_schema, theirs);
            assert_eq!(their_schema, ours);
        }
        other => panic!("unexpected status {:?}", other),
    }
    // the connection goes on all the same
    assert!(server.client_connected());
    assert!(pair.server_end.mail.is_running());
    assert!(pair.client_end.mail.is_running());
}

#[test]
fn only_a_message_that_opens_a_connection_starts_a_server() {
    let (_, mut server) =
        IpcRpcServer::<IpcProtocolMessage>::initialize_server(SERVER_NAME, None, Some(schema_text()))
            .unwrap();
    let wrong: Message = InternalMessage::new(InternalMessageKind::UserMessage(test_message()));
    assert!(matches!(server.startup(Ok(wrong), Vec::new(), (), 0), Startup::Refused));
    assert!(!server.client_connected());
    assert!(matches!(
        server.wait_for_client_to_connect(),
        Some(Err(IpcRpcError::HandshakeFailure))
    ));
    assert!(matches!(
        server.wait_for_client_to_disconnect(),
        Some(Err(IpcRpcError::HandshakeFailure))
    ));
    assert!(matches!(
        server.schema_validated(),
        Some(Err(IpcRpcError::ConnectionDropped))
    ));
    // the end of the session is final
    server.mail_stopped(ConnectionStatus::DisconnectedCleanly);
    server.status_sender_gone();
    assert!(matches!(
        server.wait_for_client_to_disconnect(),
        Some(Err(IpcRpcError::HandshakeFailure))
    ));
}

#[test]
fn a_channel_that_fails_ends_a_server_before_it_began() {
    let (_, mut server) =
        IpcRpcServer::<IpcProtocolMessage>::initialize_server(SERVER_NAME, None, None).unwrap();
    let e: ipc_channel::Error = Box::new(ipc_channel::ErrorKind::Io(std::io::Error::from(
        std::io::ErrorKind::NotFound,
    )));
    let first: Result<Message, ipc_channel::Error> = Err(e);
    assert!(matches!(server.startup(first, Vec::new(), (), 0), Startup::Refused));
    assert!(matches!(
        server.wait_for_client_to_connect(),
        Some(Err(IpcRpcError::IpcChannelError(_)))
    ));
}

#[test]
fn a_status_is_not_one_of_waiting_once_a_server_has_started() {
    let pair = connect(silent(), silent(), 0);
    let mut server = pair.server.clone();
    server.status_sender_gone();
    assert!(matches!(server.wait_for_client_to_connect(), Some(Ok(()))));
    assert!(matches!(
        server.wait_for_client_to_disconnect(),
        Some(Err(IpcRpcError::ConnectionDropped))
    ));
    assert!(matches!(
        ConnectionStatus::WaitingForClient.session_end_result(),
        None
    ));
}

#[test]
fn too_many_receive_errors_end_both_ends_with_an_error() {
    let mut pair = connect(silent(), silent(), 0);
    for _ in 0..21 {
        pair.client_end.happens(MailEvent::ReceiveFailed(ReceiveError::Other(
            IpcRpcError::from(std::io::Error::from(std::io::ErrorKind::BrokenPipe)),
        )));
        pair.server_end.happens(MailEvent::ReceiveFailed(ReceiveError::Other(
            IpcRpcError::from(std::io::Error::from(std::io::ErrorKind::BrokenPipe)),
        )));
    }
    assert!(!pair.client_end.mail.is_running());
    assert!(!pair.server_end.mail.is_running());
    pair.client.mail_stopped(pair.client_end.ended.take().unwrap());
    pair.server.mail_stopped(pair.server_end.ended.take().unwrap());
    assert!(matches!(
        pair.client.wait_for_server_to_disconnect(),
        Some(Err(IpcRpcError::IoError(_)))
    ));
    assert!(matches!(
        pair.server.wait_for_client_to_disconnect(),
        Some(Err(IpcRpcError::IoError(_)))
    ));
}
