//! How a server starts its client.
use ipc_rpc::environment::Environment;
use ipc_rpc::server::ClientExit;
use ipc_rpc::IpcRpc;
use ipc_rpc::IpcRpcBuilder;
use ipc_rpc::IpcRpcServer;
use ipc_rpc::OutgoingRequest;
use ipc_rpc::InternalMessageKind;

fn bytes(text: &str) -> Vec<u8> {
    text.as_bytes().to_vec()
}

fn pair(name: &str, value: &str) -> (Vec<u8>, Vec<u8>) {
    (bytes(name), bytes(value))
}

fn sorted(mut variables: Vec<(Vec<u8>, Vec<u8>)>) -> Vec<(Vec<u8>, Vec<u8>)> {
    variables.sort();
    variables
}

#[test]
fn nothing_is_set_at_first() {
    for builder in vec![IpcRpc::<u8>::build(), IpcRpcBuilder::default()] {
        let launch = builder.finish(bytes("client"));
        assert_eq!(launch.path_to_exe, bytes("client"));
        assert!(launch.env_vars.is_empty());
        assert!(launch.current_dir.is_none());
    }
}

#[test]
fn variables_and_directory_are_passed_on() {
    let mut builder = IpcRpc::<u8>::build();
    builder
        .env(bytes("A"), bytes("1"))
        .envs(vec![pair("B", "2"), pair("A", "3"), pair("C", ""), pair("B", "4")])
        .current_dir(bytes("/first"))
        .current_dir(bytes("/second"));
    let copy = builder.clone();
    builder.env(bytes("C"), bytes("5"));
    let launch = builder.finish(bytes("client"));
    assert_eq!(
        sorted(launch.env_vars),
        vec![pair("A", "3"), pair("B", "4"), pair("C", "5")]
    );
    assert_eq!(launch.current_dir, Some(bytes("/second")));
    let launch = copy.finish(bytes("other"));
    assert_eq!(launch.path_to_exe, bytes("other"));
    assert_eq!(
        sorted(launch.env_vars),
        vec![pair("A", "3"), pair("B", "4"), pair("C", "")]
    );
    assert_eq!(launch.current_dir, Some(bytes("/second")));
}

#[test]
fn assignments_can_be_made_in_one_go_or_in_two() {
    let mut together = Environment::new();
    together.set_all(vec![pair("A", "1"), pair("B", "2"), pair("A", "3")]);
    let mut apart = Environment::new();
    apart.set_all(vec![pair("A", "1")]);
    apart.set_all(vec![pair("B", "2"), pair("A", "3")]);
    assert_eq!(sorted(together.assignments()), sorted(apart.assignments()));
    assert_eq!(
        sorted(apart.clone().assignments()),
        vec![pair("A", "3"), pair("B", "2")]
    );
}

#[test]
fn names_are_told_apart_byte_by_byte() {
    let mut environment = Environment::new();
    environment.set(bytes("PATH"), bytes("1"));
    environment.set(bytes("Path"), bytes("2"));
    environment.set(bytes("PAT"), bytes("3"));
    environment.set(vec![0xff, 0xfe], vec![0]);
    assert_eq!(environment.assignments().len(), 4);
    environment.set(vec![0xff, 0xfe], vec![1]);
    assert_eq!(environment.assignments().len(), 4);
    assert!(environment.assignments().contains(&(vec![0xff, 0xfe], vec![1])));
}

#[test]
fn exits_of_a_client_process() {
    assert_eq!(
        IpcRpc::<u8>::client_exit(Some((true, Some(0)))),
        ClientExit::Success
    );
    assert_eq!(
        IpcRpc::<u8>::client_exit(Some((false, Some(3)))),
        ClientExit::Failure { code: Some(3) }
    );
    assert_eq!(
        IpcRpc::<u8>::client_exit(Some((false, None))),
        ClientExit::Failure { code: None }
    );
    assert_eq!(IpcRpc::<u8>::client_exit(None), ClientExit::StillRunning);
}

#[test]
fn a_server_with_its_client_sends_like_the_server() {
    let (_, server) = IpcRpcServer::<u8>::initialize_server(
        "67e55044-10b1-426f-9247-bb680e5fe0c8",
        None,
        Some(String::from("true")),
    )
    .unwrap();
    let both = IpcRpc { server };
    let request: OutgoingRequest<u8, ()> = both.send(1, 10);
    assert_eq!(request.deadline, 5_000_000_010);
    assert!(matches!(
        request.message.kind,
        InternalMessageKind::UserMessage(1)
    ));
    let request: OutgoingRequest<u8, ()> = both.send_timeout(2, 7, 10);
    assert_eq!(request.deadline, 17);
    assert!(matches!(
        request.message.kind,
        InternalMessageKind::UserMessage(2)
    ));
    assert!(both.schema_validated().is_none());
    assert!(!both.server.client_connected());
}
