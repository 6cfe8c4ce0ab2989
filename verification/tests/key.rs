//! Connection keys and their text.
use ipc_rpc::ConnectionKey;
use ipc_rpc::IpcRpcServer;
use std::str::FromStr;

const NUMBER: u128 = 0x67e55044_10b1_426f_9247_bb680e5fe0c8;
const TEXT: &str = "67e55044-10b1-426f-9247-bb680e5fe0c8";

fn read(text: &str) -> Option<u128> {
    ConnectionKey::from_str(text).ok().map(u128::from)
}

#[test]
fn a_key_is_written_in_hyphenated_form() {
    assert_eq!(ConnectionKey::from(NUMBER).to_string(), TEXT);
    assert_eq!(String::from(ConnectionKey::from(NUMBER)), TEXT);
    assert_eq!(
        ConnectionKey::from(0).to_string(),
        "00000000-0000-0000-0000-000000000000"
    );
    assert_eq!(
        ConnectionKey::from(u128::MAX).to_string(),
        "ffffffff-ffff-ffff-ffff-ffffffffffff"
    );
    assert_eq!(
        ConnectionKey::from(0x0123456789abcdef0123456789abcdef).to_string(),
        "01234567-89ab-cdef-0123-456789abcdef"
    );
}

#[test]
fn a_key_is_read_from_each_of_its_forms() {
    for text in vec![
        TEXT,
        "67E55044-10B1-426F-9247-BB680E5FE0C8",
        "67e5504410b1426f9247bb680e5fe0c8",
        "67E5504410b1426f9247bb680e5fe0C8",
        "{67e55044-10b1-426f-9247-bb680e5fe0c8}",
        "urn:uuid:67e55044-10b1-426f-9247-bb680e5fe0c8",
        "urn:uuid:67e55044-10b1-426f-9247-BB680E5FE0C8",
        "URN:UUID:67e55044-10b1-426f-9247-bb680e5fe0c8",
    ] {
        assert_eq!(read(text), Some(NUMBER), "{}", text);
        let key = ConnectionKey::try_from(String::from(text)).unwrap();
        assert_eq!(u128::from(key.clone()), NUMBER);
        assert_eq!(key.to_string(), TEXT);
    }
}

#[test]
fn other_texts_are_no_keys() {
    for text in vec![
        "",
        "a",
        "67e55044-10b1-426f-9247-bb680e5fe0c",
        "67e55044-10b1-426f-9247-bb680e5fe0c88",
        "67e55044-10b1-426f-9247-bb680e5fe0cg",
        "67e5504410b1-426f-9247-bb680e5fe0c8-",
        "67e5504410b1426f9247bb680e5fe0c",
        "{67e5504410b1426f9247bb680e5fe0c8}",
        "{67e55044-10b1-426f-9247-bb680e5fe0c8",
        "urn:uuid:67e5504410b1426f9247bb680e5fe0c8",
        "uuid:67e55044-10b1-426f-9247-bb680e5fe0c8",
        " 67e55044-10b1-426f-9247-bb680e5fe0c8",
        "\u{ff16}7e55044-10b1-426f-9247-bb680e5fe0c8",
        "67e55044-10b1-426f-9247-bb680e5fe0\u{e9}",
        "{\u{e9}e55044-10b1-426f-9247-bb680e5fe0c8}",
        "urn:uuid:67e55044-10b1-426f-9247-bb680e5fe0\u{e9}",
    ] {
        assert_eq!(read(text), None, "{}", text);
        // however it is read, the error is the same
        assert_eq!(
            ConnectionKey::try_from(String::from(text)).unwrap_err(),
            ConnectionKey::from_str(text).unwrap_err()
        );
    }
}

#[test]
fn a_key_survives_being_written_and_read() {
    for number in vec![0, 1, NUMBER, u128::MAX, u128::MAX / 3] {
        assert_eq!(read(&ConnectionKey::from(number).to_string()), Some(number));
    }
}

#[test]
fn a_server_gets_the_key_that_its_name_denotes() {
    let (key, server) = IpcRpcServer::<u8>::initialize_server(TEXT, Some("serve"), None).unwrap();
    assert_eq!(key.to_string(), TEXT);
    assert_eq!(server.log_prefix(), "serve as Server: ");
    assert!(server.our_schema().is_none());
    assert!(IpcRpcServer::<u8>::initialize_server("/tmp/socket", None, None).is_err());
}
