//! Encoding and decoding of server-origin messages.

use udp_leds::constants::{INSTRUCTION_HELLO, MAX_MESSAGE_LENGTH, SERVER_FLAG};
use udp_leds::error::Error;
use udp_leds::server::ServerMessages;

#[test]
fn server_test_hello() {
    let message = ServerMessages::Hello.encode();
    assert_eq!(message.len(), 770);
    assert!(message[0] == SERVER_FLAG);
    assert!(message[1] == INSTRUCTION_HELLO);
    let parsed = ServerMessages::decode(&message[..]).unwrap();
    assert_eq!(parsed, ServerMessages::Hello);
}

#[test]
fn test_invalid_flag() {
    let mut message = ServerMessages::Hello.encode();
    message[0] = 0;
    let parsed = ServerMessages::decode(&message[..]);
    assert!(parsed.is_err());
}

#[test]
fn test_invalid_length() {
    let mut message = ServerMessages::Hello.encode();
    message[1] = 0;
    let parsed = ServerMessages::decode(&message[..]);
    assert!(parsed.is_err());
}

#[test]
fn test_server_hello_constructor() {
    assert_eq!(ServerMessages::hello(), ServerMessages::Hello);
}

#[test]
fn test_server_round_trip() {
    let encoded = ServerMessages::hello().encode();
    assert_eq!(
        ServerMessages::decode(&encoded[..]),
        Ok(ServerMessages::Hello)
    );
}

#[test]
fn test_server_too_long_rejected() {
    let mut message = vec![0u8; MAX_MESSAGE_LENGTH + 1];
    message[0] = SERVER_FLAG;
    message[1] = INSTRUCTION_HELLO;
    let parsed = ServerMessages::decode(&message[..]);
    assert_eq!(parsed, Err(Error::InvalidMessageLength));
}

#[test]
fn test_server_length_one_rejected() {
    let message = [SERVER_FLAG];
    let parsed = ServerMessages::decode(&message[..]);
    assert_eq!(parsed, Err(Error::InvalidMessageLength));
}
