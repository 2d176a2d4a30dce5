//! Encoding and decoding of client-origin messages.

use udp_leds::client::ClientMessages;
use udp_leds::constants::{
    CLIENT_FLAG, INSTRUCTION_HELLO, INSTRUCTION_SEND_PIXELS, INSTRUCTION_SET_ACTIVE,
    INSTRUCTION_SET_PIXEL, MAX_MESSAGE_LENGTH, PIXEL_BYTES,
};
use udp_leds::error::Error;

#[test]
fn client_test_hello() {
    let message = ClientMessages::Hello;
    let bytes = message.encode();
    assert_eq!(bytes[0], CLIENT_FLAG);
    assert_eq!(bytes[1], INSTRUCTION_HELLO);
}

#[test]
fn test_set_active() {
    let message = ClientMessages::SetActive(1);
    let bytes = message.encode();
    assert_eq!(bytes[0], CLIENT_FLAG);
    assert_eq!(bytes[1], INSTRUCTION_SET_ACTIVE | 1);
}

#[test]
fn test_send_pixels() {
    let mut pixels = vec![0u8; PIXEL_BYTES];
    pixels[0..12].copy_from_slice(&[1, 2, 3, 4, 5, 6, 7, 8, 9, 10, 11, 12]);
    let message = ClientMessages::SendPixels(0, pixels);
    let bytes = message.encode();
    assert_eq!(bytes[0], CLIENT_FLAG);
    assert_eq!(bytes[1], INSTRUCTION_SEND_PIXELS);
    assert_eq!(bytes[2], 1);
    assert_eq!(bytes[3], 2);
    assert_eq!(bytes[4], 3);
    assert_eq!(bytes[5], 4);
    assert_eq!(bytes[6], 5);
    assert_eq!(bytes[7], 6);
    assert_eq!(bytes[8], 7);
    assert_eq!(bytes[9], 8);
    assert_eq!(bytes[10], 9);
    assert_eq!(bytes[11], 10);
    assert_eq!(bytes[12], 11);
    assert_eq!(bytes[13], 12);
}

#[test]
fn test_set_pixel() {
    let message = ClientMessages::SetPixel(1, 2, 3, 4, 5);
    let bytes = message.encode();
    assert_eq!(bytes[0], CLIENT_FLAG);
    assert_eq!(bytes[1], INSTRUCTION_SET_PIXEL | 1);
    assert_eq!(bytes[2], 2);
    assert_eq!(bytes[3], 3);
    assert_eq!(bytes[4], 4);
    assert_eq!(bytes[5], 5);
}

#[test]
fn test_try_from_hello() {
    let bytes = [CLIENT_FLAG, INSTRUCTION_HELLO];
    let message = ClientMessages::decode(&bytes[..]).unwrap();
    assert_eq!(message, ClientMessages::Hello);
}

#[test]
fn test_try_from_set_active() {
    let bytes = [CLIENT_FLAG, INSTRUCTION_SET_ACTIVE | 1];
    let message = ClientMessages::decode(&bytes[..]).unwrap();
    assert_eq!(message, ClientMessages::SetActive(1));
}

#[test]
fn test_try_from_send_pixels() {
    let bytes = [
        CLIENT_FLAG,
        INSTRUCTION_SEND_PIXELS,
        1,
        2,
        3,
        4,
        5,
        6,
        7,
        8,
        9,
        10,
        11,
        12,
    ];
    let message = ClientMessages::decode(&bytes[..]).unwrap();

    let mut pixels = vec![0u8; PIXEL_BYTES];
    pixels[0..12].copy_from_slice(&[1, 2, 3, 4, 5, 6, 7, 8, 9, 10, 11, 12]);
    assert_eq!(message, ClientMessages::SendPixels(0, pixels));
}

#[test]
fn test_try_from_set_pixel() {
    let bytes = [CLIENT_FLAG, INSTRUCTION_SET_PIXEL | 1, 0, 2, 3, 4];

    let message = ClientMessages::decode(&bytes[..]).unwrap();
    assert_eq!(message, ClientMessages::SetPixel(1, 0, 2, 3, 4));
}

#[test]
fn test_try_from_invalid_flag() {
    let bytes = [0x00, INSTRUCTION_HELLO];
    let message = ClientMessages::decode(&bytes[..]);
    assert_eq!(message, Err(Error::InvalidFlag));
}

#[test]
fn test_try_from_invalid_message_length() {
    let bytes = [CLIENT_FLAG];
    let message = ClientMessages::decode(&bytes[..]);
    assert_eq!(message, Err(Error::InvalidMessageLength));
}

#[test]
fn test_try_from_invalid_message_length_2() {
    let mut bytes = vec![0u8; MAX_MESSAGE_LENGTH + 1];
    bytes[0] = CLIENT_FLAG;
    bytes[1] = INSTRUCTION_SET_ACTIVE | 1;
    let message = ClientMessages::decode(&bytes[..]);
    assert_eq!(message, Err(Error::InvalidMessageLength));
}
