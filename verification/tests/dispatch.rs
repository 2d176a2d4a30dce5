//! The device arbiter and the receive-loop dispatch step.

use udp_leds::client::ClientMessages;
use udp_leds::constants::{
    CLIENT_FLAG, INSTRUCTION_SEND_PIXELS, INSTRUCTION_SET_ACTIVE, INSTRUCTION_SET_PIXEL,
    PIXEL_BYTES,
};
use udp_leds::dispatch::{
    handle_datagram, handle_message, is_hello, is_set_active, DeviceArbiter,
};
use udp_leds::leds::Leds;
use udp_leds::server::ServerMessages;

#[test]
fn test_arbiter_starts_closed() {
    let arbiter = DeviceArbiter::new();
    for device in 0..64u8 {
        assert!(!arbiter.permits(device));
    }
}

#[test]
fn test_arbiter_last_writer_wins() {
    let mut arbiter = DeviceArbiter::new();
    arbiter.activate(3);
    assert!(arbiter.permits(3));
    arbiter.activate(9);
    assert!(!arbiter.permits(3));
    assert!(arbiter.permits(9));
}

#[test]
fn test_is_hello() {
    assert!(is_hello(0b1100_0000));
    assert!(is_hello(0b1100_0101));
    assert!(!is_hello(0b0100_0000));
    assert!(!is_hello(0b0000_0000));
}

#[test]
fn test_is_set_active() {
    assert!(is_set_active(0b0100_0000));
    assert!(is_set_active(0b0100_0111));
    assert!(!is_set_active(0b1100_0000));
    assert!(!is_set_active(0b1000_0000));
}

#[test]
fn test_hello_elicits_acknowledgment() {
    let mut arbiter = DeviceArbiter::new();
    let mut leds = Leds::new();
    let resp = handle_message(&ClientMessages::hello(), &mut arbiter, &mut leds);
    assert_eq!(resp, Some(ServerMessages::Hello));
    assert!(leds.snapshot().iter().all(|&b| b == 255));
}

#[test]
fn test_active_device_writes_inactive_is_dropped() {
    let mut arbiter = DeviceArbiter::new();
    let mut leds = Leds::new();
    let payload = vec![1u8; PIXEL_BYTES];

    // Before any activation nothing is admitted.
    handle_message(
        &ClientMessages::send_pixels(0, payload.clone()),
        &mut arbiter,
        &mut leds,
    );
    assert!(leds.snapshot().iter().all(|&b| b == 255));

    // After SetActive(0), a SendPixels from device 0 mutates the buffer.
    handle_message(&ClientMessages::set_active(0), &mut arbiter, &mut leds);
    handle_message(
        &ClientMessages::send_pixels(0, payload),
        &mut arbiter,
        &mut leds,
    );
    assert!(leds.snapshot().iter().all(|&b| b == 1));

    // The same message from device 1 leaves the buffer unchanged.
    let other = vec![2u8; PIXEL_BYTES];
    handle_message(
        &ClientMessages::send_pixels(1, other),
        &mut arbiter,
        &mut leds,
    );
    assert!(leds.snapshot().iter().all(|&b| b == 1));
}

#[test]
fn test_short_send_pixels_datagram_zero_fills() {
    let mut arbiter = DeviceArbiter::new();
    let mut leds = Leds::new();

    let activate = [CLIENT_FLAG, INSTRUCTION_SET_ACTIVE];
    handle_datagram(&activate[..], &mut arbiter, &mut leds);

    // Two pixels' worth of data from the active device 0.
    let datagram = [CLIENT_FLAG, INSTRUCTION_SEND_PIXELS, 10, 11, 12, 20, 21, 22];
    handle_datagram(&datagram[..], &mut arbiter, &mut leds);

    let frame = leds.snapshot();
    assert_eq!(&frame[0..6], &[10, 11, 12, 20, 21, 22]);
    // LED index 2 onward reads zero, not its prior value of 255.
    assert!(frame[6..].iter().all(|&b| b == 0));
}

#[test]
fn test_set_pixel_changes_only_one_led() {
    let mut arbiter = DeviceArbiter::new();
    let mut leds = Leds::new();

    handle_message(&ClientMessages::set_active(4), &mut arbiter, &mut leds);
    handle_message(
        &ClientMessages::set_pixel(4, 5, 10, 20, 30),
        &mut arbiter,
        &mut leds,
    );

    let frame = leds.snapshot();
    assert_eq!(&frame[15..18], &[10, 20, 30]);
    assert!(frame[..15].iter().all(|&b| b == 255));
    assert!(frame[18..].iter().all(|&b| b == 255));

    // The same patch from a non-active device is silently dropped.
    handle_message(
        &ClientMessages::set_pixel(5, 5, 1, 2, 3),
        &mut arbiter,
        &mut leds,
    );
    assert_eq!(&leds.snapshot()[15..18], &[10, 20, 30]);
}

#[test]
fn test_malformed_datagram_is_skipped() {
    let mut arbiter = DeviceArbiter::new();
    let mut leds = Leds::new();

    assert_eq!(handle_datagram(&[CLIENT_FLAG], &mut arbiter, &mut leds), None);
    let wrong_flag = [0x00, INSTRUCTION_SEND_PIXELS, 1, 2, 3];
    assert_eq!(handle_datagram(&wrong_flag[..], &mut arbiter, &mut leds), None);
    let short_patch = [CLIENT_FLAG, INSTRUCTION_SET_PIXEL, 0];
    assert_eq!(handle_datagram(&short_patch[..], &mut arbiter, &mut leds), None);
    assert!(leds.snapshot().iter().all(|&b| b == 255));
}

#[test]
fn test_hello_datagram_round_trip() {
    let mut arbiter = DeviceArbiter::new();
    let mut leds = Leds::new();

    let probe = ClientMessages::hello().encode();
    let resp = handle_datagram(&probe[..], &mut arbiter, &mut leds);
    assert_eq!(resp, Some(ServerMessages::Hello));

    let ack = ServerMessages::Hello.encode();
    assert_eq!(
        udp_leds::server::ServerMessages::decode(&ack[..]),
        Ok(ServerMessages::Hello)
    );
}
