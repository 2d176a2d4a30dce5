//! Fixed parameters of the wire protocol and of the one-wire LED signal.

use vstd::prelude::*;

verus! {

/// Greatest number of LEDs one strip may hold.
pub const MAX_LED_COUNT: usize = 256;

/// Bytes of pixel data in one full frame: one R, G and B byte per LED,
/// in LED-index order.
pub const PIXEL_BYTES: usize = MAX_LED_COUNT * 3;

/// Longest wire message: two header bytes plus a full frame of pixel data.
pub const MAX_MESSAGE_LENGTH: usize = PIXEL_BYTES + 2;

/// Pulse pairs in one transmitted frame: eight bits per pixel byte.
pub const PULSES_PER_FRAME: usize = PIXEL_BYTES * 8;

/// Well-known UDP port the server listens on.
pub const PORT: u16 = 52772;

/// Role flag (byte 0) of every server-origin message.
pub const SERVER_FLAG: u8 = 0b1110_0110;

/// Role flag (byte 0) of every client-origin message.
pub const CLIENT_FLAG: u8 = 0b0110_1011;

/// The top two bits of byte 1 carry the instruction code.
pub const INSTRUCTION_MASK: u8 = 0b1100_0000;

/// The bottom six bits of byte 1 carry the device id, so ids run 0..=63.
pub const DEVICE_MASK: u8 = 0b0011_1111;

/// Instruction code of the discovery probe and its acknowledgment.
pub const INSTRUCTION_HELLO: u8 = 0b1100_0000;

/// Instruction code that claims write access for the embedded device id.
pub const INSTRUCTION_SET_ACTIVE: u8 = 0b0100_0000;

/// Instruction code that replaces the whole pixel frame.
pub const INSTRUCTION_SEND_PIXELS: u8 = 0b0000_0000;

/// Instruction code that patches a single LED.
pub const INSTRUCTION_SET_PIXEL: u8 = 0b1000_0000;

/// Register value meaning "no device activated yet"; outside the valid
/// 0..=63 id range, so no write is admitted before the first `SetActive`.
pub const NO_ACTIVE_DEVICE: u8 = 255;

/// High time of the pulse pair that encodes a 0 bit, in nanoseconds.
pub const ZERO_HIGH_NS: u64 = 350;

/// Low time of the pulse pair that encodes a 0 bit, in nanoseconds.
pub const ZERO_LOW_NS: u64 = 800;

/// High time of the pulse pair that encodes a 1 bit, in nanoseconds.
pub const ONE_HIGH_NS: u64 = 700;

/// Low time of the pulse pair that encodes a 1 bit, in nanoseconds.
pub const ONE_LOW_NS: u64 = 600;

/// Minimum idle-low gap preceding a new frame, in nanoseconds.
pub const RESET_NS: u64 = 1000000;

} // verus!
