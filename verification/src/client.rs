//! Client-origin wire messages and their codec.
//!
//! Every message is a byte buffer: byte 0 carries the client role flag, the
//! top two bits of byte 1 carry the instruction, its bottom six bits carry
//! the device id (ignored for `Hello`), and the payload follows. The four
//! instruction codes fill the whole two-bit space, so decoding needs no
//! "unknown instruction" path.

use vstd::prelude::*;

use crate::constants::{
    CLIENT_FLAG, DEVICE_MASK, INSTRUCTION_HELLO, INSTRUCTION_MASK, INSTRUCTION_SEND_PIXELS,
    INSTRUCTION_SET_ACTIVE, INSTRUCTION_SET_PIXEL, MAX_MESSAGE_LENGTH, PIXEL_BYTES,
};
use crate::error::Error;
use crate::leds::spec_fill_frame;
use crate::server::ServerMessages;

verus! {

/// Mathematical model of a client message: the pixel payload as a plain
/// sequence of bytes.
pub enum ClientMessageView {
    /// Discovery probe, broadcast to find the server; no payload.
    Hello,
    /// Claim write access for this device id.
    SetActive(u8),
    /// Replace the whole pixel frame: device id, then one full frame of
    /// `MAX_LED_COUNT * 3` bytes.
    SendPixels(u8, Seq<u8>),
    /// Patch one LED: device id, LED index, then R, G, B.
    SetPixel(u8, u8, u8, u8, u8),
}

impl ClientMessageView {
    /// A constructible message: device ids fit in six bits, and a pixel
    /// payload is exactly one full frame.
    pub open spec fn wf(self) -> bool {
        match self {
            ClientMessageView::Hello => true,
            ClientMessageView::SetActive(device) => device < 64,
            ClientMessageView::SendPixels(device, pixels) => device < 64 && pixels.len()
                == PIXEL_BYTES,
            ClientMessageView::SetPixel(device, _, _, _, _) => device < 64,
        }
    }
}

/// The messages a client can send to the server.
#[derive(Debug, Clone)]
pub enum ClientMessages {
    /// Discovery probe, broadcast to find the server.
    Hello,
    /// Claim write access for this device id; last writer wins.
    SetActive(u8),
    /// Replace the whole pixel frame: device id and one full frame of bytes.
    SendPixels(u8, Vec<u8>),
    /// Patch one LED: device id, LED index, then R, G, B.
    SetPixel(u8, u8, u8, u8, u8),
}

impl View for ClientMessages {
    type V = ClientMessageView;

    open spec fn view(&self) -> ClientMessageView {
        match self {
            ClientMessages::Hello => ClientMessageView::Hello,
            ClientMessages::SetActive(device) => ClientMessageView::SetActive(*device),
            ClientMessages::SendPixels(device, pixels) => ClientMessageView::SendPixels(
                *device,
                pixels@,
            ),
            ClientMessages::SetPixel(device, pixel, r, g, b) => ClientMessageView::SetPixel(
                *device,
                *pixel,
                *r,
                *g,
                *b,
            ),
        }
    }
}

/// A run of `n` zero bytes, the padding of every encoded message.
pub open spec fn spec_zeros(n: int) -> Seq<u8> {
    Seq::new(n as nat, |i: int| 0u8)
}

/// The exact maximum-size buffer that encodes `m`: role flag, instruction
/// byte with the device id in its low six bits, the payload, and zero padding
/// up to `MAX_MESSAGE_LENGTH`.
pub open spec fn spec_encode(m: ClientMessageView) -> Seq<u8> {
    match m {
        ClientMessageView::Hello => seq![CLIENT_FLAG, INSTRUCTION_HELLO] + spec_zeros(
            MAX_MESSAGE_LENGTH - 2,
        ),
        ClientMessageView::SetActive(device) => seq![
            CLIENT_FLAG,
            INSTRUCTION_SET_ACTIVE | device,
        ] + spec_zeros(MAX_MESSAGE_LENGTH - 2),
        ClientMessageView::SendPixels(device, pixels) => seq![
            CLIENT_FLAG,
            INSTRUCTION_SEND_PIXELS | device,
        ] + spec_fill_frame(pixels),
        ClientMessageView::SetPixel(device, pixel, r, g, b) => seq![
            CLIENT_FLAG,
            INSTRUCTION_SET_PIXEL | device,
            pixel,
            r,
            g,
            b,
        ] + spec_zeros(MAX_MESSAGE_LENGTH - 6),
    }
}

/// What decoding a client-origin buffer yields, for every possible buffer.
///
/// A buffer shorter than the two header bytes or longer than the maximum
/// message is rejected outright; so is one whose role flag is not the client
/// flag. `Hello` and `SetActive` ignore any payload. `SendPixels` always
/// replaces the entire frame: a short payload zero-fills every byte beyond
/// the received count. `SetPixel` needs exactly four payload bytes and is
/// rejected as too short otherwise.
pub open spec fn spec_decode(bytes: Seq<u8>) -> Result<ClientMessageView, Error> {
    if bytes.len() < 2 || bytes.len() > MAX_MESSAGE_LENGTH {
        Err(Error::InvalidMessageLength)
    } else if bytes[0] != CLIENT_FLAG {
        Err(Error::InvalidFlag)
    } else if bytes[1] & INSTRUCTION_MASK == INSTRUCTION_HELLO {
        Ok(ClientMessageView::Hello)
    } else if bytes[1] & INSTRUCTION_MASK == INSTRUCTION_SET_ACTIVE {
        Ok(ClientMessageView::SetActive(bytes[1] & DEVICE_MASK))
    } else if bytes[1] & INSTRUCTION_MASK == INSTRUCTION_SEND_PIXELS {
        Ok(ClientMessageView::SendPixels(bytes[1] & DEVICE_MASK, spec_fill_frame(bytes.skip(2))))
    } else if bytes.len() < 6 {
        Err(Error::InvalidMessageLength)
    } else {
        Ok(ClientMessageView::SetPixel(bytes[1] & DEVICE_MASK, bytes[2], bytes[3], bytes[4], bytes[5]))
    }
}

impl ClientMessages {
    /// Creates a new hello (discovery) message.
    pub fn hello() -> (m: Self)
        ensures
            m@ == ClientMessageView::Hello,
    {
        ClientMessages::Hello
    }

    /// Creates a new set-active message claiming write access for `device`.
    pub fn set_active(device: u8) -> (m: Self)
        requires
            device < 64,
        ensures
            m@ == ClientMessageView::SetActive(device),
    {
        ClientMessages::SetActive(device)
    }

    /// Creates a new send-pixels message carrying one full frame.
    pub fn send_pixels(device: u8, pixels: Vec<u8>) -> (m: Self)
        requires
            device < 64,
            pixels@.len() == PIXEL_BYTES,
        ensures
            m@ == ClientMessageView::SendPixels(device, pixels@),
    {
        ClientMessages::SendPixels(device, pixels)
    }

    /// Creates a new set-pixel message patching one LED.
    pub fn set_pixel(device: u8, pixel: u8, r: u8, g: u8, b: u8) -> (m: Self)
        requires
            device < 64,
        ensures
            m@ == ClientMessageView::SetPixel(device, pixel, r, g, b),
    {
        ClientMessages::SetPixel(device, pixel, r, g, b)
    }

    /// Whether the sender should wait for a reply: only `Hello` is answered.
    pub fn expect_response(&self) -> (r: bool)
        ensures
            r == (self@ is Hello),
    {
        match self {
            ClientMessages::Hello => true,
            ClientMessages::SetActive(_) => false,
            ClientMessages::SendPixels(_, _) => false,
            ClientMessages::SetPixel(_, _, _, _, _) => false,
        }
    }

    /// The reply this message elicits from the server: the discovery
    /// acknowledgment for `Hello`, nothing for anything else.
    pub fn response(&self) -> (r: Option<ServerMessages>)
        ensures
            self@ is Hello ==> r == Some(ServerMessages::Hello),
            !(self@ is Hello) ==> r is None,
    {
        match self {
            ClientMessages::Hello => Some(ServerMessages::Hello),
            ClientMessages::SetActive(_) => None,
            ClientMessages::SendPixels(_, _) => None,
            ClientMessages::SetPixel(_, _, _, _, _) => None,
        }
    }

    /// Encodes this message into the fixed maximum-size wire buffer, with
    /// every unused trailing byte zero.
    pub fn encode(&self) -> (buf: Vec<u8>)
        requires
            self@.wf(),
        ensures
            buf@ == spec_encode(self@),
            buf@.len() == MAX_MESSAGE_LENGTH,
    {
        let ghost target = spec_encode(self@);
        let mut buf: Vec<u8> = Vec::new();
        match self {
            ClientMessages::Hello => {
                buf.push(CLIENT_FLAG);
                buf.push(INSTRUCTION_HELLO);
                proof {
                    assert(buf@ =~= target.take(2));
                    assert(forall|j: int|
                        buf@.len() <= j < MAX_MESSAGE_LENGTH ==> #[trigger] target[j] == 0u8);
                }
            },
            ClientMessages::SetActive(device) => {
                buf.push(CLIENT_FLAG);
                buf.push(INSTRUCTION_SET_ACTIVE | *device);
                proof {
                    assert(buf@ =~= target.take(2));
                    assert(forall|j: int|
                        buf@.len() <= j < MAX_MESSAGE_LENGTH ==> #[trigger] target[j] == 0u8);
                }
            },
            ClientMessages::SendPixels(device, pixels) => {
                buf.push(CLIENT_FLAG);
                buf.push(INSTRUCTION_SEND_PIXELS | *device);
                proof {
                    assert(buf@ =~= target.take(2));
                }
                let mut i: usize = 0;
                while i < pixels.len()
                    invariant
                        i <= pixels@.len(),
                        pixels@.len() == PIXEL_BYTES,
                        target == seq![CLIENT_FLAG, INSTRUCTION_SEND_PIXELS | *device]
                            + spec_fill_frame(pixels@),
                        buf@ == target.take(2 + i as int),
                    decreases pixels@.len() - i,
                {
                    buf.push(pixels[i]);
                    proof {
                        assert(buf@ =~= target.take(2 + (i + 1) as int));
                    }
                    i += 1;
                }
                proof {
                    assert(forall|j: int|
                        buf@.len() <= j < MAX_MESSAGE_LENGTH ==> #[trigger] target[j] == 0u8);
                }
            },
            ClientMessages::SetPixel(device, pixel, r, g, b) => {
                buf.push(CLIENT_FLAG);
                buf.push(INSTRUCTION_SET_PIXEL | *device);
                buf.push(*pixel);
                buf.push(*r);
                buf.push(*g);
                buf.push(*b);
                proof {
                    assert(buf@ =~= target.take(6));
                    assert(forall|j: int|
                        buf@.len() <= j < MAX_MESSAGE_LENGTH ==> #[trigger] target[j] == 0u8);
                }
            },
        }
        while buf.len() < MAX_MESSAGE_LENGTH
            invariant
                buf@.len() <= MAX_MESSAGE_LENGTH,
                target.len() == MAX_MESSAGE_LENGTH,
                buf@ == target.take(buf@.len() as int),
                forall|j: int|
                    buf@.len() <= j < MAX_MESSAGE_LENGTH ==> #[trigger] target[j] == 0u8,
            decreases MAX_MESSAGE_LENGTH - buf@.len(),
        {
            buf.push(0);
            proof {
                assert(buf@ =~= target.take(buf@.len() as int));
            }
        }
        proof {
            assert(buf@ =~= target);
        }
        buf
    }

    /// Decodes a client-origin buffer, yielding exactly what [`spec_decode`]
    /// says for it: the message on success, and the error naming what was
    /// malformed otherwise.
    pub fn decode(bytes: &[u8]) -> (r: Result<ClientMessages, Error>)
        ensures
            match r {
                Ok(m) => spec_decode(bytes@) == Ok::<ClientMessageView, Error>(m@) && m@.wf(),
                Err(e) => spec_decode(bytes@) == Err::<ClientMessageView, Error>(e),
            },
    {
        let n = bytes.len();
        if n < 2 || n > MAX_MESSAGE_LENGTH {
            return Err(Error::InvalidMessageLength);
        }
        if bytes[0] != CLIENT_FLAG {
            return Err(Error::InvalidFlag);
        }
        let header = bytes[1];
        let instruction = header & INSTRUCTION_MASK;
        let device = header & DEVICE_MASK;
        proof {
            assert(header & 0b0011_1111u8 < 64) by (bit_vector);
        }
        if instruction == INSTRUCTION_HELLO {
            Ok(ClientMessages::Hello)
        } else if instruction == INSTRUCTION_SET_ACTIVE {
            Ok(ClientMessages::SetActive(device))
        } else if instruction == INSTRUCTION_SEND_PIXELS {
            let mut pixels: Vec<u8> = Vec::new();
            let mut i: usize = 0;
            while i < PIXEL_BYTES
                invariant
                    i <= PIXEL_BYTES,
                    n == bytes@.len(),
                    2 <= n <= MAX_MESSAGE_LENGTH,
                    pixels@.len() == i,
                    forall|j: int|
                        0 <= j < i ==> pixels@[j] == spec_fill_frame(bytes@.skip(2))[j],
                decreases PIXEL_BYTES - i,
            {
                if i + 2 < n {
                    pixels.push(bytes[i + 2]);
                } else {
                    pixels.push(0);
                }
                i += 1;
            }
            proof {
                assert(pixels@ =~= spec_fill_frame(bytes@.skip(2)));
            }
            Ok(ClientMessages::SendPixels(device, pixels))
        } else if n < 6 {
            Err(Error::InvalidMessageLength)
        } else {
            Ok(ClientMessages::SetPixel(device, bytes[2], bytes[3], bytes[4], bytes[5]))
        }
    }
}

/// Whether two pixel payloads hold the same bytes.
fn eq_frames(a: &Vec<u8>, b: &Vec<u8>) -> (r: bool)
    ensures
        r == (a@ == b@),
{
    if a.len() != b.len() {
        return false;
    }
    let mut i: usize = 0;
    while i < a.len()
        invariant
            i <= a@.len(),
            a@.len() == b@.len(),
            forall|j: int| 0 <= j < i ==> a@[j] == b@[j],
        decreases a@.len() - i,
    {
        if a[i] != b[i] {
            return false;
        }
        i += 1;
    }
    proof {
        assert(a@ =~= b@);
    }
    true
}

impl PartialEq for ClientMessages {
    /// Structural equality; two send-pixels messages are equal when their
    /// payloads hold the same bytes.
    fn eq(&self, other: &Self) -> (r: bool) {
        match (self, other) {
            (ClientMessages::Hello, ClientMessages::Hello) => true,
            (ClientMessages::SetActive(d1), ClientMessages::SetActive(d2)) => *d1 == *d2,
            (ClientMessages::SendPixels(d1, p1), ClientMessages::SendPixels(d2, p2)) => *d1 == *d2
                && eq_frames(p1, p2),
            (
                ClientMessages::SetPixel(d1, i1, r1, g1, b1),
                ClientMessages::SetPixel(d2, i2, r2, g2, b2),
            ) => *d1 == *d2 && *i1 == *i2 && *r1 == *r2 && *g1 == *g2 && *b1 == *b2,
            _ => false,
        }
    }
}

impl vstd::std_specs::cmp::PartialEqSpecImpl for ClientMessages {
    open spec fn obeys_eq_spec() -> bool {
        true
    }

    open spec fn eq_spec(&self, other: &Self) -> bool {
        self@ == other@
    }
}

/// Bit-level facts about an instruction byte built as `code | device`: the
/// mask operations of decoding recover the code and the device unchanged.
proof fn lemma_header_bits(code: u8, device: u8)
    by (bit_vector)
    requires
        device < 64,
        code & 0b0011_1111u8 == 0,
    ensures
        (code | device) & 0b1100_0000u8 == code & 0b1100_0000u8,
        (code | device) & 0b0011_1111u8 == device,
{
}

/// The four instruction codes have empty low six bits and survive the
/// instruction mask unchanged.
proof fn lemma_instruction_codes()
    by (bit_vector)
    ensures
        0b1100_0000u8 & 0b0011_1111u8 == 0,
        0b0100_0000u8 & 0b0011_1111u8 == 0,
        0b0000_0000u8 & 0b0011_1111u8 == 0,
        0b1000_0000u8 & 0b0011_1111u8 == 0,
        0b1100_0000u8 & 0b1100_0000u8 == 0b1100_0000u8,
        0b0100_0000u8 & 0b1100_0000u8 == 0b0100_0000u8,
        0b0000_0000u8 & 0b1100_0000u8 == 0b0000_0000u8,
        0b1000_0000u8 & 0b1100_0000u8 == 0b1000_0000u8,
{
}

/// Law: decoding an encoded message yields the message back, for every
/// constructible client message.
pub proof fn lemma_round_trip(m: ClientMessageView)
    requires
        m.wf(),
    ensures
        spec_decode(spec_encode(m)) == Ok::<ClientMessageView, Error>(m),
{
    let e = spec_encode(m);
    lemma_instruction_codes();
    match m {
        ClientMessageView::Hello => {
            lemma_header_bits(INSTRUCTION_HELLO, 0);
            assert(e.len() == MAX_MESSAGE_LENGTH);
        },
        ClientMessageView::SetActive(device) => {
            lemma_header_bits(INSTRUCTION_SET_ACTIVE, device);
            assert(e.len() == MAX_MESSAGE_LENGTH);
        },
        ClientMessageView::SendPixels(device, pixels) => {
            lemma_header_bits(INSTRUCTION_SEND_PIXELS, device);
            assert(e.len() == MAX_MESSAGE_LENGTH);
            assert(e.skip(2) =~= pixels);
            assert(spec_fill_frame(pixels) =~= pixels);
        },
        ClientMessageView::SetPixel(device, pixel, r, g, b) => {
            lemma_header_bits(INSTRUCTION_SET_PIXEL, device);
            assert(e.len() == MAX_MESSAGE_LENGTH);
        },
    }
}

/// Law: a buffer of length 1 is rejected as too short, whatever its one byte
/// holds.
pub proof fn lemma_length_one_rejected(bytes: Seq<u8>)
    requires
        bytes.len() == 1,
    ensures
        spec_decode(bytes) == Err::<ClientMessageView, Error>(Error::InvalidMessageLength),
{
}

/// Law: a buffer of acceptable length whose role flag is not the client flag
/// is rejected, whatever its instruction bits hold.
pub proof fn lemma_wrong_flag_rejected(bytes: Seq<u8>)
    requires
        2 <= bytes.len() <= MAX_MESSAGE_LENGTH,
        bytes[0] != CLIENT_FLAG,
    ensures
        spec_decode(bytes) == Err::<ClientMessageView, Error>(Error::InvalidFlag),
{
}

/// Law: a `SendPixels` decode zero-fills every pixel byte beyond the supplied
/// count; a short payload turns all unmentioned LEDs off rather than keeping
/// their prior values.
pub proof fn lemma_short_payload_zero_fills(bytes: Seq<u8>, j: int)
    requires
        2 <= bytes.len() <= MAX_MESSAGE_LENGTH,
        bytes[0] == CLIENT_FLAG,
        bytes[1] & INSTRUCTION_MASK == INSTRUCTION_SEND_PIXELS,
        bytes.len() - 2 <= j < PIXEL_BYTES,
    ensures
        spec_decode(bytes) is Ok,
        spec_decode(bytes)->Ok_0 is SendPixels,
        spec_decode(bytes)->Ok_0->SendPixels_1[j] == 0,
{
    assert(bytes.skip(2).len() == bytes.len() - 2);
}

} // verus!
