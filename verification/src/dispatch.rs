//! The device arbiter and the receive-loop dispatch step.
//!
//! At most one device id holds write access at any instant. A validated
//! `SetActive` overwrites the register unconditionally (last writer wins);
//! every mutating message is admitted only if its embedded device id matches
//! the register, and is silently dropped otherwise — a mismatch is not an
//! error, by design.

use vstd::prelude::*;

use crate::client::{spec_decode, ClientMessageView, ClientMessages};
use crate::constants::{INSTRUCTION_HELLO, INSTRUCTION_MASK, INSTRUCTION_SET_ACTIVE, NO_ACTIVE_DEVICE, PIXEL_BYTES};
use crate::leds::{spec_fill_frame, Leds};
use crate::server::ServerMessages;

verus! {

/// The single process-wide register holding the currently authorized device
/// id, or the sentinel `NO_ACTIVE_DEVICE` before any device has activated
/// itself.
#[derive(Debug, Clone, Copy)]
pub struct DeviceArbiter {
    active: u8,
}

impl View for DeviceArbiter {
    type V = u8;

    closed spec fn view(&self) -> u8 {
        self.active
    }
}

impl DeviceArbiter {
    /// Starts with the sentinel, outside the valid 0..=63 id range: no write
    /// is admitted until a device activates itself.
    pub fn new() -> (a: Self)
        ensures
            a@ == NO_ACTIVE_DEVICE,
    {
        DeviceArbiter { active: NO_ACTIVE_DEVICE }
    }

    /// Unconditionally hands write access to `device`: last writer wins, no
    /// negotiation.
    pub fn activate(&mut self, device: u8)
        requires
            device < 64,
        ensures
            final(self)@ == device,
    {
        self.active = device;
    }

    /// Whether `device` currently holds write access.
    pub fn permits(&self, device: u8) -> (r: bool)
        ensures
            r == (device == self@),
    {
        device == self.active
    }
}

/// Whether header byte 1 carries the discovery (hello) instruction.
pub fn is_hello(header: u8) -> (r: bool)
    ensures
        r == (header & INSTRUCTION_MASK == INSTRUCTION_HELLO),
{
    header & INSTRUCTION_MASK == INSTRUCTION_HELLO
}

/// Whether header byte 1 carries the set-active instruction.
pub fn is_set_active(header: u8) -> (r: bool)
    ensures
        r == (header & INSTRUCTION_MASK == INSTRUCTION_SET_ACTIVE),
{
    header & INSTRUCTION_MASK == INSTRUCTION_SET_ACTIVE
}

/// What one decoded client message does: the register afterwards, the pixel
/// frame afterwards, and the reply it elicits.
///
/// `Hello` only elicits the acknowledgment. `SetActive` only overwrites the
/// register. The two write messages mutate the frame exactly when their
/// device id matches the register, and are silently dropped otherwise.
pub open spec fn spec_handle(m: ClientMessageView, active: u8, frame: Seq<u8>) -> (u8, Seq<
    u8,
>, Option<ServerMessages>) {
    match m {
        ClientMessageView::Hello => (active, frame, Some(ServerMessages::Hello)),
        ClientMessageView::SetActive(device) => (device, frame, None),
        ClientMessageView::SendPixels(device, pixels) => if device == active {
            (active, spec_fill_frame(pixels), None)
        } else {
            (active, frame, None)
        },
        ClientMessageView::SetPixel(device, index, r, g, b) => if device == active {
            (
                active,
                frame.update(3 * index as int, r).update(3 * index as int + 1, g).update(
                    3 * index as int + 2,
                    b,
                ),
                None,
            )
        } else {
            (active, frame, None)
        },
    }
}

/// What one raw datagram does: a buffer that decodes is handled as
/// [`spec_handle`] says; a malformed one changes nothing and elicits no
/// reply.
pub open spec fn spec_dispatch(bytes: Seq<u8>, active: u8, frame: Seq<u8>) -> (u8, Seq<
    u8,
>, Option<ServerMessages>) {
    match spec_decode(bytes) {
        Ok(m) => spec_handle(m, active, frame),
        Err(_) => (active, frame, None),
    }
}

/// Routes one decoded client message: gates writes through the arbiter,
/// mutates the frame when admitted, and returns the reply to send, exactly as
/// [`spec_handle`] says.
pub fn handle_message(msg: &ClientMessages, arbiter: &mut DeviceArbiter, leds: &mut Leds) -> (resp:
    Option<ServerMessages>)
    requires
        msg@.wf(),
        old(leds).wf(),
    ensures
        final(leds).wf(),
        (final(arbiter)@, final(leds)@, resp) == spec_handle(msg@, old(arbiter)@, old(leds)@),
{
    match msg {
        ClientMessages::Hello => Some(ServerMessages::Hello),
        ClientMessages::SetActive(device) => {
            arbiter.activate(*device);
            None
        },
        ClientMessages::SendPixels(device, pixels) => {
            if arbiter.permits(*device) {
                leds.set(pixels.as_slice());
            }
            None
        },
        ClientMessages::SetPixel(device, index, r, g, b) => {
            if arbiter.permits(*device) {
                leds.set_pixel(*index, *r, *g, *b);
            }
            None
        },
    }
}

/// One receive-loop step on a raw datagram: decode, gate, mutate, reply,
/// exactly as [`spec_dispatch`] says. A malformed datagram is skipped; the
/// loop never fails on network input.
pub fn handle_datagram(bytes: &[u8], arbiter: &mut DeviceArbiter, leds: &mut Leds) -> (resp: Option<
    ServerMessages,
>)
    requires
        old(leds).wf(),
    ensures
        final(leds).wf(),
        (final(arbiter)@, final(leds)@, resp) == spec_dispatch(bytes@, old(arbiter)@, old(leds)@),
{
    match ClientMessages::decode(bytes) {
        Ok(m) => handle_message(&m, arbiter, leds),
        Err(_) => None,
    }
}

/// Law: after `SetActive(device)`, a `SendPixels` from that device replaces
/// the frame with its payload, while the same payload from any other device
/// leaves the frame unchanged.
pub proof fn lemma_exclusive_send_pixels(
    device: u8,
    other: u8,
    pixels: Seq<u8>,
    active: u8,
    frame: Seq<u8>,
)
    requires
        device < 64,
        other != device,
        pixels.len() == PIXEL_BYTES,
        frame.len() == PIXEL_BYTES,
    ensures
        ({
            let (a1, f1, _) = spec_handle(ClientMessageView::SetActive(device), active, frame);
            let (_, admitted, _) = spec_handle(
                ClientMessageView::SendPixels(device, pixels),
                a1,
                f1,
            );
            let (_, dropped, _) = spec_handle(ClientMessageView::SendPixels(other, pixels), a1, f1);
            admitted == pixels && dropped == frame
        }),
{
    assert(spec_fill_frame(pixels) =~= pixels);
}

/// Law: after `SetActive(device)`, a `SetPixel` from that device changes
/// exactly the three channel bytes of the addressed LED, in R, G, B order;
/// every other byte keeps its prior value.
pub proof fn lemma_set_pixel_patches_one_led(
    device: u8,
    index: u8,
    r: u8,
    g: u8,
    b: u8,
    active: u8,
    frame: Seq<u8>,
)
    requires
        device < 64,
        frame.len() == PIXEL_BYTES,
    ensures
        ({
            let (a1, f1, _) = spec_handle(ClientMessageView::SetActive(device), active, frame);
            let (_, patched, _) = spec_handle(
                ClientMessageView::SetPixel(device, index, r, g, b),
                a1,
                f1,
            );
            &&& patched.len() == frame.len()
            &&& patched[3 * index as int] == r
            &&& patched[3 * index as int + 1] == g
            &&& patched[3 * index as int + 2] == b
            &&& forall|j: int|
                0 <= j < frame.len() && j != 3 * index as int && j != 3 * index as int + 1 && j != 3
                    * index as int + 2 ==> patched[j] == frame[j]
        }),
{
}

} // verus!
