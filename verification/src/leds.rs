//! The pixel frame store and the one-wire signal encoder.
//!
//! [`Leds`] holds one full frame: `MAX_LED_COUNT * 3` bytes, one R, G and B
//! byte per LED in LED-index order. It is created once, lit white, and then
//! only mutated in place by admitted write messages. [`Leds::to_rmt_signal`]
//! renders a snapshot of the frame into the fixed-length pulse train a
//! one-wire LED strip expects; the hardware transmitter that plays the train
//! out lives outside this crate.

use vstd::prelude::*;

use crate::constants::{
    MAX_LED_COUNT, ONE_HIGH_NS, ONE_LOW_NS, PIXEL_BYTES, PULSES_PER_FRAME, ZERO_HIGH_NS,
    ZERO_LOW_NS,
};

verus! {

/// One timed pulse pair on the single data wire: high for `high_ns`
/// nanoseconds, then low for `low_ns` nanoseconds. The high-to-low ratio, not
/// any clock edge, conveys the bit value.
#[derive(Debug, Clone, Copy, PartialEq, Eq, Structural)]
pub struct PulsePair {
    /// Time the wire is held high, in nanoseconds.
    pub high_ns: u64,
    /// Time the wire is held low afterwards, in nanoseconds.
    pub low_ns: u64,
}

/// A full-size pixel frame built from `bytes`: the supplied bytes in order,
/// zero in every position beyond the supplied count, surplus bytes ignored.
pub open spec fn spec_fill_frame(bytes: Seq<u8>) -> Seq<u8> {
    Seq::new(PIXEL_BYTES as nat, |i: int| if i < bytes.len() { bytes[i] } else { 0u8 })
}

/// Bit `k` (counted from the least significant end) of `byte`.
pub open spec fn spec_bit(byte: u8, k: u8) -> bool {
    ((byte >> k) & 1) == 1
}

/// The pulse pair that encodes one bit: long-high/short-low for a 1,
/// short-high/long-low for a 0.
pub open spec fn spec_pulse(bit: bool) -> PulsePair {
    if bit {
        PulsePair { high_ns: ONE_HIGH_NS, low_ns: ONE_LOW_NS }
    } else {
        PulsePair { high_ns: ZERO_HIGH_NS, low_ns: ZERO_LOW_NS }
    }
}

/// The pulse train of a frame: every byte in buffer order, each contributing
/// its eight bits from least-significant to most-significant.
pub open spec fn spec_signal(frame: Seq<u8>) -> Seq<PulsePair> {
    Seq::new(frame.len() * 8, |i: int| spec_pulse(spec_bit(frame[i / 8], (i % 8) as u8)))
}

/// For an index split into byte number and bit position, division and
/// remainder by eight recover the two parts.
proof fn lemma_div_mod8(byte_index: int, bit_index: int)
    by (nonlinear_arith)
    requires
        0 <= byte_index,
        0 <= bit_index < 8,
    ensures
        (8 * byte_index + bit_index) / 8 == byte_index,
        (8 * byte_index + bit_index) % 8 == bit_index,
{
}

/// The fixed-capacity frame store for the strip, exclusively owned by the LED
/// subsystem and mutated in place by admitted write messages.
#[derive(Debug, Clone)]
pub struct Leds {
    pixels: Vec<u8>,
}

impl View for Leds {
    type V = Seq<u8>;

    closed spec fn view(&self) -> Seq<u8> {
        self.pixels@
    }
}

impl Leds {
    /// A well-formed store always holds exactly one full frame.
    pub open spec fn wf(&self) -> bool {
        self@.len() == PIXEL_BYTES
    }

    /// Creates the frame store with every channel at maximum: the strip
    /// starts lit white.
    pub fn new() -> (leds: Self)
        ensures
            leds.wf(),
            leds@ == Seq::new(PIXEL_BYTES as nat, |i: int| 255u8),
    {
        let mut pixels: Vec<u8> = Vec::new();
        while pixels.len() < PIXEL_BYTES
            invariant
                pixels@.len() <= PIXEL_BYTES,
                forall|j: int| 0 <= j < pixels@.len() ==> pixels@[j] == 255u8,
            decreases PIXEL_BYTES - pixels@.len(),
        {
            pixels.push(255);
        }
        proof {
            assert(pixels@ =~= Seq::new(PIXEL_BYTES as nat, |i: int| 255u8));
        }
        Leds { pixels }
    }

    /// Replaces the whole frame: the supplied bytes in order, zero in every
    /// position beyond the supplied count, surplus bytes ignored. A short
    /// update therefore turns every unmentioned LED off.
    pub fn set(&mut self, bytes: &[u8])
        requires
            old(self).wf(),
        ensures
            final(self).wf(),
            final(self)@ == spec_fill_frame(bytes@),
    {
        let mut i: usize = 0;
        while i < PIXEL_BYTES
            invariant
                i <= PIXEL_BYTES,
                self@.len() == PIXEL_BYTES,
                forall|j: int| 0 <= j < i ==> self@[j] == spec_fill_frame(bytes@)[j],
            decreases PIXEL_BYTES - i,
        {
            let value = if i < bytes.len() {
                bytes[i]
            } else {
                0
            };
            self.pixels.set(i, value);
            i += 1;
        }
        proof {
            assert(self@ =~= spec_fill_frame(bytes@));
        }
    }

    /// Patches one LED: exactly the three channel bytes of `index` change,
    /// in R, G, B order; every other byte keeps its prior value.
    pub fn set_pixel(&mut self, index: u8, r: u8, g: u8, b: u8)
        requires
            old(self).wf(),
        ensures
            final(self).wf(),
            final(self)@ == old(self)@.update(3 * index as int, r).update(
                3 * index as int + 1,
                g,
            ).update(3 * index as int + 2, b),
    {
        let base = 3 * (index as usize);
        self.pixels.set(base, r);
        self.pixels.set(base + 1, g);
        self.pixels.set(base + 2, b);
    }

    /// Copies the current frame out, byte for byte: the transmit cycle works
    /// on such a snapshot so that the store is held only long enough to copy,
    /// never across the blocking hardware transmission.
    pub fn snapshot(&self) -> (frame: Vec<u8>)
        ensures
            frame@ == self@,
    {
        let mut frame: Vec<u8> = Vec::new();
        let mut i: usize = 0;
        while i < self.pixels.len()
            invariant
                i <= self@.len(),
                self@.len() == self.pixels@.len(),
                frame@ == self@.take(i as int),
            decreases self@.len() - i,
        {
            frame.push(self.pixels[i]);
            proof {
                assert(frame@ =~= self@.take(i + 1));
            }
            i += 1;
        }
        proof {
            assert(frame@ =~= self@);
        }
        frame
    }

    /// Renders the frame into the one-wire pulse train: every byte in buffer
    /// order, its bits visited least-significant first, each bit mapped to its
    /// timed pulse pair. The train always spans the full frame, whatever is
    /// physically downstream.
    pub fn to_rmt_signal(&self) -> (signal: Vec<PulsePair>)
        requires
            self.wf(),
        ensures
            signal@ == spec_signal(self@),
            signal@.len() == PULSES_PER_FRAME,
    {
        let mut signal: Vec<PulsePair> = Vec::new();
        let mut i: usize = 0;
        while i < self.pixels.len()
            invariant
                self.wf(),
                self@.len() == self.pixels@.len(),
                i <= PIXEL_BYTES,
                signal@.len() == 8 * i,
                forall|j: int| 0 <= j < signal@.len() ==> signal@[j] == spec_signal(self@)[j],
            decreases PIXEL_BYTES - i,
        {
            let byte = self.pixels[i];
            let mut k: u8 = 0;
            while k < 8
                invariant
                    self.wf(),
                    i < PIXEL_BYTES,
                    byte == self@[i as int],
                    k <= 8,
                    signal@.len() == 8 * i + k,
                    forall|j: int| 0 <= j < signal@.len() ==> signal@[j] == spec_signal(self@)[j],
                decreases 8 - k,
            {
                let bit = ((byte >> k) & 1) == 1;
                let pair = if bit {
                    PulsePair { high_ns: ONE_HIGH_NS, low_ns: ONE_LOW_NS }
                } else {
                    PulsePair { high_ns: ZERO_HIGH_NS, low_ns: ZERO_LOW_NS }
                };
                signal.push(pair);
                proof {
                    lemma_div_mod8(i as int, k as int);
                    assert(signal@[8 * i + k] == spec_signal(self@)[8 * i + k]);
                }
                k += 1;
            }
            i += 1;
        }
        proof {
            assert(signal@ =~= spec_signal(self@));
        }
        signal
    }
}

impl Default for Leds {
    /// The same store [`Leds::new`] creates: a full frame lit white.
    fn default() -> (leds: Self)
        ensures
            leds.wf(),
            leds@ == Seq::new(PIXEL_BYTES as nat, |i: int| 255u8),
    {
        Leds::new()
    }
}

/// Law: a frame's pulse train always holds `MAX_LED_COUNT * 3 * 8` pulse
/// pairs, and because bits are visited least-significant first, a first byte
/// of 1 puts the pulse pair of a 1 bit (long-high/short-low) first.
pub proof fn lemma_signal_frame(frame: Seq<u8>)
    requires
        frame.len() == PIXEL_BYTES,
    ensures
        spec_signal(frame).len() == MAX_LED_COUNT * 3 * 8,
        spec_signal(frame)[0] == spec_pulse(spec_bit(frame[0], 0)),
        frame[0] == 1 ==> spec_signal(frame)[0] == spec_pulse(true),
{
    assert(spec_signal(frame)[0] == spec_pulse(spec_bit(frame[0 as int / 8], (0 as int % 8) as u8)));
    if frame[0] == 1 {
        let byte = frame[0];
        assert(((byte >> 0u8) & 1) == 1) by (bit_vector)
            requires
                byte == 1u8,
        ;
    }
}

} // verus!
