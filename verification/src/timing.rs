use vstd::prelude::*;

verus! {

use crate::frame::bit_at;
use crate::frame::Frame;

/// The three fixed DShot bit rates. Each selects the whole timing grid of a
/// transmitted frame through the hold time of a one bit.
#[derive(Copy, Clone, Debug, PartialEq, Eq, Structural)]
pub enum Speed {
    DShot150,
    DShot300,
    DShot600,
}

impl Speed {
    /// Nanoseconds a one bit holds the line high.
    pub open spec fn one_hold_ns_spec(self) -> u32 {
        match self {
            Speed::DShot150 => 5000,
            Speed::DShot300 => 2500,
            Speed::DShot600 => 1250,
        }
    }

    /// Nanoseconds a one bit holds the line high.
    pub fn one_hold_ns(self) -> (r: u32)
        ensures
            r == self.one_hold_ns_spec(),
    {
        match self {
            Speed::DShot150 => 5000,
            Speed::DShot300 => 2500,
            Speed::DShot600 => 1250,
        }
    }

    /// Nanoseconds a zero bit holds the line high: half the one-bit hold.
    pub open spec fn zero_hold_ns_spec(self) -> u32 {
        (self.one_hold_ns_spec() / 2) as u32
    }

    /// Nanoseconds a zero bit holds the line high: half the one-bit hold.
    pub fn zero_hold_ns(self) -> (r: u32)
        ensures
            r == self.zero_hold_ns_spec(),
    {
        self.one_hold_ns() / 2
    }

    /// Nanoseconds of one whole bit period, the same for both bit values: the
    /// one-bit high time is three quarters of it.
    pub open spec fn bit_ns_spec(self) -> u32 {
        (self.one_hold_ns_spec() / 3 * 4) as u32
    }

    /// Nanoseconds of one whole bit period, the same for both bit values: the
    /// one-bit high time is three quarters of it.
    pub fn bit_ns(self) -> (r: u32)
        ensures
            r == self.bit_ns_spec(),
    {
        self.one_hold_ns() / 3 * 4
    }
}

/// One transmitted bit as a pair of line-high and line-low durations in
/// nanoseconds. Driving the pin high for `high_ns` and then low for `low_ns`
/// sends the bit; the durations of a whole frame are played back to back.
#[derive(Copy, Clone, Debug, PartialEq, Eq, Structural)]
pub struct Pulse {
    pub high_ns: u32,
    pub low_ns: u32,
}

/// Nanoseconds the line is held high for bit `i` of `word` at the given speed.
pub open spec fn high_ns_of(word: u16, i: int, speed: Speed) -> u32 {
    if bit_at(word, i) {
        speed.one_hold_ns_spec()
    } else {
        speed.zero_hold_ns_spec()
    }
}

/// Nanoseconds the line is held low after the high pulse of bit `i` of
/// `word`: the rest of the bit period.
pub open spec fn low_ns_of(word: u16, i: int, speed: Speed) -> u32 {
    (speed.bit_ns_spec() - high_ns_of(word, i, speed)) as u32
}

impl Frame {
    /// Returns the per-bit line-high and line-low durations that transmit the
    /// frame, most significant bit first.
    ///
    /// Driving a digital output through these sixteen pulses in order sends
    /// the frame; the caller must then keep the line low for the inter-frame
    /// pause before the next frame.
    pub fn pulse_durations(&self, speed: Speed) -> (r: Vec<Pulse>)
        ensures
            r@.len() == 16,
            forall|i: int|
                0 <= i < 16 ==> r@[i] == (Pulse {
                    high_ns: high_ns_of(self@, i, speed),
                    low_ns: low_ns_of(self@, i, speed),
                }),
    {
        let word = self.inner();
        let one_hold = speed.one_hold_ns();
        let zero_hold = speed.zero_hold_ns();
        let bit_time = speed.bit_ns();
        let mut rv: Vec<Pulse> = Vec::new();
        let mut i: usize = 0;
        while i < 16
            invariant
                i <= 16,
                word == self@,
                one_hold == speed.one_hold_ns_spec(),
                zero_hold == speed.zero_hold_ns_spec(),
                bit_time == speed.bit_ns_spec(),
                rv@.len() == i,
                forall|j: int|
                    0 <= j < i ==> rv@[j] == (Pulse {
                        high_ns: high_ns_of(self@, j, speed),
                        low_ns: low_ns_of(self@, j, speed),
                    }),
            decreases 16 - i,
        {
            let shift: u16 = 15 - (i as u16);
            let bit: u16 = (word >> shift) & 1;
            let high_ns: u32 = if bit == 1 {
                one_hold
            } else {
                zero_hold
            };
            let low_ns: u32 = bit_time - high_ns;
            rv.push(Pulse { high_ns, low_ns });
            i = i + 1;
        }
        rv
    }
}

/// The defining timing property of the protocol, for every speed profile: a
/// zero bit is held high exactly half as long as a one bit, and the whole bit
/// period is the same whatever bit value is transmitted.
pub proof fn lemma_pulse_timing(speed: Speed)
    ensures
        speed.zero_hold_ns_spec() * 2 == speed.one_hold_ns_spec(),
        forall|word: u16, i: int|
            0 <= i < 16 ==> high_ns_of(word, i, speed) + low_ns_of(word, i, speed)
                == speed.bit_ns_spec(),
{
}

} // verus!
