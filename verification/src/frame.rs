use vstd::prelude::*;

verus! {

use crate::command::Command;

/// The 4-bit checksum of the 12-bit value-and-telemetry field: the XOR of its
/// three 4-bit groups. A parity-style check, not collision-resistant.
pub open spec fn crc_of(value: u16) -> u16 {
    (value ^ (value >> 4) ^ (value >> 8)) & 0x0f
}

/// The wire word before the checksum is folded in: the 11-bit value field in
/// bits 15..5 and the telemetry flag in bit 4. Bits 3..0 are still zero.
pub open spec fn base_word(value: u16, telemetry: bool) -> u16 {
    (value << 5) | (if telemetry { 0x10 } else { 0 })
}

/// The complete 16-bit wire word for a value field and a telemetry flag:
/// value field, telemetry bit, and the 4-bit checksum of the 12 high bits.
pub open spec fn frame_word(value: u16, telemetry: bool) -> u16 {
    base_word(value, telemetry) | crc_of(base_word(value, telemetry) >> 4)
}

/// Bit `i` of `word`, counting the most significant bit as bit 0: the order
/// in which bits go out on the wire.
pub open spec fn bit_at(word: u16, i: int) -> bool
    recommends
        0 <= i < 16,
{
    (word >> ((15 - i) as u16)) & 1 == 1
}

/// Duty value encoding a one bit: three quarters of the maximum duty.
pub open spec fn one_duty(max_duty_cycle: u16) -> int {
    max_duty_cycle * 3 / 4
}

/// Duty value encoding a zero bit: three eighths of the maximum duty.
pub open spec fn zero_duty(max_duty_cycle: u16) -> int {
    max_duty_cycle * 3 / 8
}

/// Duty value for bit `i` of `word` (most significant bit first).
pub open spec fn duty_of(word: u16, i: int, max_duty_cycle: u16) -> int
    recommends
        0 <= i < 16,
{
    if bit_at(word, i) {
        one_duty(max_duty_cycle)
    } else {
        zero_duty(max_duty_cycle)
    }
}

/// A frame of two bytes that gets sent over the wire.
#[derive(Copy, Clone, Debug)]
pub struct Frame {
    inner: u16,
}

impl View for Frame {
    type V = u16;

    closed spec fn view(&self) -> u16 {
        self.inner
    }
}

impl Frame {
    /// True when the value field holds a throttle (48 or above) rather than a
    /// special command code.
    pub open spec fn is_throttle(self) -> bool {
        self@ >> 5 >= 48
    }

    /// Creates a new frame with the given speed (0-1999) and telemetry request.
    ///
    /// Returns `None` if and only if the speed is out of bounds.
    pub fn new(speed: u16, request_telemetry: bool) -> (r: Option<Self>)
        ensures
            r is Some <==> speed < 2000,
            r matches Some(f) ==> f@ == frame_word((speed + 48) as u16, request_telemetry)
                && f@ >> 5 == speed + 48 && (f@ & 0x10 != 0) == request_telemetry && f.is_throttle(),
    {
        if speed >= 2000 {
            return None;
        }

        let translated_throttle = (speed + 48) << 5u16;
        let telemetry_bit: u16 = if request_telemetry {
            0x10
        } else {
            0
        };
        let mut frame = Self { inner: translated_throttle | telemetry_bit };
        frame.compute_crc();
        proof {
            lemma_speed_round_trip(speed, request_telemetry);
            lemma_telemetry_round_trip((speed + 48) as u16, request_telemetry);
        }
        Some(frame)
    }

    /// Creates a new frame with the given [`Command`] and telemetry request.
    pub fn command(command: Command, request_telemetry: bool) -> (r: Self)
        ensures
            r@ == frame_word(command.code_spec(), request_telemetry),
            r@ >> 5 == command.code_spec(),
            (r@ & 0x10 != 0) == request_telemetry,
    {
        let translated_code = command.code() << 5u16;
        let telemetry_bit: u16 = if request_telemetry {
            0x10
        } else {
            0
        };
        let mut frame = Self { inner: translated_code | telemetry_bit };
        frame.compute_crc();
        proof {
            crate::command::lemma_command_code_in_range(command);
            lemma_word_round_trip(command.code_spec(), request_telemetry);
        }
        frame
    }

    /// Returns the speed value (0-1999) the frame was encoded from.
    pub fn speed(&self) -> (r: u16)
        requires
            self.is_throttle(),
        ensures
            r == (self@ >> 5) - 48,
    {
        (self.inner >> 5u16) - 48
    }

    /// Returns whether telemetry is requested.
    pub fn telemetry_enabled(&self) -> (r: bool)
        ensures
            r == (self@ & 0x10 != 0),
    {
        self.inner & 0x10 != 0
    }

    /// Returns the CRC checksum held in the low four bits.
    pub fn crc(&self) -> (r: u16)
        ensures
            r == self@ & 0x0f,
    {
        self.inner & 0x0f
    }

    /// Computes the CRC over the 12 high bits and ORs it into the low four.
    fn compute_crc(&mut self)
        ensures
            final(self).inner == old(self).inner | crc_of(old(self).inner >> 4),
    {
        let value = self.inner >> 4u16;
        let crc = (value ^ (value >> 4u16) ^ (value >> 8u16)) & 0x0f;
        self.inner = self.inner | crc;
    }

    /// Returns the raw 16-bit wire word.
    pub fn inner(&self) -> (r: u16)
        ensures
            r == self@,
    {
        self.inner
    }

    /// Returns an array of duty cycles for use in PWM DMA, one per bit in wire
    /// order (most significant bit first).
    ///
    /// The array holds one extra element that is always zero, to ensure the
    /// PWM output gets pulled low at the end of the sequence. It can be sliced
    /// off if not needed, but the line must then be returned low by other
    /// means.
    pub fn duty_cycles(&self, max_duty_cycle: u16) -> (r: [u16; 17])
        requires
            max_duty_cycle * 3 <= u16::MAX,
        ensures
            r@.len() == 17,
            forall|i: int| 0 <= i < 16 ==> r@[i] == duty_of(self@, i, max_duty_cycle),
            r@[16] == 0,
    {
        let one: u16 = max_duty_cycle * 3 / 4;
        let zero: u16 = max_duty_cycle * 3 / 8;
        let mut rv: [u16; 17] = [0u16; 17];
        let mut i: usize = 0;
        while i < 16
            invariant
                i <= 16,
                one == one_duty(max_duty_cycle),
                zero == zero_duty(max_duty_cycle),
                forall|j: int| 0 <= j < i ==> rv@[j] == duty_of(self@, j, max_duty_cycle),
                rv@[16] == 0,
            decreases 16 - i,
        {
            let shift: u16 = 15 - (i as u16);
            let bit: u16 = (self.inner >> shift) & 1;
            if bit == 1 {
                rv[i] = one;
            } else {
                rv[i] = zero;
            }
            i = i + 1;
        }
        rv
    }
}

/// A frame encoded from a throttle decodes back to that throttle: the value
/// field of the wire word is the throttle plus the 48-value command offset.
pub proof fn lemma_speed_round_trip(speed: u16, telemetry: bool)
    requires
        speed < 2000,
    ensures
        frame_word((speed + 48) as u16, telemetry) >> 5 == speed + 48,
{
    let v = (speed + 48) as u16;
    assert(frame_word(v, telemetry) >> 5 == v) by (bit_vector)
        requires
            v < 2048,
    ;
}

/// The telemetry bit of the wire word reproduces the flag the frame was
/// encoded with, for every 11-bit value field.
pub proof fn lemma_telemetry_round_trip(value: u16, telemetry: bool)
    requires
        value < 2048,
    ensures
        (frame_word(value, telemetry) & 0x10 != 0) == telemetry,
{
    assert((frame_word(value, telemetry) & 0x10 != 0) == telemetry) by (bit_vector)
        requires
            value < 2048,
    ;
}

/// Decomposing a wire word recovers the exact inputs it was built from: bits
/// 15..5 are the value field, bit 4 the telemetry flag, and the low four bits
/// hold the checksum of the 12 high bits, never stale with respect to them.
pub proof fn lemma_word_round_trip(value: u16, telemetry: bool)
    requires
        value < 2048,
    ensures
        frame_word(value, telemetry) >> 5 == value,
        (frame_word(value, telemetry) & 0x10 != 0) == telemetry,
        frame_word(value, telemetry) & 0x0f == crc_of(frame_word(value, telemetry) >> 4),
{
    let w = frame_word(value, telemetry);
    assert(w >> 5 == value && (w & 0x10 != 0) == telemetry && w & 0x0f == crc_of(w >> 4))
        by (bit_vector)
        requires
            w == frame_word(value, telemetry) && value < 2048,
    ;
}

/// Re-encoding identical inputs always yields the identical checksum: the
/// wire word is a function of the value field and the telemetry flag alone.
pub proof fn lemma_checksum_deterministic(
    value: u16,
    telemetry: bool,
    other_value: u16,
    other_telemetry: bool,
)
    requires
        value == other_value,
        telemetry == other_telemetry,
    ensures
        frame_word(value, telemetry) & 0x0f == frame_word(other_value, other_telemetry) & 0x0f,
{
}

/// The stop command encodes to the all-zero wire word, so every one of the 16
/// transmitted bits of its frame is a zero bit.
pub proof fn lemma_motor_stop_word_is_zero()
    ensures
        frame_word(0, false) == 0,
        forall|i: int| 0 <= i < 16 ==> !bit_at(0u16, i),
{
    assert(frame_word(0u16, false) == 0) by (bit_vector);
    assert forall|i: int| 0 <= i < 16 implies !bit_at(0u16, i) by {
        let s = (15 - i) as u16;
        assert((0u16 >> s) & 1 == 0) by (bit_vector);
    }
}

} // verus!
