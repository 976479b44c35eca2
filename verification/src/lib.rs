//! Support for the DShot ESC protocol.
//!
//! DShot has two-byte frames, where the first 11 bits are the throttle speed,
//! bit 12 is a telemetry request flag, and the last four bits are a checksum.
//!
//! Throttle values below 48 are reserved for special commands.
//!
//! A frame is transmitted over the wire at a fixed speed, with ones and zeroes
//! both being pulses, but ones being held high twice as long as zeroes. The
//! library renders a frame either as per-bit pulse durations at one of three
//! fixed bit rates, or as a duty-cycle buffer for DMA-driven PWM output.

mod command;
mod controller;
mod frame;
mod timing;

pub use command::lemma_command_code_in_range;
pub use command::Command;
pub use controller::Controller;
pub use frame::base_word;
pub use frame::bit_at;
pub use frame::crc_of;
pub use frame::duty_of;
pub use frame::frame_word;
pub use frame::lemma_checksum_deterministic;
pub use frame::lemma_motor_stop_word_is_zero;
pub use frame::lemma_speed_round_trip;
pub use frame::lemma_telemetry_round_trip;
pub use frame::lemma_word_round_trip;
pub use frame::one_duty;
pub use frame::zero_duty;
pub use frame::Frame;
pub use timing::high_ns_of;
pub use timing::lemma_pulse_timing;
pub use timing::low_ns_of;
pub use timing::Pulse;
pub use timing::Speed;
