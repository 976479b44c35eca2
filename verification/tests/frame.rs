use dshot_frame::Command;
use dshot_frame::Frame;

const MAX_DUTY_CYCLE: u16 = 100;
const ZERO: u16 = 37;
const ONE: u16 = 75;

#[test]
fn duty_cycles_works() {
    let frame = Frame::new(999, false).unwrap();
    assert_eq!(
        frame.duty_cycles(MAX_DUTY_CYCLE),
        [
            ONE, ZERO, ZERO, ZERO, ZERO, ZERO, ONE, ZERO, ONE, ONE, ONE, ZERO, ZERO, ONE, ZERO,
            ZERO, 0
        ]
    );
}

#[test]
fn duty_cycles_at_zero() {
    let frame = Frame::command(Command::MotorStop, false);
    assert_eq!(
        frame.duty_cycles(MAX_DUTY_CYCLE),
        [
            ZERO, ZERO, ZERO, ZERO, ZERO, ZERO, ZERO, ZERO, ZERO, ZERO, ZERO, ZERO, ZERO, ZERO,
            ZERO, ZERO, 0
        ]
    );
}

#[test]
fn frame_constructs_correctly() {
    let frame = Frame::new(998, false).unwrap();
    assert_eq!(frame.speed(), 998);
    assert!(!frame.telemetry_enabled());
    assert_eq!(frame.crc(), 0x06);
}

#[test]
fn frame_constructs_correctly_with_telemetry() {
    let frame = Frame::new(998, true).unwrap();
    assert_eq!(frame.speed(), 998);
    assert!(frame.telemetry_enabled());
    assert_eq!(frame.crc(), 0x07);
}

#[test]
fn frame_constructs_correctly_off_centre() {
    let frame = Frame::new(50, false).unwrap();
    assert_eq!(frame.speed(), 50);
}

#[test]
fn frame_rejects_invalid_speed_values() {
    assert!(Frame::new(2000, false).is_none())
}

#[test]
fn speed_and_telemetry_round_trip_over_whole_range() {
    for speed in 0..2000u16 {
        for telemetry in [false, true] {
            let frame = Frame::new(speed, telemetry).unwrap();
            assert_eq!(frame.speed(), speed);
            assert_eq!(frame.telemetry_enabled(), telemetry);
        }
    }
}

#[test]
fn rejects_every_out_of_range_speed() {
    assert!(Frame::new(2000, true).is_none());
    assert!(Frame::new(2001, false).is_none());
    assert!(Frame::new(u16::MAX, false).is_none());
    assert!(Frame::new(1999, false).is_some());
    assert!(Frame::new(1999, true).is_some());
    assert!(Frame::new(0, false).is_some());
}

#[test]
fn checksum_is_deterministic_on_re_encode() {
    let first = Frame::new(998, false).unwrap();
    let second = Frame::new(998, false).unwrap();
    assert_eq!(first.crc(), second.crc());
    assert_eq!(first.inner(), second.inner());
    // Changing an input changes the checksum here (not guaranteed in general).
    let flipped = Frame::new(998, true).unwrap();
    assert_ne!(first.crc(), flipped.crc());
}

#[test]
fn raw_word_decomposes_back_into_the_inputs() {
    let frame = Frame::new(1234, true).unwrap();
    let raw = frame.inner();
    assert_eq!(raw >> 5, 1234 + 48);
    assert!(raw & 0x10 != 0);
    let field = raw >> 4;
    assert_eq!(raw & 0x0f, (field ^ (field >> 4) ^ (field >> 8)) & 0x0f);

    let frame = Frame::new(7, false).unwrap();
    let raw = frame.inner();
    assert_eq!(raw >> 5, 7 + 48);
    assert!(raw & 0x10 == 0);
    let field = raw >> 4;
    assert_eq!(raw & 0x0f, (field ^ (field >> 4) ^ (field >> 8)) & 0x0f);
}

#[test]
fn command_frames_hold_the_command_code() {
    let frame = Frame::command(Command::Beep1, false);
    assert_eq!(frame.inner() >> 5, 1);
    assert!(!frame.telemetry_enabled());

    let frame = Frame::command(Command::SettingsSave, true);
    assert_eq!(frame.inner() >> 5, 12);
    assert!(frame.telemetry_enabled());
}

#[test]
fn command_codes_match_the_protocol_assignment() {
    assert_eq!(Command::MotorStop.code(), 0);
    assert_eq!(Command::Beep5.code(), 5);
    assert_eq!(Command::ExtendedTelemetryDisable.code(), 14);
    assert_eq!(Command::SpinDirectionNormal.code(), 20);
    assert_eq!(Command::SilentModeToggle.code(), 31);
    assert_eq!(Command::SignalLineContinuousERPMPeriodTelemetry.code(), 35);
    assert_eq!(Command::SignalLineTemperatureTelemetry.code(), 42);
    assert_eq!(Command::SignalLineERPMPeriodTelemetry.code(), 47);
}

#[test]
fn duty_cycles_always_has_a_zero_tail() {
    for speed in [0u16, 1, 47, 999, 1999] {
        for max_duty in [0u16, 1, 100, 2000, 21845] {
            let frame = Frame::new(speed, true).unwrap();
            let duties = frame.duty_cycles(max_duty);
            assert_eq!(duties.len(), 17);
            assert_eq!(duties[16], 0);
            let one = (u32::from(max_duty) * 3 / 4) as u16;
            let zero = (u32::from(max_duty) * 3 / 8) as u16;
            for duty in &duties[0..16] {
                assert!(*duty == one || *duty == zero);
            }
        }
    }
}
