use dshot_frame::Controller;
use dshot_frame::Frame;
use dshot_frame::Pulse;
use dshot_frame::Speed;

#[test]
fn speed_profiles_have_the_documented_hold_times() {
    assert_eq!(Speed::DShot150.one_hold_ns(), 5000);
    assert_eq!(Speed::DShot300.one_hold_ns(), 2500);
    assert_eq!(Speed::DShot600.one_hold_ns(), 1250);
}

#[test]
fn zero_hold_is_half_of_one_hold() {
    for speed in [Speed::DShot150, Speed::DShot300, Speed::DShot600] {
        assert_eq!(speed.zero_hold_ns() * 2, speed.one_hold_ns());
    }
}

#[test]
fn bit_period_is_constant_whatever_the_bit_value() {
    let frame = Frame::new(999, true).unwrap();
    for speed in [Speed::DShot150, Speed::DShot300, Speed::DShot600] {
        let pulses = frame.pulse_durations(speed);
        assert_eq!(pulses.len(), 16);
        for pulse in &pulses {
            assert_eq!(pulse.high_ns + pulse.low_ns, speed.bit_ns());
        }
    }
}

#[test]
fn pulse_durations_follow_the_bits_msb_first() {
    // 999 + 48 = 1047 shifts to 0x82e0; the checksum makes the word 0x82e4.
    let frame = Frame::new(999, false).unwrap();
    assert_eq!(frame.inner(), 0x82e4);
    let pulses = frame.pulse_durations(Speed::DShot600);
    let one = Pulse { high_ns: 1250, low_ns: 1664 - 1250 };
    let zero = Pulse { high_ns: 625, low_ns: 1664 - 625 };
    assert_eq!(
        pulses,
        vec![
            one, zero, zero, zero, zero, zero, one, zero, one, one, one, zero, zero, one, zero,
            zero
        ]
    );
}

#[test]
fn controller_resends_last_throttle_on_telemetry_toggle() {
    let mut controller = Controller::new();
    let frame = controller.set_throttle(1000).unwrap();
    assert_eq!(frame.speed(), 1000);
    assert!(!frame.telemetry_enabled());

    let frame = controller.set_telemetry(true);
    assert_eq!(frame.speed(), 1000);
    assert!(frame.telemetry_enabled());

    let frame = controller.set_throttle(500).unwrap();
    assert_eq!(frame.speed(), 500);
    assert!(frame.telemetry_enabled());

    let frame = controller.set_telemetry(false);
    assert_eq!(frame.speed(), 500);
    assert!(!frame.telemetry_enabled());
}

#[test]
fn controller_rejects_out_of_range_and_keeps_its_state() {
    let mut controller = Controller::new();
    controller.set_throttle(750).unwrap();
    assert!(controller.set_throttle(2000).is_none());
    let frame = controller.set_telemetry(true);
    assert_eq!(frame.speed(), 750);
}
