use airpodsd::codec::{
    decode_frame, enable_notifications_command, init_command, set_anc_command, AAPEvent,
    BatteryState, ChargingState, DecodedMessage, ANC,
};

fn settings_frame(code: u8) -> Vec<u8> {
    vec![0, 0, 0, 0, 0x09, 0, 0x0D, code]
}

fn ears_frame(right: u8, left: u8) -> Vec<u8> {
    vec![0, 0, 0, 0, 0x06, 0, right, left]
}

fn battery_frame(entries: &[(u8, u8, u8)]) -> Vec<u8> {
    // (mask, raw percentage, charging code) per entry
    let mut buf = vec![0, 0, 0, 0, 0x04, 0, entries.len() as u8];
    for &(mask, pct, charging) in entries {
        buf.extend_from_slice(&[mask, 0, pct, charging, 0]);
    }
    buf
}

#[test]
fn anc_wire_codes() {
    assert_eq!(ANC::Off.to_u8(), 1);
    assert_eq!(ANC::NoiseCancelling.to_u8(), 2);
    assert_eq!(ANC::Transparency.to_u8(), 3);
    assert_eq!(ANC::Adaptive.to_u8(), 4);
}

#[test]
fn noise_control_decode_table() {
    let expected = [
        (1, ANC::Off),
        (2, ANC::NoiseCancelling),
        (3, ANC::Transparency),
        (4, ANC::Adaptive),
    ];
    for (code, mode) in expected {
        assert_eq!(
            decode_frame(&settings_frame(code)),
            DecodedMessage::NoiseControl { mode, recognized: true }
        );
    }
}

#[test]
fn unrecognized_anc_code_defaults_to_off() {
    assert_eq!(
        decode_frame(&settings_frame(9)),
        DecodedMessage::NoiseControl { mode: ANC::Off, recognized: false }
    );
    assert_eq!(
        decode_frame(&settings_frame(0)),
        DecodedMessage::NoiseControl { mode: ANC::Off, recognized: false }
    );
}

#[test]
fn other_setting_type_is_ignored() {
    let buf = vec![0, 0, 0, 0, 0x09, 0, 0x0A, 1];
    assert_eq!(decode_frame(&buf), DecodedMessage::Ignored);
}

#[test]
fn short_buffers_are_unrecognized() {
    assert_eq!(decode_frame(&[]), DecodedMessage::Unrecognized);
    assert_eq!(decode_frame(&[0, 0, 0, 0]), DecodedMessage::Unrecognized);
    // settings frame cut off before the setting type, and before the code
    assert_eq!(decode_frame(&[0, 0, 0, 0, 0x09, 0]), DecodedMessage::Unrecognized);
    assert_eq!(decode_frame(&[0, 0, 0, 0, 0x09, 0, 0x0D]), DecodedMessage::Unrecognized);
    // ears frame cut off before the left byte
    assert_eq!(decode_frame(&[0, 0, 0, 0, 0x06, 0, 0]), DecodedMessage::Unrecognized);
}

#[test]
fn unknown_message_id_is_unrecognized() {
    let buf = vec![0, 0, 0, 0, 0x42, 0, 0, 0, 0, 0];
    assert_eq!(decode_frame(&buf), DecodedMessage::Unrecognized);
}

#[test]
fn battery_populates_exactly_reported_slots() {
    let buf = battery_frame(&[(0x02, 80, 1), (0x04, 75, 2)]);
    let expected = BatteryState {
        single: None,
        left: Some((75, ChargingState::NotCharging)),
        right: Some((80, ChargingState::Charging)),
        case: None,
    };
    assert_eq!(decode_frame(&buf), DecodedMessage::Battery(expected));
}

#[test]
fn battery_all_four_slots() {
    let buf = battery_frame(&[(0x01, 55, 1), (0x02, 60, 2), (0x04, 65, 0), (0x08, 70, 4)]);
    let expected = BatteryState {
        single: Some((55, ChargingState::Charging)),
        left: Some((65, ChargingState::Unknown)),
        right: Some((60, ChargingState::NotCharging)),
        case: Some((70, ChargingState::Disconnected)),
    };
    assert_eq!(decode_frame(&buf), DecodedMessage::Battery(expected));
}

#[test]
fn battery_percentage_clamped_to_100() {
    let buf = battery_frame(&[(0x01, 255, 1)]);
    assert_eq!(
        decode_frame(&buf),
        DecodedMessage::Battery(BatteryState {
            single: Some((100, ChargingState::Charging)),
            left: None,
            right: None,
            case: None,
        })
    );
    // boundary: 100 and 101
    let buf = battery_frame(&[(0x01, 101, 0)]);
    match decode_frame(&buf) {
        DecodedMessage::Battery(b) => assert_eq!(b.single, Some((100, ChargingState::Unknown))),
        m => panic!("expected a battery message, got {:?}", m),
    }
    let buf = battery_frame(&[(0x01, 100, 0)]);
    match decode_frame(&buf) {
        DecodedMessage::Battery(b) => assert_eq!(b.single, Some((100, ChargingState::Unknown))),
        m => panic!("expected a battery message, got {:?}", m),
    }
}

#[test]
fn unrecognized_charging_state_decodes_to_unknown() {
    let buf = battery_frame(&[(0x01, 50, 3)]);
    assert_eq!(
        decode_frame(&buf),
        DecodedMessage::Battery(BatteryState {
            single: Some((50, ChargingState::Unknown)),
            left: None,
            right: None,
            case: None,
        })
    );
}

#[test]
fn charging_state_decode_table() {
    let expected = [
        (0, ChargingState::Unknown),
        (1, ChargingState::Charging),
        (2, ChargingState::NotCharging),
        (4, ChargingState::Disconnected),
    ];
    for (code, state) in expected {
        let buf = battery_frame(&[(0x08, 30, code)]);
        match decode_frame(&buf) {
            DecodedMessage::Battery(b) => assert_eq!(b.case, Some((30, state))),
            m => panic!("expected a battery message, got {:?}", m),
        }
    }
}

#[test]
fn battery_unknown_component_mask_is_skipped() {
    let buf = battery_frame(&[(0x10, 40, 1), (0x02, 42, 1)]);
    let expected = BatteryState {
        single: None,
        left: None,
        right: Some((42, ChargingState::Charging)),
        case: None,
    };
    assert_eq!(decode_frame(&buf), DecodedMessage::Battery(expected));
}

#[test]
fn battery_duplicate_mask_last_entry_wins() {
    let buf = battery_frame(&[(0x01, 10, 1), (0x01, 20, 2)]);
    match decode_frame(&buf) {
        DecodedMessage::Battery(b) => {
            assert_eq!(b.single, Some((20, ChargingState::NotCharging)))
        },
        m => panic!("expected a battery message, got {:?}", m),
    }
}

#[test]
fn battery_zero_entries_is_empty_record() {
    let buf = battery_frame(&[]);
    assert_eq!(decode_frame(&buf), DecodedMessage::Battery(BatteryState::default()));
}

#[test]
fn battery_frame_too_short_for_count_is_unrecognized() {
    // claims two entries but carries bytes for one
    let mut buf = battery_frame(&[(0x01, 50, 1)]);
    buf[6] = 2;
    assert_eq!(decode_frame(&buf), DecodedMessage::Unrecognized);
}

#[test]
fn ears_decode() {
    assert_eq!(
        decode_frame(&ears_frame(0, 0)),
        DecodedMessage::Ears { left_in: true, right_in: true }
    );
    assert_eq!(
        decode_frame(&ears_frame(1, 1)),
        DecodedMessage::Ears { left_in: false, right_in: false }
    );
    // byte 6 is the right bud, byte 7 the left one
    assert_eq!(
        decode_frame(&ears_frame(1, 0)),
        DecodedMessage::Ears { left_in: true, right_in: false }
    );
    assert_eq!(
        decode_frame(&ears_frame(0, 1)),
        DecodedMessage::Ears { left_in: false, right_in: true }
    );
}

#[test]
fn init_command_bytes() {
    assert_eq!(
        init_command(),
        vec![0x00, 0x00, 0x04, 0x00, 0x01, 0x00, 0x02, 0x00, 0x00, 0x00, 0x00, 0x00, 0x00, 0x00, 0x00, 0x00]
    );
}

#[test]
fn enable_notifications_command_bytes() {
    assert_eq!(
        enable_notifications_command(),
        vec![0x04, 0x00, 0x04, 0x00, 0x0f, 0x00, 0xff, 0xff, 0xff, 0xff]
    );
}

#[test]
fn set_anc_command_bytes() {
    for (mode, code) in [
        (ANC::Off, 1),
        (ANC::NoiseCancelling, 2),
        (ANC::Transparency, 3),
        (ANC::Adaptive, 4),
    ] {
        assert_eq!(
            set_anc_command(mode),
            vec![0x04, 0x00, 0x04, 0x00, 0x09, 0x00, 0x0D, code, 0x00, 0x00, 0x00]
        );
    }
}

#[test]
fn defaults() {
    assert_eq!(ChargingState::default(), ChargingState::Unknown);
    assert_eq!(
        BatteryState::default(),
        BatteryState { single: None, left: None, right: None, case: None }
    );
    // AAPEvent carries its payload through
    let e = AAPEvent::ANCChanged(ANC::Adaptive);
    assert_eq!(e, AAPEvent::ANCChanged(ANC::Adaptive));
    assert_ne!(e, AAPEvent::Disconnected);
}
