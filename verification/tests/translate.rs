use evdev_midi::conversion::{convert_range_value, event_to_midi, translate, TranslationError};
use evdev_midi::event::{RawInputEvent, EV_BUTTON, EV_ROTARY, EV_SYNC};
use evdev_midi::midi::{
    MidiMessage, COMMAND_CC, COMMAND_NOTE_OFF, COMMAND_NOTE_ON, VELOCITY_MAX, VELOCITY_MIN,
};
use std::collections::HashMap;

fn single() -> HashMap<u16, u8> {
    let mut mapping = HashMap::new();
    mapping.insert(256, 1);
    mapping
}

#[test]
fn button_release_is_note_off() {
    let event = RawInputEvent::new(1, 256, 0);
    assert_eq!(
        translate(&single(), &event),
        Ok(MidiMessage { status: 128, controller: 1, value: 0 })
    );
}

#[test]
fn button_press_is_note_on() {
    let event = RawInputEvent::new(1, 256, 5);
    assert_eq!(
        translate(&single(), &event),
        Ok(MidiMessage { status: 144, controller: 1, value: 127 })
    );
}

#[test]
fn button_with_negative_value_is_note_on() {
    let event = RawInputEvent::new(EV_BUTTON, 256, -1);
    assert_eq!(
        translate(&single(), &event),
        Ok(MidiMessage { status: COMMAND_NOTE_ON, controller: 1, value: VELOCITY_MAX })
    );
    let event = RawInputEvent::new(EV_BUTTON, 256, i32::MIN);
    assert_eq!(
        translate(&single(), &event),
        Ok(MidiMessage { status: COMMAND_NOTE_ON, controller: 1, value: VELOCITY_MAX })
    );
}

#[test]
fn rotary_midpoint_is_control_change_63() {
    let event = RawInputEvent::new(3, 256, 2048);
    assert_eq!(
        translate(&single(), &event),
        Ok(MidiMessage { status: 176, controller: 1, value: 63 })
    );
}

#[test]
fn rotary_boundaries() {
    let low = RawInputEvent::new(EV_ROTARY, 256, 0);
    let high = RawInputEvent::new(EV_ROTARY, 256, 4095);
    assert_eq!(
        translate(&single(), &low),
        Ok(MidiMessage { status: COMMAND_CC, controller: 1, value: 0 })
    );
    assert_eq!(
        translate(&single(), &high),
        Ok(MidiMessage { status: COMMAND_CC, controller: 1, value: 127 })
    );
}

#[test]
fn rotary_scale_rounds_down() {
    assert_eq!(convert_range_value(0), 0);
    assert_eq!(convert_range_value(1), 0);
    assert_eq!(convert_range_value(32), 0);
    assert_eq!(convert_range_value(33), 1);
    assert_eq!(convert_range_value(2047), 63);
    assert_eq!(convert_range_value(2048), 63);
    assert_eq!(convert_range_value(2064), 64);
    assert_eq!(convert_range_value(4094), 126);
    assert_eq!(convert_range_value(4095), 127);
}

#[test]
fn rotary_scale_matches_the_formula_over_the_whole_range() {
    let mut raw: i32 = 0;
    while raw <= 4095 {
        let expected = (raw as i64 * 127 / 4095) as u8;
        assert_eq!(convert_range_value(raw), expected);
        raw += 1;
    }
}

#[test]
fn rotary_scale_saturates_outside_the_range() {
    assert_eq!(convert_range_value(-1), 0);
    assert_eq!(convert_range_value(i32::MIN), 0);
    assert_eq!(convert_range_value(4096), 127);
    assert_eq!(convert_range_value(10_000), 127);
    assert_eq!(convert_range_value(i32::MAX), 127);
}

#[test]
fn unmapped_code_is_rejected_for_buttons_and_rotaries() {
    let mapping = single();
    for value in [0, 1, -7, 4095] {
        assert_eq!(
            translate(&mapping, &RawInputEvent::new(1, 257, value)),
            Err(TranslationError::InvalidEventCode)
        );
        assert_eq!(
            translate(&mapping, &RawInputEvent::new(3, 257, value)),
            Err(TranslationError::InvalidEventCode)
        );
    }
}

#[test]
fn unknown_type_is_rejected() {
    let mapping = single();
    for kind in [0u16, 2, 4, 17, u16::MAX] {
        assert_eq!(
            translate(&mapping, &RawInputEvent::new(kind, 256, 1)),
            Err(TranslationError::InvalidEventType)
        );
    }
}

#[test]
fn type_is_looked_at_before_code() {
    let event = RawInputEvent::new(2, 999, 1);
    assert_eq!(translate(&single(), &event), Err(TranslationError::InvalidEventType));
}

#[test]
fn empty_table_rejects_every_code() {
    let mapping: HashMap<u16, u8> = HashMap::new();
    assert_eq!(
        translate(&mapping, &RawInputEvent::new(1, 256, 1)),
        Err(TranslationError::InvalidEventCode)
    );
}

#[test]
fn translating_twice_gives_the_same_bytes() {
    let mapping = single();
    let event = RawInputEvent::new(3, 256, 1234);
    let first = translate(&mapping, &event).unwrap().to_bytes();
    let second = translate(&mapping, &event).unwrap().to_bytes();
    assert_eq!(first, second);
    assert_eq!(first, [176, 1, 38]);

    let mut refilled: HashMap<u16, u8> = HashMap::new();
    refilled.insert(7, 9);
    refilled.insert(256, 1);
    assert_eq!(translate(&refilled, &event).unwrap().to_bytes(), first);
}

#[test]
fn buffer_is_filled_on_success() {
    let mut buffer: [u8; 3] = [0, 0, 0];
    let mapping = single();
    assert_eq!(event_to_midi(&mapping, &RawInputEvent::new(1, 256, 0), &mut buffer), Ok(()));
    assert_eq!(buffer, [128, 1, 0]);
    assert_eq!(event_to_midi(&mapping, &RawInputEvent::new(1, 256, 5), &mut buffer), Ok(()));
    assert_eq!(buffer, [144, 1, 127]);
    assert_eq!(event_to_midi(&mapping, &RawInputEvent::new(3, 256, 2048), &mut buffer), Ok(()));
    assert_eq!(buffer, [176, 1, 63]);
}

#[test]
fn buffer_is_kept_on_failure() {
    let mut buffer: [u8; 3] = [144, 1, 127];
    let mapping = single();
    assert_eq!(
        event_to_midi(&mapping, &RawInputEvent::new(3, 300, 10), &mut buffer),
        Err(TranslationError::InvalidEventCode)
    );
    assert_eq!(buffer, [144, 1, 127]);
    assert_eq!(
        event_to_midi(&mapping, &RawInputEvent::new(9, 256, 10), &mut buffer),
        Err(TranslationError::InvalidEventType)
    );
    assert_eq!(buffer, [144, 1, 127]);
}

#[test]
fn message_bytes_round_trip() {
    let message = MidiMessage { status: COMMAND_NOTE_OFF, controller: 45, value: VELOCITY_MIN };
    assert_eq!(message.to_bytes(), [128, 45, 0]);
    assert_eq!(MidiMessage::from_bytes(&[128, 45, 0]), message);
}

#[test]
fn error_messages() {
    assert_eq!(TranslationError::InvalidEventType.message(), "Invalid event type.");
    assert_eq!(TranslationError::InvalidEventCode.message(), "Invalid event code.");
}

#[test]
fn event_categories() {
    assert!(RawInputEvent::new(EV_SYNC, 0, 0).is_sync());
    assert!(!RawInputEvent::new(EV_BUTTON, 0, 0).is_sync());
    assert!(RawInputEvent::new(EV_BUTTON, 0, 0).is_translatable());
    assert!(RawInputEvent::new(EV_ROTARY, 0, 0).is_translatable());
    assert!(!RawInputEvent::new(EV_SYNC, 0, 0).is_translatable());
    assert!(!RawInputEvent::new(2, 0, 0).is_translatable());
}
