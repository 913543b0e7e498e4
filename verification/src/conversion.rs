use crate::event::{RawInputEvent, EV_BUTTON, EV_ROTARY, ROTARY_MAX};
use crate::midi::{
    MidiMessage, COMMAND_CC, COMMAND_NOTE_OFF, COMMAND_NOTE_ON, VELOCITY_MAX, VELOCITY_MIN,
};
use std::collections::HashMap;
use vstd::prelude::*;

verus! {

broadcast use vstd::std_specs::hash::group_hash_axioms;

/// Why an event has no MIDI translation.
#[derive(Clone, Copy, Debug, PartialEq, Eq, Structural)]
pub enum TranslationError {
    /// The event is neither a button nor a rotary event.
    InvalidEventType,
    /// The table has no controller for the event's code.
    InvalidEventCode,
}

impl TranslationError {
    /// The text shown for the error.
    pub open spec fn text(self) -> Seq<char> {
        match self {
            TranslationError::InvalidEventType => "Invalid event type."@,
            TranslationError::InvalidEventCode => "Invalid event code."@,
        }
    }

    pub fn message(&self) -> (s: &'static str)
        ensures
            s@ == self.text(),
    {
        match self {
            TranslationError::InvalidEventType => "Invalid event type.",
            TranslationError::InvalidEventCode => "Invalid event code.",
        }
    }
}

/// A rotary position on the 7-bit scale: positions 0 to 4095 map linearly onto
/// 0 to 127, rounded down; positions below or above that range saturate.
pub open spec fn scaled_rotary(value: int) -> int {
    if value <= 0 {
        0
    } else if value >= ROTARY_MAX {
        VELOCITY_MAX as int
    } else {
        value * 127 / 4095
    }
}

/// The status byte of a button or rotary event.
pub open spec fn status_byte(event: RawInputEvent) -> u8 {
    if event._type == EV_BUTTON {
        if event.value == 0 {
            COMMAND_NOTE_OFF
        } else {
            COMMAND_NOTE_ON
        }
    } else {
        COMMAND_CC
    }
}

/// The value byte of a button or rotary event.
pub open spec fn value_byte(event: RawInputEvent) -> u8 {
    if event._type == EV_BUTTON {
        if event.value == 0 {
            VELOCITY_MIN
        } else {
            VELOCITY_MAX
        }
    } else {
        scaled_rotary(event.value as int) as u8
    }
}

/// What an event translates to under a table: the category is looked at first,
/// then the code, and the message exists only when both are accepted.
pub open spec fn translation(mapping: Map<u16, u8>, event: RawInputEvent) -> Result<
    MidiMessage,
    TranslationError,
> {
    if !event.translatable() {
        Err(TranslationError::InvalidEventType)
    } else if !mapping.contains_key(event.code) {
        Err(TranslationError::InvalidEventCode)
    } else {
        Ok(
            MidiMessage {
                status: status_byte(event),
                controller: mapping[event.code],
                value: value_byte(event),
            },
        )
    }
}

/// Scales a rotary position to a 7-bit value.
pub fn convert_range_value(value: i32) -> (out: u8)
    ensures
        out == scaled_rotary(value as int),
        out <= VELOCITY_MAX,
{
    if value <= 0 {
        VELOCITY_MIN
    } else if value >= ROTARY_MAX {
        VELOCITY_MAX
    } else {
        let wide: i32 = value * 127 / 4095;
        wide as u8
    }
}

/// Translates one event to a MIDI message.
pub fn translate(mapping: &HashMap<u16, u8>, event: &RawInputEvent) -> (r: Result<
    MidiMessage,
    TranslationError,
>)
    ensures
        r == translation(mapping@, *event),
{
    let status: u8 = if event._type == EV_BUTTON {
        if event.value == 0 {
            COMMAND_NOTE_OFF
        } else {
            COMMAND_NOTE_ON
        }
    } else if event._type == EV_ROTARY {
        COMMAND_CC
    } else {
        return Err(TranslationError::InvalidEventType);
    };
    let controller: u8 = match mapping.get(&event.code) {
        Some(byte) => *byte,
        None => {
            return Err(TranslationError::InvalidEventCode);
        },
    };
    let value: u8 = if event._type == EV_BUTTON {
        if event.value == 0 {
            VELOCITY_MIN
        } else {
            VELOCITY_MAX
        }
    } else {
        convert_range_value(event.value)
    };
    Ok(MidiMessage { status, controller, value })
}

/// Translates one event into the caller's three-byte buffer. The buffer is
/// written only when the translation succeeds.
pub fn event_to_midi(
    mapping: &HashMap<u16, u8>,
    event: &RawInputEvent,
    midi_msg: &mut [u8; 3],
) -> (r: Result<(), TranslationError>)
    ensures
        match translation(mapping@, *event) {
            Ok(m) => r == Ok::<(), TranslationError>(()) && final(midi_msg)@ == m.bytes(),
            Err(e) => r == Err::<(), TranslationError>(e) && *final(midi_msg) == *old(midi_msg),
        },
{
    match translate(mapping, event) {
        Ok(m) => {
            *midi_msg = m.to_bytes();
            Ok(())
        },
        Err(e) => Err(e),
    }
}

/// The message of an event whose category and code are both accepted.
pub open spec fn message_for(mapping: Map<u16, u8>, event: RawInputEvent) -> MidiMessage {
    MidiMessage {
        status: status_byte(event),
        controller: mapping[event.code],
        value: value_byte(event),
    }
}

/// Whether an event has a translation under a table.
pub open spec fn deliverable(mapping: Map<u16, u8>, event: RawInputEvent) -> bool {
    event.translatable() && mapping.contains_key(event.code)
}

/// An event has a translation exactly when its category is a button or a
/// rotary and the table holds its code, and the translation is then
/// `message_for`.
pub proof fn lemma_translation_succeeds(mapping: Map<u16, u8>, event: RawInputEvent)
    ensures
        translation(mapping, event).is_ok() <==> deliverable(mapping, event),
        deliverable(mapping, event) ==> translation(mapping, event) == Ok::<
            MidiMessage,
            TranslationError,
        >(message_for(mapping, event)),
{
}

/// A button event with a mapped code becomes a note-off with velocity 0 when
/// its value is 0, and a note-on with velocity 127 for every other value; the
/// controller is the one that the table gives.
pub proof fn lemma_button_translation(mapping: Map<u16, u8>, event: RawInputEvent)
    requires
        event._type == EV_BUTTON,
        mapping.contains_key(event.code),
    ensures
        event.value == 0 ==> translation(mapping, event) == Ok::<MidiMessage, TranslationError>(
            MidiMessage { status: 128, controller: mapping[event.code], value: 0 },
        ),
        event.value != 0 ==> translation(mapping, event) == Ok::<MidiMessage, TranslationError>(
            MidiMessage { status: 144, controller: mapping[event.code], value: 127 },
        ),
{
}

/// A rotary event with a mapped code and a position from 0 to 4095 becomes a
/// control change whose value is the position times 127 over 4095, rounded
/// down: 0 stays 0, and 4095 becomes 127.
pub proof fn lemma_rotary_translation(mapping: Map<u16, u8>, event: RawInputEvent)
    requires
        event._type == EV_ROTARY,
        mapping.contains_key(event.code),
        0 <= event.value <= 4095,
    ensures
        translation(mapping, event) == Ok::<MidiMessage, TranslationError>(
            MidiMessage {
                status: 176,
                controller: mapping[event.code],
                value: (event.value * 127 / 4095) as u8,
            },
        ),
        0 <= event.value * 127 / 4095 <= 127,
        4095 * (event.value * 127 / 4095) <= 127 * event.value < 4095 * (event.value * 127 / 4095
            + 1),
        event.value == 0 ==> value_byte(event) == 0,
        event.value == 4095 ==> value_byte(event) == 127,
{
}

/// Rotary positions outside 0 to 4095 saturate, and a larger position never
/// gives a smaller value.
pub proof fn lemma_scaled_rotary_monotonic(low: int, high: int)
    requires
        low <= high,
    ensures
        0 <= scaled_rotary(low) <= scaled_rotary(high) <= 127,
        low <= 0 ==> scaled_rotary(low) == 0,
        high >= 4095 ==> scaled_rotary(high) == 127,
{
}

/// A button or rotary event whose code the table does not hold fails with
/// `InvalidEventCode`, whatever its value.
pub proof fn lemma_unmapped_code_rejected(mapping: Map<u16, u8>, event: RawInputEvent)
    requires
        event.translatable(),
        !mapping.contains_key(event.code),
    ensures
        translation(mapping, event) == Err::<MidiMessage, TranslationError>(
            TranslationError::InvalidEventCode,
        ),
{
}

/// An event that is neither a button nor a rotary event fails with
/// `InvalidEventType`, whatever the table holds.
pub proof fn lemma_unknown_type_rejected(mapping: Map<u16, u8>, event: RawInputEvent)
    requires
        event._type != 1,
        event._type != 3,
    ensures
        translation(mapping, event) == Err::<MidiMessage, TranslationError>(
            TranslationError::InvalidEventType,
        ),
{
}

/// Translation depends on nothing but the event and the entries of the table:
/// two tables with the same entries, however they were filled, give the same
/// event the same result, byte for byte.
pub proof fn lemma_translation_repeatable(
    first: HashMap<u16, u8>,
    second: HashMap<u16, u8>,
    event: RawInputEvent,
)
    requires
        first@ == second@,
    ensures
        translation(first@, event) == translation(second@, event),
        translation(first@, event) matches Ok(m) ==> translation(second@, event) matches Ok(n)
            && m.bytes() == n.bytes(),
{
}

/// Every message that translation gives is well formed.
pub proof fn lemma_translation_well_formed(mapping: Map<u16, u8>, event: RawInputEvent)
    ensures
        translation(mapping, event) matches Ok(m) ==> m.well_formed() && m.controller
            == mapping[event.code],
{
}

} // verus!
