use vstd::prelude::*;

verus! {

pub const COMMAND_NOTE_OFF: u8 = 128;

pub const COMMAND_NOTE_ON: u8 = 144;

pub const COMMAND_CC: u8 = 176;

pub const VELOCITY_MIN: u8 = 0;

pub const VELOCITY_MAX: u8 = 127;

/// A MIDI channel message: status byte, controller or note number, data value.
#[derive(Clone, Copy, Debug, PartialEq, Eq, Structural)]
pub struct MidiMessage {
    pub status: u8,
    pub controller: u8,
    pub value: u8,
}

impl MidiMessage {
    /// The message as it goes over the wire.
    pub open spec fn bytes(self) -> Seq<u8> {
        seq![self.status, self.controller, self.value]
    }

    /// The status is one of the three commands in use, a note-off carries the
    /// minimum velocity, a note-on the maximum, and the value fits in 7 bits.
    pub open spec fn well_formed(self) -> bool {
        &&& self.status == COMMAND_NOTE_OFF || self.status == COMMAND_NOTE_ON || self.status
            == COMMAND_CC
        &&& self.status == COMMAND_NOTE_OFF ==> self.value == VELOCITY_MIN
        &&& self.status == COMMAND_NOTE_ON ==> self.value == VELOCITY_MAX
        &&& self.value <= VELOCITY_MAX
    }

    pub fn to_bytes(&self) -> (out: [u8; 3])
        ensures
            out@ == self.bytes(),
    {
        let out: [u8; 3] = [self.status, self.controller, self.value];
        assert(out@ =~= self.bytes());
        out
    }

    /// Reads a message back from its three bytes.
    pub fn from_bytes(raw: &[u8; 3]) -> (m: MidiMessage)
        ensures
            m.bytes() == raw@,
    {
        let m = MidiMessage { status: raw[0], controller: raw[1], value: raw[2] };
        assert(m.bytes() =~= raw@);
        m
    }
}

} // verus!
