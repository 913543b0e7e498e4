use vstd::prelude::*;

verus! {

/// Synchronisation or padding event: dropped before translation, never an error.
pub const EV_SYNC: u16 = 0;

/// A discrete on/off control.
pub const EV_BUTTON: u16 = 1;

/// A control that reports an absolute position.
pub const EV_ROTARY: u16 = 3;

/// Largest position a rotary control reports.
pub const ROTARY_MAX: i32 = 4095;

/// One raw event as read from an input device.
#[derive(Clone, Copy, Debug, PartialEq, Eq, Structural)]
pub struct RawInputEvent {
    /// Event category: `EV_BUTTON`, `EV_ROTARY`, `EV_SYNC` or something else.
    pub _type: u16,
    /// Device-specific identifier of the control.
    pub code: u16,
    /// Raw magnitude: 0 or non-zero for a button, a position for a rotary.
    pub value: i32,
}

impl RawInputEvent {
    /// Whether the event is of a category that has a MIDI translation.
    pub open spec fn translatable(self) -> bool {
        self._type == EV_BUTTON || self._type == EV_ROTARY
    }

    /// Whether the event is a synchronisation event.
    pub open spec fn sync(self) -> bool {
        self._type == EV_SYNC
    }

    pub fn new(_type: u16, code: u16, value: i32) -> (e: RawInputEvent)
        ensures
            e == (RawInputEvent { _type, code, value }),
    {
        RawInputEvent { _type, code, value }
    }

    pub fn is_sync(&self) -> (b: bool)
        ensures
            b == self.sync(),
    {
        self._type == EV_SYNC
    }

    pub fn is_translatable(&self) -> (b: bool)
        ensures
            b == self.translatable(),
    {
        self._type == EV_BUTTON || self._type == EV_ROTARY
    }
}

} // verus!
