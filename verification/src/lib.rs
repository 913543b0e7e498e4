//! Turns Linux input events (buttons, rotary encoders) into three-byte MIDI
//! messages through a code-to-controller table, and holds the decisions of the
//! polling worker and of its start/stop controller.

pub mod event;
pub mod midi;
pub mod mapping;
pub mod conversion;
pub mod failure;
pub mod dispatch;
pub mod lifecycle;
pub mod console;
