use crate::conversion::TranslationError;
use vstd::prelude::*;

verus! {

/// Everything that can go wrong between an input device and the MIDI sink.
#[derive(Clone, Copy, Debug, PartialEq, Eq, Structural)]
pub enum Failure {
    /// An event that is neither a button nor a rotary event.
    InvalidEventType,
    /// An event whose code the table does not hold.
    InvalidEventCode,
    /// The sink did not take a well-formed message.
    SendFailure,
    /// The sink could not be opened when the worker began.
    SinkInitFailure,
    /// The event source failed while it was read.
    SourceReadFailure,
    /// The worker did not end cleanly.
    JoinFailure,
}

impl Failure {
    /// Whether the failure ends the worker. Failures of a single event and of
    /// a single send never do; a failed join is reported once the worker is
    /// gone already.
    pub open spec fn fatal(self) -> bool {
        self == Failure::SinkInitFailure || self == Failure::SourceReadFailure
    }

    /// The failure that a translation error is reported as.
    pub open spec fn of(error: TranslationError) -> Failure {
        match error {
            TranslationError::InvalidEventType => Failure::InvalidEventType,
            TranslationError::InvalidEventCode => Failure::InvalidEventCode,
        }
    }

    /// The text shown for the failure.
    pub open spec fn text(self) -> Seq<char> {
        match self {
            Failure::InvalidEventType => "Invalid event type."@,
            Failure::InvalidEventCode => "Invalid event code."@,
            Failure::SendFailure => "Could not send event."@,
            Failure::SinkInitFailure => "Could not create MIDI transmitter."@,
            Failure::SourceReadFailure => "Could not read input events."@,
            Failure::JoinFailure => "Failed to join worker thread."@,
        }
    }

    pub fn is_fatal(&self) -> (b: bool)
        ensures
            b == self.fatal(),
    {
        match self {
            Failure::SinkInitFailure => true,
            Failure::SourceReadFailure => true,
            _ => false,
        }
    }

    pub fn from_translation(error: TranslationError) -> (f: Failure)
        ensures
            f == Failure::of(error),
            !f.fatal(),
    {
        match error {
            TranslationError::InvalidEventType => Failure::InvalidEventType,
            TranslationError::InvalidEventCode => Failure::InvalidEventCode,
        }
    }

    pub fn message(&self) -> (s: &'static str)
        ensures
            s@ == self.text(),
    {
        match self {
            Failure::InvalidEventType => "Invalid event type.",
            Failure::InvalidEventCode => "Invalid event code.",
            Failure::SendFailure => "Could not send event.",
            Failure::SinkInitFailure => "Could not create MIDI transmitter.",
            Failure::SourceReadFailure => "Could not read input events.",
            Failure::JoinFailure => "Failed to join worker thread.",
        }
    }
}

} // verus!
