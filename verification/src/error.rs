//! The failures that the library reports to its callers.

use vstd::prelude::*;

verus! {

/// Why an operation was refused. Every failure is handed to the immediate
/// caller as a value of this type.
#[derive(Clone, Copy, Debug, PartialEq, Eq, Structural)]
pub enum MidiError {
    /// The handle is unknown to the registry, or was destroyed.
    InvalidHandle,
    /// A track, event or device index lies outside its range.
    IndexOutOfRange,
    /// A text or an instrument name was asked for where none is present.
    NotPresent,
    /// The caller's buffer is smaller than what must be written to it.
    CapacityExceeded,
    /// The bytes are not a well-formed Standard MIDI File.
    DecodeFailure,
    /// The device cannot be reached.
    DeviceUnavailable,
    /// The listener is already running.
    AlreadyRunning,
    /// The listener is not running.
    NotRunning,
}

impl MidiError {
    /// The number that reports a failure to a host: negative, and -1 for
    /// an unknown handle alone.
    pub open spec fn spec_code(self) -> i32 {
        match self {
            MidiError::InvalidHandle => (-1i32) as i32,
            MidiError::IndexOutOfRange => (-2i32) as i32,
            MidiError::NotPresent => (-3i32) as i32,
            MidiError::CapacityExceeded => (-4i32) as i32,
            MidiError::DecodeFailure => (-5i32) as i32,
            MidiError::DeviceUnavailable => (-6i32) as i32,
            MidiError::AlreadyRunning => (-7i32) as i32,
            MidiError::NotRunning => (-8i32) as i32,
        }
    }

    /// The number that reports a failure to a host.
    #[verifier::when_used_as_spec(spec_code)]
    pub fn code(self) -> (r: i32)
        ensures
            r == self.spec_code(),
            r < 0,
            r == -1 <==> self == MidiError::InvalidHandle,
    {
        match self {
            MidiError::InvalidHandle => -1,
            MidiError::IndexOutOfRange => -2,
            MidiError::NotPresent => -3,
            MidiError::CapacityExceeded => -4,
            MidiError::DecodeFailure => -5,
            MidiError::DeviceUnavailable => -6,
            MidiError::AlreadyRunning => -7,
            MidiError::NotRunning => -8,
        }
    }
}

} // verus!
