//! The state of a connection to MIDI devices, and the messages it sends.

use crate::error::MidiError;
use vstd::prelude::*;

verus! {

/// What a manager is connected to. The connections themselves belong to
/// the caller; the manager records which devices they lead to.
#[derive(Debug, Clone, Copy, PartialEq, Eq, Structural)]
pub struct MidiManager {
    pub input_device: Option<usize>,
    pub output_device: Option<usize>,
}

/// The three bytes of a channel message: the status nibble with the low
/// four bits of the channel, then two data bytes of seven bits each.
pub open spec fn channel_message_bytes(status: u8, channel: u8, data1: u8, data2: u8) -> Seq<u8> {
    seq![status | (channel & 0x0F), data1 & 0x7F, data2 & 0x7F]
}

impl MidiManager {
    /// A manager without connections.
    pub fn new() -> (r: MidiManager)
        ensures
            r.input_device is None,
            r.output_device is None,
    {
        MidiManager { input_device: None, output_device: None }
    }

    /// Records the input device of the manager. `available` is the number
    /// of input devices present; an index beyond them is refused and
    /// leaves the manager as it was.
    pub fn connect_input(&mut self, device_index: usize, available: usize) -> (r: Result<
        (),
        MidiError,
    >)
        ensures
            device_index < available ==> r is Ok && *final(self) == (MidiManager {
                input_device: Some(device_index),
                ..*old(self)
            }),
            device_index >= available ==> r == Err::<(), MidiError>(MidiError::IndexOutOfRange)
                && *final(self) == *old(self),
    {
        if device_index >= available {
            return Err(MidiError::IndexOutOfRange);
        }
        self.input_device = Some(device_index);
        Ok(())
    }

    /// Records the output device of the manager, as `connect_input` does
    /// for the input device.
    pub fn connect_output(&mut self, device_index: usize, available: usize) -> (r: Result<
        (),
        MidiError,
    >)
        ensures
            device_index < available ==> r is Ok && *final(self) == (MidiManager {
                output_device: Some(device_index),
                ..*old(self)
            }),
            device_index >= available ==> r == Err::<(), MidiError>(MidiError::IndexOutOfRange)
                && *final(self) == *old(self),
    {
        if device_index >= available {
            return Err(MidiError::IndexOutOfRange);
        }
        self.output_device = Some(device_index);
        Ok(())
    }

    /// The output device that a message goes to, or `DeviceUnavailable`
    /// where no output device is connected.
    pub fn send_message(&self, message: &[u8]) -> (r: Result<usize, MidiError>)
        ensures
            r == match self.output_device {
                Some(device) => Ok::<usize, MidiError>(device),
                None => Err::<usize, MidiError>(MidiError::DeviceUnavailable),
            },
    {
        match self.output_device {
            Some(device) => Ok(device),
            None => Err(MidiError::DeviceUnavailable),
        }
    }

    /// A note-on message.
    pub fn note_on(channel: u8, note: u8, velocity: u8) -> (r: Vec<u8>)
        ensures
            r@ == channel_message_bytes(0x90, channel, note, velocity),
    {
        let r = vec![0x90 | (channel & 0x0F), note & 0x7F, velocity & 0x7F];
        assert(r@ =~= channel_message_bytes(0x90, channel, note, velocity));
        r
    }

    /// A note-off message.
    pub fn note_off(channel: u8, note: u8, velocity: u8) -> (r: Vec<u8>)
        ensures
            r@ == channel_message_bytes(0x80, channel, note, velocity),
    {
        let r = vec![0x80 | (channel & 0x0F), note & 0x7F, velocity & 0x7F];
        assert(r@ =~= channel_message_bytes(0x80, channel, note, velocity));
        r
    }

    /// A control-change message.
    pub fn control_change(channel: u8, controller: u8, value: u8) -> (r: Vec<u8>)
        ensures
            r@ == channel_message_bytes(0xB0, channel, controller, value),
    {
        let r = vec![0xB0 | (channel & 0x0F), controller & 0x7F, value & 0x7F];
        assert(r@ =~= channel_message_bytes(0xB0, channel, controller, value));
        r
    }
}

} // verus!
