//! Live MIDI messages: how a raw message is read, which messages a
//! listener forwards, and the record that it forwards.

use vstd::prelude::*;

verus! {

/// The record that a listener forwards to the host for one message.
#[derive(Debug, Clone, Copy, PartialEq, Eq, Structural)]
pub struct MidiEventData {
    pub message_type: i32,
    pub channel: i32,
    pub note_or_controller: i32,
    pub velocity_or_value: i32,
    pub raw_status: i32,
}

/// A raw message taken apart.
#[derive(Debug, Clone, Copy, PartialEq, Eq, Structural)]
pub struct ParsedMessage {
    pub message_type: u8,
    pub channel: u8,
    pub note_or_controller: u8,
    pub velocity_or_value: u8,
}

/// Message type of a note-off.
pub const TYPE_NOTE_OFF: u8 = 0;

/// Message type of a note-on.
pub const TYPE_NOTE_ON: u8 = 1;

/// Message type of a control change.
pub const TYPE_CONTROL_CHANGE: u8 = 2;

/// Message type of a program change.
pub const TYPE_PROGRAM_CHANGE: u8 = 3;

/// Message type of a pitch bend.
pub const TYPE_PITCH_BEND: u8 = 4;

/// Message type of any other message.
pub const TYPE_UNKNOWN: u8 = 255;

/// The byte at `index` of a message, zero where the message is shorter.
pub open spec fn byte_or_zero(message: Seq<u8>, index: int) -> u8 {
    if 0 <= index < message.len() {
        message[index]
    } else {
        0
    }
}

/// The type of a live message with the given status byte and second data
/// byte. A note-on with velocity zero is a note-off.
pub open spec fn live_message_type(status: u8, data2: u8) -> u8 {
    let kind = status & 0xF0;
    if kind == 0x80 {
        TYPE_NOTE_OFF
    } else if kind == 0x90 {
        if data2 == 0 {
            TYPE_NOTE_OFF
        } else {
            TYPE_NOTE_ON
        }
    } else if kind == 0xB0 {
        TYPE_CONTROL_CHANGE
    } else if kind == 0xC0 {
        TYPE_PROGRAM_CHANGE
    } else if kind == 0xE0 {
        TYPE_PITCH_BEND
    } else {
        TYPE_UNKNOWN
    }
}

/// The record for a live message that is not empty: its type, the channel
/// from the low four bits of the status byte, the two bytes that follow
/// (zero where absent) and the status byte itself.
pub open spec fn live_event(message: Seq<u8>) -> MidiEventData {
    let status = message[0];
    let data1 = byte_or_zero(message, 1);
    let data2 = byte_or_zero(message, 2);
    MidiEventData {
        message_type: live_message_type(status, data2) as i32,
        channel: (status & 0x0F) as i32,
        note_or_controller: data1 as i32,
        velocity_or_value: data2 as i32,
        raw_status: status as i32,
    }
}

/// Whether a filter lets a status byte pass: an empty filter lets every
/// byte pass, another one the bytes it holds.
pub open spec fn passes_filter(filter: Seq<u8>, status: u8) -> bool {
    filter.len() == 0 || filter.contains(status)
}

/// What a listener forwards for a message, if anything.
pub open spec fn forwarded(filter: Seq<u8>, message: Seq<u8>) -> Option<MidiEventData> {
    if message.len() > 0 && passes_filter(filter, message[0]) {
        Some(live_event(message))
    } else {
        None
    }
}

/// The parts of a raw message that is not empty. A message shorter than
/// its type asks for has zero data, but for a pitch bend, which then has
/// 64 twice. The 14-bit value of a pitch bend is given as its low eight
/// bits and the bits above them.
pub open spec fn parsed_message(message: Seq<u8>) -> ParsedMessage {
    let status = message[0];
    let kind = status & 0xF0;
    let channel = status & 0x0F;
    if kind == 0x80 || kind == 0xB0 {
        ParsedMessage {
            message_type: if kind == 0x80 {
                TYPE_NOTE_OFF
            } else {
                TYPE_CONTROL_CHANGE
            },
            channel,
            note_or_controller: if message.len() >= 3 {
                message[1]
            } else {
                0
            },
            velocity_or_value: if message.len() >= 3 {
                message[2]
            } else {
                0
            },
        }
    } else if kind == 0x90 {
        if message.len() >= 3 {
            ParsedMessage {
                message_type: if message[2] == 0 {
                    TYPE_NOTE_OFF
                } else {
                    TYPE_NOTE_ON
                },
                channel,
                note_or_controller: message[1],
                velocity_or_value: message[2],
            }
        } else {
            ParsedMessage {
                message_type: TYPE_NOTE_ON,
                channel,
                note_or_controller: 0,
                velocity_or_value: 0,
            }
        }
    } else if kind == 0xC0 {
        ParsedMessage {
            message_type: TYPE_PROGRAM_CHANGE,
            channel,
            note_or_controller: if message.len() >= 2 {
                message[1]
            } else {
                0
            },
            velocity_or_value: 0,
        }
    } else if kind == 0xE0 {
        if message.len() >= 3 {
            let bend = ((message[2] as u16) << 7) | (message[1] as u16);
            ParsedMessage {
                message_type: TYPE_PITCH_BEND,
                channel,
                note_or_controller: (bend & 0xFF) as u8,
                velocity_or_value: ((bend >> 8) & 0xFF) as u8,
            }
        } else {
            ParsedMessage {
                message_type: TYPE_PITCH_BEND,
                channel,
                note_or_controller: 64,
                velocity_or_value: 64,
            }
        }
    } else {
        ParsedMessage {
            message_type: TYPE_UNKNOWN,
            channel,
            note_or_controller: 0,
            velocity_or_value: 0,
        }
    }
}

/// Takes a raw message apart; an empty message has no parts.
pub fn midi_parse_message(message: &[u8]) -> (r: Option<ParsedMessage>)
    ensures
        r == if message@.len() > 0 {
            Some(parsed_message(message@))
        } else {
            None
        },
{
    if message.len() == 0 {
        return None;
    }
    let status = message[0];
    let channel = status & 0x0F;
    let kind = status & 0xF0;
    let long = message.len() >= 3;
    let parsed = if kind == 0x80 || kind == 0xB0 {
        ParsedMessage {
            message_type: if kind == 0x80 {
                TYPE_NOTE_OFF
            } else {
                TYPE_CONTROL_CHANGE
            },
            channel,
            note_or_controller: if long {
                message[1]
            } else {
                0
            },
            velocity_or_value: if long {
                message[2]
            } else {
                0
            },
        }
    } else if kind == 0x90 {
        if long {
            ParsedMessage {
                message_type: if message[2] == 0 {
                    TYPE_NOTE_OFF
                } else {
                    TYPE_NOTE_ON
                },
                channel,
                note_or_controller: message[1],
                velocity_or_value: message[2],
            }
        } else {
            ParsedMessage {
                message_type: TYPE_NOTE_ON,
                channel,
                note_or_controller: 0,
                velocity_or_value: 0,
            }
        }
    } else if kind == 0xC0 {
        ParsedMessage {
            message_type: TYPE_PROGRAM_CHANGE,
            channel,
            note_or_controller: if message.len() >= 2 {
                message[1]
            } else {
                0
            },
            velocity_or_value: 0,
        }
    } else if kind == 0xE0 {
        if long {
            let lsb = message[1] as u16;
            let msb = message[2] as u16;
            assert(msb << 7 <= 0x7F80) by (bit_vector)
                requires
                    msb <= 0xFF,
            ;
            let bend: u16 = (msb << 7) | lsb;
            assert(bend & 0xFF <= 0xFF) by (bit_vector);
            assert((bend >> 8) & 0xFF <= 0xFF) by (bit_vector);
            ParsedMessage {
                message_type: TYPE_PITCH_BEND,
                channel,
                note_or_controller: (bend & 0xFF) as u8,
                velocity_or_value: ((bend >> 8) & 0xFF) as u8,
            }
        } else {
            ParsedMessage {
                message_type: TYPE_PITCH_BEND,
                channel,
                note_or_controller: 64,
                velocity_or_value: 64,
            }
        }
    } else {
        ParsedMessage {
            message_type: TYPE_UNKNOWN,
            channel,
            note_or_controller: 0,
            velocity_or_value: 0,
        }
    };
    Some(parsed)
}

/// Whether a filter holds a status byte.
fn filter_holds(filter: &Vec<u8>, status: u8) -> (r: bool)
    ensures
        r == filter@.contains(status),
{
    let mut i: usize = 0;
    while i < filter.len()
        invariant
            i <= filter.len(),
            forall|k: int| 0 <= k < i ==> filter[k] != status,
        decreases filter.len() - i,
    {
        if filter[i] == status {
            return true;
        }
        i += 1;
    }
    false
}

/// The record that a listener with the given filter forwards for a
/// message: none for an empty message or for one whose status byte the
/// filter does not let pass.
pub fn listener_event(filter: &Vec<u8>, message: &[u8]) -> (r: Option<MidiEventData>)
    ensures
        r == forwarded(filter@, message@),
{
    if message.len() == 0 {
        return None;
    }
    let status = message[0];
    if filter.len() != 0 && !filter_holds(filter, status) {
        return None;
    }
    let channel = status & 0x0F;
    let kind = status & 0xF0;
    let data1: u8 = if message.len() > 1 {
        message[1]
    } else {
        0
    };
    let data2: u8 = if message.len() > 2 {
        message[2]
    } else {
        0
    };
    let message_type: u8 = if kind == 0x80 {
        TYPE_NOTE_OFF
    } else if kind == 0x90 {
        if data2 == 0 {
            TYPE_NOTE_OFF
        } else {
            TYPE_NOTE_ON
        }
    } else if kind == 0xB0 {
        TYPE_CONTROL_CHANGE
    } else if kind == 0xC0 {
        TYPE_PROGRAM_CHANGE
    } else if kind == 0xE0 {
        TYPE_PITCH_BEND
    } else {
        TYPE_UNKNOWN
    };
    Some(
        MidiEventData {
            message_type: message_type as i32,
            channel: channel as i32,
            note_or_controller: data1 as i32,
            velocity_or_value: data2 as i32,
            raw_status: status as i32,
        },
    )
}

/// What the worker of a listener does in one round of its loop.
#[derive(Debug, Clone, Copy, PartialEq, Eq, Structural)]
pub enum WorkerAction {
    /// Leave the loop: the listener was stopped.
    Exit,
    /// Nothing to forward; wait a moment and go round again.
    Wait,
    /// Forward the record to the host, then wait and go round again.
    Forward(MidiEventData),
}

/// The bytes of a message that may be absent.
pub open spec fn polled_view(message: Option<&Vec<u8>>) -> Option<Seq<u8>> {
    match message {
        Some(bytes) => Some(bytes@),
        None => None,
    }
}

/// The action of a worker in one round: it leaves once its listener no
/// longer runs, and else forwards what its filter lets pass of the
/// message that it polled, if it polled one.
pub open spec fn next_action(running: bool, filter: Seq<u8>, message: Option<Seq<u8>>)
    -> WorkerAction {
    if !running {
        WorkerAction::Exit
    } else {
        match message {
            None => WorkerAction::Wait,
            Some(bytes) => match forwarded(filter, bytes) {
                Some(event) => WorkerAction::Forward(event),
                None => WorkerAction::Wait,
            },
        }
    }
}

/// Decides one round of a worker's loop from the running flag of its
/// listener and the message that it polled.
pub fn worker_step(running: bool, filter: &Vec<u8>, message: Option<&Vec<u8>>) -> (r: WorkerAction)
    ensures
        r == next_action(running, filter@, polled_view(message)),
{
    if !running {
        return WorkerAction::Exit;
    }
    match message {
        None => WorkerAction::Wait,
        Some(bytes) => match listener_event(filter, bytes.as_slice()) {
            Some(event) => WorkerAction::Forward(event),
            None => WorkerAction::Wait,
        },
    }
}

/// Once a listener is stopped its worker forwards nothing more: whatever
/// message it has polled, it leaves its loop.
pub proof fn lemma_stopped_worker_forwards_nothing(filter: Seq<u8>, message: Option<Seq<u8>>)
    ensures
        next_action(false, filter, message) == WorkerAction::Exit,
{
}

/// A worker forwards messages as they come: what it forwards for a
/// message depends on that message and on the filter alone.
pub proof fn lemma_forwarding_follows_the_filter(filter: Seq<u8>, message: Seq<u8>)
    ensures
        next_action(true, filter, Some(message)) is Forward <==> message.len() > 0 && (filter.len()
            == 0 || filter.contains(message[0])),
        next_action(true, filter, Some(message)) matches WorkerAction::Forward(event)
            ==> event == live_event(message),
{
}

/// A note-on whose velocity is zero is never forwarded as a note-on.
pub proof fn lemma_live_note_on_has_velocity(message: Seq<u8>)
    requires
        message.len() > 0,
    ensures
        live_event(message).message_type == TYPE_NOTE_ON ==> live_event(message).velocity_or_value
            != 0,
{
}

/// The name of a message type.
pub open spec fn message_type_name(message_type: u8) -> Seq<char> {
    if message_type == TYPE_NOTE_OFF {
        "Note Off"@
    } else if message_type == TYPE_NOTE_ON {
        "Note On"@
    } else if message_type == TYPE_CONTROL_CHANGE {
        "Control Change"@
    } else if message_type == TYPE_PROGRAM_CHANGE {
        "Program Change"@
    } else if message_type == TYPE_PITCH_BEND {
        "Pitch Bend"@
    } else if message_type == TYPE_UNKNOWN {
        "Unknown"@
    } else {
        "Invalid"@
    }
}

/// The name of a message type, "Invalid" for a number that is none.
pub fn message_type_text(message_type: u8) -> (r: &'static str)
    ensures
        r@ == message_type_name(message_type),
{
    match message_type {
        0 => "Note Off",
        1 => "Note On",
        2 => "Control Change",
        3 => "Program Change",
        4 => "Pitch Bend",
        255 => "Unknown",
        _ => "Invalid",
    }
}

} // verus!
