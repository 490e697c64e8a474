//! Events with which a host can try out its user-event wiring.

use crate::lv_midi::{MidiEventData, TYPE_NOTE_ON};
use vstd::prelude::*;

verus! {

/// A note-on of the given key and velocity on the first channel.
pub open spec fn trial_note(key: u8, velocity: u8) -> MidiEventData {
    MidiEventData {
        message_type: TYPE_NOTE_ON as i32,
        channel: 0,
        note_or_controller: key as i32,
        velocity_or_value: velocity as i32,
        raw_status: 0x90,
    }
}

/// The event to post for a trial: a note-on of middle C at full velocity
/// on the first channel.
pub fn test_generate_midi_event() -> (r: MidiEventData)
    ensures
        r == trial_note(60, 127),
{
    MidiEventData {
        message_type: 1,
        channel: 0,
        note_or_controller: 60,
        velocity_or_value: 127,
        raw_status: 0x90,
    }
}

/// The events to post for a trial of several events in a row: the notes
/// of a C major chord, each at velocity 100 on the first channel.
pub fn test_generate_chord_events() -> (r: Vec<MidiEventData>)
    ensures
        r@ == seq![trial_note(60, 100), trial_note(64, 100), trial_note(67, 100)],
{
    let chord_notes: [u8; 3] = [60, 64, 67];
    let mut events: Vec<MidiEventData> = Vec::new();
    let mut i: usize = 0;
    while i < 3
        invariant
            i <= 3,
            chord_notes@ == seq![60u8, 64u8, 67u8],
            events.len() == i,
            forall|k: int| 0 <= k < i ==> events[k] == trial_note(chord_notes[k], 100),
        decreases 3 - i,
    {
        events.push(
            MidiEventData {
                message_type: 1,
                channel: 0,
                note_or_controller: chord_notes[i] as i32,
                velocity_or_value: 100,
                raw_status: 0x90,
            },
        );
        i += 1;
    }
    assert(events@ =~= seq![trial_note(60, 100), trial_note(64, 100), trial_note(67, 100)]);
    events
}

} // verus!
