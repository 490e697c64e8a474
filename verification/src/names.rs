//! Names of notes and controllers.

use crate::text::{push_signed_decimal, signed_decimal};
use vstd::prelude::*;
use vstd::string::StringExecFns;

verus! {

/// The name of one of the twelve pitch classes, from C upwards.
pub open spec fn pitch_class_name(index: nat) -> Seq<char> {
    if index == 0 {
        "C"@
    } else if index == 1 {
        "C#"@
    } else if index == 2 {
        "D"@
    } else if index == 3 {
        "D#"@
    } else if index == 4 {
        "E"@
    } else if index == 5 {
        "F"@
    } else if index == 6 {
        "F#"@
    } else if index == 7 {
        "G"@
    } else if index == 8 {
        "G#"@
    } else if index == 9 {
        "A"@
    } else if index == 10 {
        "A#"@
    } else {
        "B"@
    }
}

/// The name of a note: its pitch class and its octave, where note 60 is
/// C4.
pub open spec fn note_name(note: u8) -> Seq<char> {
    pitch_class_name((note % 12) as nat) + signed_decimal(note / 12 - 1)
}

/// The name of a controller, "Other" for one without a name of its own.
pub open spec fn control_name(controller: u8) -> Seq<char> {
    if controller == 1 {
        "Modulation"@
    } else if controller == 7 {
        "Volume"@
    } else if controller == 10 {
        "Pan"@
    } else if controller == 11 {
        "Expression"@
    } else if controller == 64 {
        "Sustain Pedal"@
    } else if controller == 65 {
        "Portamento"@
    } else if controller == 66 {
        "Sostenuto"@
    } else if controller == 67 {
        "Soft Pedal"@
    } else {
        "Other"@
    }
}

/// The name of a MIDI note number.
pub fn get_note_name(note: u8) -> (r: String)
    ensures
        r@ == note_name(note),
{
    let index = note % 12;
    let class = if index == 0 {
        "C"
    } else if index == 1 {
        "C#"
    } else if index == 2 {
        "D"
    } else if index == 3 {
        "D#"
    } else if index == 4 {
        "E"
    } else if index == 5 {
        "F"
    } else if index == 6 {
        "F#"
    } else if index == 7 {
        "G"
    } else if index == 8 {
        "G#"
    } else if index == 9 {
        "A"
    } else if index == 10 {
        "A#"
    } else {
        "B"
    };
    let mut name = String::from_str(class);
    push_signed_decimal(&mut name, (note / 12) as i64 - 1);
    name
}

/// The name of a controller number.
pub fn get_control_name(controller: u8) -> (r: &'static str)
    ensures
        r@ == control_name(controller),
{
    match controller {
        1 => "Modulation",
        7 => "Volume",
        10 => "Pan",
        11 => "Expression",
        64 => "Sustain Pedal",
        65 => "Portamento",
        66 => "Sostenuto",
        67 => "Soft Pedal",
        _ => "Other",
    }
}

} // verus!
