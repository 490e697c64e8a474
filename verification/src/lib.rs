//! MIDI files and live MIDI input, normalised into an absolute-time event
//! model, with the handle registries and listener life cycle that a host
//! application drives.

pub mod error;
pub mod header;
pub mod labview_interop;
pub mod lv_midi;
pub mod lv_midi_file;
pub mod marshal;
pub mod midi;
pub mod midi_file;
pub mod names;
pub mod registry;
pub mod smf;
pub mod tempo;
pub mod text;
pub mod user_event_test;

pub use names::{get_control_name, get_note_name};
