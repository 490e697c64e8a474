use lv_midi::error::MidiError;
use lv_midi::lv_midi::MidiEventData;
use lv_midi::lv_midi_file::{
    generate_event_uid, get_controller_name, midi_file_close, midi_file_get_event,
    midi_file_get_event_count, midi_file_get_event_text, midi_file_get_event_type_name,
    midi_file_get_events_in_range, midi_file_get_info, midi_file_get_track_info,
    midi_file_get_track_instrument, midi_file_get_track_name, midi_file_open,
    midi_file_ticks_to_ms, MidiFileInfo, TrackInfo,
};
use lv_midi::marshal::{
    c_string_bytes, device_count, midi_get_input_device_name, midi_get_message_type_name,
    midi_get_output_device_name, midi_note_to_name,
};
use lv_midi::midi_file::{EventType, FileRegistry};
use lv_midi::smf::Timing;
use lv_midi::tempo::Millis;
use lv_midi::user_event_test::{test_generate_chord_events, test_generate_midi_event};

fn piece(tag: &[u8], body: &[u8]) -> Vec<u8> {
    let mut out = tag.to_vec();
    out.extend_from_slice(&(body.len() as u32).to_be_bytes());
    out.extend_from_slice(body);
    out
}

fn song() -> Vec<u8> {
    let mut bytes = piece(b"MThd", &[0x00, 0x01, 0x00, 0x02, 0x01, 0x80]);
    let mut first: Vec<u8> = Vec::new();
    first.extend_from_slice(&[0x00, 0xFF, 0x51, 0x03, 0x07, 0xA1, 0x20]);
    first.extend_from_slice(&[0x83, 0x00, 0xFF, 0x51, 0x03, 0x09, 0x27, 0xC0]);
    first.extend_from_slice(&[0x00, 0xFF, 0x2F, 0x00]);
    bytes.extend_from_slice(&piece(b"MTrk", &first));
    let mut second: Vec<u8> = Vec::new();
    second.extend_from_slice(&[0x00, 0xFF, 0x03, 0x00]);
    second.extend_from_slice(&[0x00, 0xFF, 0x04, 0x04]);
    second.extend_from_slice(b"Bass");
    second.extend_from_slice(&[0x00, 0x93, 0x3C, 0x64]);
    second.extend_from_slice(&[0x83, 0x00, 0x83, 0x3C, 0x40]);
    second.extend_from_slice(&[0x83, 0x00, 0x93, 0x3E, 0x64]);
    second.extend_from_slice(&[0x00, 0xFF, 0x2F, 0x00]);
    bytes.extend_from_slice(&piece(b"MTrk", &second));
    bytes
}

fn opened() -> (FileRegistry, i32) {
    let mut registry = FileRegistry::new();
    let handle = midi_file_open(&mut registry, &song()).unwrap();
    (registry, handle)
}

#[test]
fn a_file_is_opened_and_closed() {
    let (mut registry, handle) = opened();
    assert_eq!(handle, 1);
    assert_eq!(midi_file_open(&mut registry, b"nothing"), Err(MidiError::DecodeFailure));
    assert_eq!(midi_file_close(&mut registry, handle), Ok(()));
    assert_eq!(midi_file_close(&mut registry, handle), Err(MidiError::InvalidHandle));
    assert_eq!(midi_file_open(&mut registry, &song()), Ok(2));
}

#[test]
fn file_queries_refuse_unknown_handles() {
    let (registry, handle) = opened();
    for unknown in [0, -1, handle + 1] {
        assert_eq!(midi_file_get_info(&registry, unknown), Err(MidiError::InvalidHandle));
        assert_eq!(midi_file_get_track_info(&registry, unknown, 0), Err(MidiError::InvalidHandle));
        assert_eq!(midi_file_get_track_name(&registry, unknown, 0), Err(MidiError::InvalidHandle));
        assert_eq!(
            midi_file_get_track_instrument(&registry, unknown, 0),
            Err(MidiError::InvalidHandle)
        );
        assert_eq!(midi_file_get_event_count(&registry, unknown, 0), Err(MidiError::InvalidHandle));
        assert_eq!(midi_file_get_event(&registry, unknown, 0, 0), Err(MidiError::InvalidHandle));
        assert_eq!(
            midi_file_get_event_text(&registry, unknown, 0, 0),
            Err(MidiError::InvalidHandle)
        );
        assert_eq!(
            midi_file_get_events_in_range(&registry, unknown, 0, 0, 10, 4),
            Err(MidiError::InvalidHandle)
        );
        assert_eq!(
            midi_file_ticks_to_ms(&registry, unknown, 0, 0),
            Err(MidiError::InvalidHandle)
        );
    }
}

#[test]
fn file_queries_refuse_indices_out_of_range() {
    let (registry, handle) = opened();
    for track in [-1, 2] {
        assert_eq!(
            midi_file_get_track_info(&registry, handle, track),
            Err(MidiError::IndexOutOfRange)
        );
        assert_eq!(
            midi_file_get_track_name(&registry, handle, track),
            Err(MidiError::IndexOutOfRange)
        );
        assert_eq!(
            midi_file_get_track_instrument(&registry, handle, track),
            Err(MidiError::IndexOutOfRange)
        );
        assert_eq!(
            midi_file_get_event_count(&registry, handle, track),
            Err(MidiError::IndexOutOfRange)
        );
        assert_eq!(
            midi_file_get_event(&registry, handle, track, 0),
            Err(MidiError::IndexOutOfRange)
        );
        assert_eq!(
            midi_file_get_events_in_range(&registry, handle, track, 0, 1, 1),
            Err(MidiError::IndexOutOfRange)
        );
    }
    for event in [-1, 3] {
        assert_eq!(
            midi_file_get_event(&registry, handle, 0, event),
            Err(MidiError::IndexOutOfRange)
        );
        assert_eq!(
            midi_file_get_event_text(&registry, handle, 0, event),
            Err(MidiError::IndexOutOfRange)
        );
    }
}

#[test]
fn file_and_track_information() {
    let (registry, handle) = opened();
    assert_eq!(
        midi_file_get_info(&registry, handle),
        Ok(MidiFileInfo {
            format: 1,
            track_count: 2,
            timing: Timing::Metrical { ticks_per_quarter_note: 384 },
            duration_ticks: 768,
        })
    );
    assert_eq!(
        midi_file_get_track_info(&registry, handle, 0),
        Ok(TrackInfo {
            track_index: 0,
            event_count: 3,
            channel_mask: 0,
            has_name: true,
            has_instrument: false,
        })
    );
    assert_eq!(
        midi_file_get_track_info(&registry, handle, 1),
        Ok(TrackInfo {
            track_index: 1,
            event_count: 6,
            channel_mask: 8,
            has_name: false,
            has_instrument: true,
        })
    );
    assert_eq!(midi_file_get_event_count(&registry, handle, 1), Ok(6));
}

#[test]
fn names_and_texts_of_a_file() {
    let (registry, handle) = opened();
    assert_eq!(midi_file_get_track_name(&registry, handle, 0), Ok("Track 1".to_string()));
    assert_eq!(midi_file_get_track_name(&registry, handle, 1), Err(MidiError::NotPresent));
    assert_eq!(midi_file_get_track_instrument(&registry, handle, 0), Err(MidiError::NotPresent));
    assert_eq!(midi_file_get_track_instrument(&registry, handle, 1), Ok("Bass".to_string()));
    assert_eq!(
        midi_file_get_event_text(&registry, handle, 0, 2),
        Ok("End of Track".to_string())
    );
    assert_eq!(midi_file_get_event_text(&registry, handle, 1, 2), Err(MidiError::NotPresent));
    assert_eq!(midi_file_get_event_text(&registry, handle, 1, 0), Err(MidiError::NotPresent));
}

#[test]
fn events_carry_their_milliseconds() {
    let (registry, handle) = opened();
    let first = midi_file_get_event(&registry, handle, 1, 2).unwrap();
    assert_eq!(first.absolute_time, 0);
    assert_eq!(first.event_type, EventType::NoteOn);
    assert_eq!((first.channel, first.data1, first.data2, first.has_text), (3, 60, 100, false));
    let last = midi_file_get_event(&registry, handle, 1, 4).unwrap();
    assert_eq!(last.absolute_time, 768);
    assert_eq!(last.millis, Millis { numerator: 384 * 500000 + 384 * 600000, denominator: 384000 });
    assert_eq!(last.millis.numerator as f64 / last.millis.denominator as f64, 1100.0);
    let end = midi_file_get_event(&registry, handle, 0, 2).unwrap();
    assert_eq!(end.event_type, EventType::MetaEndOfTrack);
    assert!(end.has_text);
    let ms = midi_file_ticks_to_ms(&registry, handle, 384, 0).unwrap();
    assert_eq!(ms.numerator as f64 / ms.denominator as f64, 500.0);
    let slow = midi_file_ticks_to_ms(&registry, handle, 384, 1000000).unwrap();
    assert_eq!(slow, ms);
}

#[test]
fn events_in_a_range_of_ticks() {
    let (registry, handle) = opened();
    let ticks = |start, end, capacity| {
        midi_file_get_events_in_range(&registry, handle, 1, start, end, capacity)
            .map(|batch| batch.iter().map(|e| (e.absolute_time, e.event_type)).collect::<Vec<_>>())
    };
    assert_eq!(
        ticks(384, 768, 10),
        Ok(vec![
            (384, EventType::NoteOff),
            (768, EventType::NoteOn),
            (768, EventType::MetaEndOfTrack),
        ])
    );
    assert_eq!(ticks(384, 768, 2), Ok(vec![(384, EventType::NoteOff), (768, EventType::NoteOn)]));
    assert_eq!(ticks(384, 768, 0), Ok(vec![]));
    assert_eq!(ticks(1, 383, 10), Ok(vec![]));
    assert_eq!(ticks(385, 384, 10), Ok(vec![]));
    assert_eq!(ticks(0, 0, 10).map(|batch| batch.len()), Ok(3));
    assert_eq!(ticks(0, u32::MAX, 10).map(|batch| batch.len()), Ok(6));
}

#[test]
fn event_types_have_numbers_and_names() {
    assert_eq!(EventType::NoteOff.code(), 0);
    assert_eq!(EventType::NoteOn.code(), 1);
    assert_eq!(EventType::ControlChange.code(), 3);
    assert_eq!(EventType::ProgramChange.code(), 4);
    assert_eq!(EventType::PitchBend.code(), 6);
    assert_eq!(EventType::Unknown.code(), 23);
    for code in 0..24 {
        assert_eq!(EventType::from_code(code).map(|t| t.code()), Some(code));
    }
    assert_eq!(EventType::from_code(24), None);
    assert_eq!(EventType::from_code(-1), None);
    assert_eq!(midi_file_get_event_type_name(0), "Note Off");
    assert_eq!(midi_file_get_event_type_name(2), "Polyphonic Aftertouch");
    assert_eq!(midi_file_get_event_type_name(7), "System Exclusive");
    assert_eq!(midi_file_get_event_type_name(11), "Meta: Track Name");
    assert_eq!(midi_file_get_event_type_name(18), "Meta: Set Tempo");
    assert_eq!(midi_file_get_event_type_name(19), "Meta: SMPTE Offset");
    assert_eq!(midi_file_get_event_type_name(23), "Unknown");
    assert_eq!(midi_file_get_event_type_name(24), "Unknown");
    assert_eq!(midi_file_get_event_type_name(-5), "Unknown");
    assert_eq!(EventType::MetaSequencerSpecific.name(), "Meta: Sequencer Specific");
    assert!(EventType::PitchBend.is_channel_voice());
    assert!(!EventType::SystemExclusive.is_channel_voice());
}

#[test]
fn event_identifiers() {
    assert_eq!(generate_event_uid(1, 0, 0), 0x0100_0000);
    assert_eq!(generate_event_uid(0x12, 0x34, 0x5678), 0x1234_5678);
    assert_eq!(generate_event_uid(0x1FF, 0x100, 0x1_0001), 0xFF00_0001);
    assert_eq!(generate_event_uid(-1, -1, -1), 0xFFFF_FFFF);
    let uid = generate_event_uid(7, 3, 515);
    assert_eq!(((uid >> 24) & 0xFF, (uid >> 16) & 0xFF, uid & 0xFFFF), (7, 3, 515));
    assert_eq!(get_controller_name(64), "Sustain");
    assert_eq!(get_controller_name(7), "Volume");
    assert_eq!(get_controller_name(99), "Other");
}

#[test]
fn texts_for_a_host_that_reads_c_strings() {
    assert_eq!(c_string_bytes("abc", 4), Ok(vec![b'a', b'b', b'c', 0]));
    assert_eq!(c_string_bytes("abc", 3), Err(MidiError::CapacityExceeded));
    assert_eq!(c_string_bytes("abc", 0), Err(MidiError::CapacityExceeded));
    assert_eq!(c_string_bytes("abc", -1), Err(MidiError::CapacityExceeded));
    assert_eq!(c_string_bytes("", 1), Ok(vec![0]));
    assert_eq!(c_string_bytes("a\0b", 10), Err(MidiError::NotPresent));
    assert_eq!(c_string_bytes("a\0b", 2), Err(MidiError::NotPresent));
    assert_eq!(c_string_bytes("\u{b5}", 3), Ok(vec![0xC2, 0xB5, 0]));
    assert_eq!(c_string_bytes("\u{b5}", 2), Err(MidiError::CapacityExceeded));
}

#[test]
fn names_of_devices_notes_and_message_types_for_a_host() {
    let devices = vec!["Piano".to_string(), "Synth".to_string()];
    assert_eq!(device_count(&devices), 2);
    assert_eq!(device_count(&Vec::new()), 0);
    assert_eq!(midi_get_input_device_name(&devices, 0, 16), Ok(b"Piano\0".to_vec()));
    assert_eq!(midi_get_output_device_name(&devices, 1, 6), Ok(b"Synth\0".to_vec()));
    assert_eq!(midi_get_input_device_name(&devices, 1, 5), Err(MidiError::CapacityExceeded));
    assert_eq!(midi_get_input_device_name(&devices, 2, 16), Err(MidiError::IndexOutOfRange));
    assert_eq!(midi_get_output_device_name(&devices, -1, 16), Err(MidiError::IndexOutOfRange));
    assert_eq!(midi_get_output_device_name(&devices, 5, 0), Err(MidiError::CapacityExceeded));
    assert_eq!(midi_note_to_name(60, 4), Ok(b"C4\0".to_vec()));
    assert_eq!(midi_note_to_name(1, 4), Err(MidiError::CapacityExceeded));
    assert_eq!(midi_note_to_name(1, 5), Ok(b"C#-1\0".to_vec()));
    assert_eq!(midi_note_to_name(60, 3), Err(MidiError::CapacityExceeded));
    assert_eq!(midi_note_to_name(128, 8), Err(MidiError::IndexOutOfRange));
    assert_eq!(midi_get_message_type_name(4, 32), Ok(b"Pitch Bend\0".to_vec()));
    assert_eq!(midi_get_message_type_name(9, 32), Ok(b"Invalid\0".to_vec()));
    assert_eq!(midi_get_message_type_name(4, 10), Err(MidiError::CapacityExceeded));
}

#[test]
fn failures_have_numbers() {
    let all = [
        MidiError::InvalidHandle,
        MidiError::IndexOutOfRange,
        MidiError::NotPresent,
        MidiError::CapacityExceeded,
        MidiError::DecodeFailure,
        MidiError::DeviceUnavailable,
        MidiError::AlreadyRunning,
        MidiError::NotRunning,
    ];
    let codes: Vec<i32> = all.iter().map(|e| e.code()).collect();
    assert_eq!(codes, vec![-1, -2, -3, -4, -5, -6, -7, -8]);
}

#[test]
fn trial_events() {
    assert_eq!(
        test_generate_midi_event(),
        MidiEventData {
            message_type: 1,
            channel: 0,
            note_or_controller: 60,
            velocity_or_value: 127,
            raw_status: 0x90,
        }
    );
    let chord = test_generate_chord_events();
    let notes: Vec<(i32, i32, i32, i32, i32)> = chord
        .iter()
        .map(|e| (e.message_type, e.channel, e.note_or_controller, e.velocity_or_value, e.raw_status))
        .collect();
    assert_eq!(notes, vec![(1, 0, 60, 100, 0x90), (1, 0, 64, 100, 0x90), (1, 0, 67, 100, 0x90)]);
}
