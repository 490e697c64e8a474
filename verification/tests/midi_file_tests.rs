use lv_midi::error::MidiError;
use lv_midi::header::has_timing_hazard;
use lv_midi::midi_file::{
    close_midi_file, get_midi_file, get_next_file_handle, load_midi_file, AbsoluteEvent,
    EventType, FileRegistry, MidiFile, TrackData,
};
use lv_midi::smf::{ChannelMessage, DecodedEvent, DecodedKind, Format, TextKind, Timing};

fn chunk(tag: &[u8], body: &[u8]) -> Vec<u8> {
    let mut out = tag.to_vec();
    out.extend_from_slice(&(body.len() as u32).to_be_bytes());
    out.extend_from_slice(body);
    out
}

fn sample_file() -> Vec<u8> {
    let mut bytes = chunk(b"MThd", &[0x00, 0x01, 0x00, 0x02, 0x01, 0x80]);
    let mut first: Vec<u8> = Vec::new();
    first.extend_from_slice(&[0x00, 0xFF, 0x03, 0x05]);
    first.extend_from_slice(b"Tempo");
    first.extend_from_slice(&[0x00, 0xFF, 0x51, 0x03, 0x07, 0xA1, 0x20]);
    first.extend_from_slice(&[0x00, 0xFF, 0x58, 0x04, 0x04, 0x02, 0x18, 0x08]);
    first.extend_from_slice(&[0x00, 0xFF, 0x59, 0x02, 0xFE, 0x01]);
    first.extend_from_slice(&[0x83, 0x00, 0xFF, 0x51, 0x03, 0x09, 0x27, 0xC0]);
    first.extend_from_slice(&[0x00, 0xFF, 0x2F, 0x00]);
    bytes.extend_from_slice(&chunk(b"MTrk", &first));
    let mut second: Vec<u8> = Vec::new();
    second.extend_from_slice(&[0x00, 0xFF, 0x04, 0x05]);
    second.extend_from_slice(b"Piano");
    second.extend_from_slice(&[0x00, 0xC0, 0x05]);
    second.extend_from_slice(&[0x00, 0x90, 0x3C, 0x64]);
    second.extend_from_slice(&[0x60, 0x80, 0x3C, 0x40]);
    second.extend_from_slice(&[0x00, 0x91, 0x40, 0x00]);
    second.extend_from_slice(&[0x00, 0xE2, 0x00, 0x40]);
    second.extend_from_slice(&[0x00, 0xF0, 0x03, 0x01, 0x02, 0xF7]);
    second.extend_from_slice(&[0x00, 0xFF, 0x2F, 0x00]);
    bytes.extend_from_slice(&chunk(b"MTrk", &second));
    bytes
}

fn voice(delta: u32, channel: u8, message: ChannelMessage) -> DecodedEvent {
    DecodedEvent { delta, kind: DecodedKind::Midi { channel, message }, payload: Vec::new() }
}

fn plain(delta: u32, kind: DecodedKind) -> DecodedEvent {
    DecodedEvent { delta, kind, payload: Vec::new() }
}

fn with_payload(delta: u32, kind: DecodedKind, payload: &[u8]) -> DecodedEvent {
    DecodedEvent { delta, kind, payload: payload.to_vec() }
}

fn metrical() -> Timing {
    Timing::Metrical { ticks_per_quarter_note: 384 }
}

#[test]
fn test_midi_file_lifecycle() {
    let mut registry = FileRegistry::new();
    assert_eq!(get_next_file_handle(&mut registry), 1);
    assert_eq!(get_next_file_handle(&mut registry), 2);
}

#[test]
fn from_bytes_reads_header_and_tracks() {
    let file = MidiFile::from_bytes(&sample_file()).unwrap();
    assert_eq!(file.format, 1);
    assert_eq!(file.timing, Timing::Metrical { ticks_per_quarter_note: 384 });
    assert_eq!(file.tracks.len(), 2);
    assert_eq!(file.tracks[0].events.len(), 6);
    assert_eq!(file.tracks[1].events.len(), 8);
}

#[test]
fn from_bytes_keeps_the_texts_of_the_file() {
    let file = MidiFile::from_bytes(&sample_file()).unwrap();
    assert_eq!(file.tracks[0].name, "Tempo");
    assert_eq!(file.tracks[0].instrument, None);
    assert_eq!(file.tracks[1].name, "Track 2");
    assert_eq!(file.tracks[1].instrument, Some("Piano".to_string()));
    assert_eq!(file.tracks[0].events[0].event_type, EventType::MetaTrackName);
    assert_eq!(file.tracks[0].events[0].text, "Tempo");
    assert_eq!(file.tracks[1].events[0].event_type, EventType::MetaInstrumentName);
    assert_eq!(file.tracks[1].events[0].text, "Piano");
}

#[test]
fn from_bytes_describes_meta_events() {
    let file = MidiFile::from_bytes(&sample_file()).unwrap();
    let events = &file.tracks[0].events;
    assert_eq!(events[1].event_type, EventType::MetaSetTempo);
    assert_eq!(events[1].tempo, 500000);
    assert_eq!(events[1].text, "Tempo: 500000 \u{b5}s/quarter");
    assert_eq!(events[2].event_type, EventType::MetaTimeSignature);
    assert_eq!(events[2].text, "Time Sig: 4/4 (24)");
    assert_eq!(events[3].event_type, EventType::MetaKeySignature);
    assert_eq!(events[3].text, "Key Sig: -2 minor");
    assert_eq!(events[4].event_type, EventType::MetaSetTempo);
    assert_eq!(events[4].absolute_time, 384);
    assert_eq!(events[4].tempo, 600000);
    assert_eq!(events[5].event_type, EventType::MetaEndOfTrack);
    assert_eq!(events[5].text, "End of Track");
    assert_eq!(file.tracks[0].channel_mask, 0);
}

#[test]
fn from_bytes_normalises_channel_events() {
    let file = MidiFile::from_bytes(&sample_file()).unwrap();
    let events = &file.tracks[1].events;
    assert_eq!(events[1].event_type, EventType::ProgramChange);
    assert_eq!((events[1].channel, events[1].data1, events[1].data2), (0, 5, 0));
    assert_eq!(events[2].event_type, EventType::NoteOn);
    assert_eq!((events[2].absolute_time, events[2].data1, events[2].data2), (0, 60, 100));
    assert_eq!(events[3].event_type, EventType::NoteOff);
    assert_eq!((events[3].absolute_time, events[3].data1, events[3].data2), (96, 60, 64));
    assert_eq!(events[4].event_type, EventType::NoteOff);
    assert_eq!((events[4].channel, events[4].data1, events[4].data2), (1, 64, 0));
    assert_eq!(events[5].event_type, EventType::PitchBend);
    assert_eq!((events[5].channel, events[5].data1, events[5].data2), (2, 0, 64));
    assert_eq!(events[6].event_type, EventType::SystemExclusive);
    assert_eq!(events[6].text, "SysEx: 3 bytes");
    assert_eq!(file.tracks[1].channel_mask, 0b111);
    assert_eq!(events[2].text, "");
}

#[test]
fn from_bytes_rejects_what_is_no_midi_file() {
    assert_eq!(MidiFile::from_bytes(b"not a midi file").err(), Some(MidiError::DecodeFailure));
    assert_eq!(MidiFile::from_bytes(&[]).err(), Some(MidiError::DecodeFailure));
}

#[test]
fn from_bytes_reads_timecode_timing() {
    let mut bytes = chunk(b"MThd", &[0x00, 0x00, 0x00, 0x01, 0xE7, 0x28]);
    bytes.extend_from_slice(&chunk(b"MTrk", &[0x00, 0xFF, 0x2F, 0x00]));
    let file = MidiFile::from_bytes(&bytes).unwrap();
    assert_eq!(file.format, 0);
    assert_eq!(file.timing, Timing::Timecode { frames_per_second: 25, ticks_per_frame: 40 });
}

#[test]
fn absolute_times_never_decrease() {
    let track = vec![
        voice(10, 0, ChannelMessage::NoteOn { key: 60, vel: 90 }),
        voice(0, 0, ChannelMessage::NoteOff { key: 60, vel: 0 }),
        voice(5, 1, ChannelMessage::Controller { controller: 7, value: 100 }),
        plain(100, DecodedKind::MetaEndOfTrack),
    ];
    let data = MidiFile::process_track(&track, 0, metrical());
    let times: Vec<u32> = data.events.iter().map(|e| e.absolute_time).collect();
    assert_eq!(times, vec![10, 10, 15, 115]);
}

#[test]
fn absolute_time_saturates() {
    let track = vec![
        plain(u32::MAX - 1, DecodedKind::MetaUnknown(0x60)),
        plain(5, DecodedKind::MetaSequencerSpecific),
        plain(7, DecodedKind::MetaEndOfTrack),
    ];
    let data = MidiFile::process_track(&track, 0, metrical());
    assert_eq!(data.events[0].absolute_time, u32::MAX - 1);
    assert_eq!(data.events[1].absolute_time, u32::MAX);
    assert_eq!(data.events[2].absolute_time, u32::MAX);
    assert_eq!(data.events[0].event_type, EventType::Unknown);
    assert_eq!(data.events[0].text, "Unknown Meta Event");
}

#[test]
fn note_on_with_velocity_zero_is_note_off() {
    let track = vec![
        voice(0, 3, ChannelMessage::NoteOn { key: 64, vel: 0 }),
        voice(0, 3, ChannelMessage::NoteOn { key: 64, vel: 1 }),
    ];
    let data = MidiFile::process_track(&track, 0, metrical());
    assert_eq!(data.events[0].event_type, EventType::NoteOff);
    assert_eq!((data.events[0].data1, data.events[0].data2), (64, 0));
    assert_eq!(data.events[1].event_type, EventType::NoteOn);
    assert_eq!((data.events[1].data1, data.events[1].data2), (64, 1));
}

#[test]
fn channel_mask_has_the_bits_of_the_channels_in_use() {
    let track = vec![
        voice(0, 0, ChannelMessage::NoteOn { key: 1, vel: 1 }),
        voice(0, 9, ChannelMessage::ProgramChange { program: 1 }),
        voice(0, 15, ChannelMessage::ChannelAftertouch { vel: 1 }),
        plain(0, DecodedKind::MetaTempo(500000)),
    ];
    let data = MidiFile::process_track(&track, 0, metrical());
    assert_eq!(data.channel_mask, (1 << 0) | (1 << 9) | (1 << 15));
    let empty = MidiFile::process_track(&Vec::new(), 0, metrical());
    assert_eq!(empty.channel_mask, 0);
    assert_eq!(empty.events.len(), 0);
}

#[test]
fn every_channel_message_maps_to_its_type() {
    let track = vec![
        voice(0, 1, ChannelMessage::NoteOff { key: 10, vel: 20 }),
        voice(0, 1, ChannelMessage::Aftertouch { key: 11, vel: 21 }),
        voice(0, 1, ChannelMessage::Controller { controller: 12, value: 22 }),
        voice(0, 1, ChannelMessage::ProgramChange { program: 13 }),
        voice(0, 1, ChannelMessage::ChannelAftertouch { vel: 14 }),
        voice(0, 1, ChannelMessage::PitchBend { bend: 0x1234 }),
    ];
    let data = MidiFile::process_track(&track, 0, metrical());
    let seen: Vec<(EventType, u8, u8)> =
        data.events.iter().map(|e| (e.event_type, e.data1, e.data2)).collect();
    assert_eq!(
        seen,
        vec![
            (EventType::NoteOff, 10, 20),
            (EventType::PolyphonicAftertouch, 11, 21),
            (EventType::ControlChange, 12, 22),
            (EventType::ProgramChange, 13, 0),
            (EventType::ChannelAftertouch, 14, 0),
            (EventType::PitchBend, 0x34, 0x24),
        ]
    );
}

#[test]
fn pitch_bend_splits_into_seven_bit_halves() {
    let track = vec![
        voice(0, 0, ChannelMessage::PitchBend { bend: 0 }),
        voice(0, 0, ChannelMessage::PitchBend { bend: 8192 }),
        voice(0, 0, ChannelMessage::PitchBend { bend: 16383 }),
        voice(0, 0, ChannelMessage::PitchBend { bend: 8191 }),
    ];
    let data = MidiFile::process_track(&track, 0, metrical());
    assert_eq!((data.events[0].data1, data.events[0].data2), (0, 0));
    assert_eq!((data.events[1].data1, data.events[1].data2), (0, 64));
    assert_eq!((data.events[2].data1, data.events[2].data2), (0x7F, 0x7F));
    assert_eq!((data.events[3].data1, data.events[3].data2), (0x7F, 0x3F));
    for (event, bend) in data.events.iter().zip([0u16, 8192, 16383, 8191]) {
        assert_eq!(event.event_type, EventType::PitchBend);
        assert_eq!(((event.data2 as u16) << 7) | event.data1 as u16, bend);
    }
}

#[test]
fn the_last_name_event_names_the_track() {
    let track = vec![
        with_payload(0, DecodedKind::MetaText(TextKind::TrackName), b"First"),
        with_payload(0, DecodedKind::MetaText(TextKind::InstrumentName), b"Flute"),
        with_payload(0, DecodedKind::MetaText(TextKind::TrackName), b"Second"),
        with_payload(0, DecodedKind::MetaText(TextKind::InstrumentName), b"Oboe"),
    ];
    let data = MidiFile::process_track(&track, 4, metrical());
    assert_eq!(data.name, "Second");
    assert_eq!(data.instrument, Some("Oboe".to_string()));
    assert_eq!(data.events[0].text, "First");
}

#[test]
fn a_track_without_a_name_is_numbered() {
    let track = vec![with_payload(0, DecodedKind::MetaText(TextKind::Text), b"hello")];
    assert_eq!(MidiFile::process_track(&track, 0, metrical()).name, "Track 1");
    assert_eq!(MidiFile::process_track(&track, 9, metrical()).name, "Track 10");
    assert_eq!(MidiFile::process_track(&track, 122, metrical()).name, "Track 123");
    assert_eq!(MidiFile::process_track(&track, 0, metrical()).instrument, None);
}

#[test]
fn text_events_keep_their_kind() {
    let track = vec![
        with_payload(0, DecodedKind::MetaText(TextKind::Text), b"a"),
        with_payload(0, DecodedKind::MetaText(TextKind::Copyright), b"b"),
        with_payload(0, DecodedKind::MetaText(TextKind::Lyric), b"c"),
        with_payload(0, DecodedKind::MetaText(TextKind::Marker), b"d"),
        with_payload(0, DecodedKind::MetaText(TextKind::CuePoint), &[0x65, 0xFF]),
    ];
    let data = MidiFile::process_track(&track, 0, metrical());
    let seen: Vec<(EventType, &str)> =
        data.events.iter().map(|e| (e.event_type, e.text.as_str())).collect();
    assert_eq!(
        seen,
        vec![
            (EventType::MetaText, "a"),
            (EventType::MetaCopyright, "b"),
            (EventType::MetaLyric, "c"),
            (EventType::MetaMarker, "d"),
            (EventType::MetaCuePoint, "e\u{fffd}"),
        ]
    );
}

#[test]
fn descriptions_of_the_other_events() {
    let track = vec![
        with_payload(0, DecodedKind::SysEx, &[0; 12]),
        with_payload(0, DecodedKind::Escape, &[1, 2]),
        plain(0, DecodedKind::MetaTempo(1)),
        plain(
            0,
            DecodedKind::MetaTimeSignature { numerator: 6, denominator: 3, clocks_per_click: 36 },
        ),
        plain(
            0,
            DecodedKind::MetaTimeSignature { numerator: 1, denominator: 31, clocks_per_click: 0 },
        ),
        plain(
            0,
            DecodedKind::MetaTimeSignature { numerator: 1, denominator: 33, clocks_per_click: 0 },
        ),
        plain(0, DecodedKind::MetaKeySignature { key: 3, minor: false }),
        plain(0, DecodedKind::MetaKeySignature { key: -128, minor: true }),
    ];
    let data = MidiFile::process_track(&track, 0, metrical());
    let texts: Vec<&str> = data.events.iter().map(|e| e.text.as_str()).collect();
    assert_eq!(
        texts,
        vec![
            "SysEx: 12 bytes",
            "Escape Sequence",
            "Tempo: 1 \u{b5}s/quarter",
            "Time Sig: 6/8 (36)",
            "Time Sig: 1/-2147483648 (0)",
            "Time Sig: 1/2 (0)",
            "Key Sig: 3 major",
            "Key Sig: -128 minor",
        ]
    );
    assert_eq!(data.events[0].event_type, EventType::SystemExclusive);
    assert_eq!(data.events[1].event_type, EventType::SystemExclusive);
    assert_eq!(data.events[2].tempo, 1);
    assert_eq!(data.events[3].tempo, 0);
}

#[test]
fn from_decoded_numbers_the_tracks_and_the_format() {
    let tracks = vec![
        vec![voice(3, 2, ChannelMessage::NoteOn { key: 1, vel: 1 })],
        vec![plain(9, DecodedKind::MetaEndOfTrack)],
    ];
    let file = MidiFile::from_decoded(Format::Sequential, metrical(), &tracks);
    assert_eq!(file.format, 2);
    assert_eq!(file.tracks[0].name, "Track 1");
    assert_eq!(file.tracks[1].name, "Track 2");
    assert_eq!(file.tracks[0].channel_mask, 4);
    assert_eq!(MidiFile::from_decoded(Format::SingleTrack, metrical(), &Vec::new()).format, 0);
    assert_eq!(MidiFile::from_decoded(Format::Parallel, metrical(), &Vec::new()).format, 1);
}

#[test]
fn duration_is_the_latest_end_of_a_track() {
    let file = MidiFile::from_bytes(&sample_file()).unwrap();
    assert_eq!(file.get_duration_ticks(), 384);
    let empty = MidiFile { tracks: Vec::new(), timing: metrical(), format: 1 };
    assert_eq!(empty.get_duration_ticks(), 0);
    let hollow = MidiFile {
        tracks: vec![TrackData {
            events: Vec::<AbsoluteEvent>::new(),
            name: String::new(),
            instrument: None,
            channel_mask: 0,
        }],
        timing: metrical(),
        format: 1,
    };
    assert_eq!(hollow.get_duration_ticks(), 0);
}

#[test]
fn files_live_behind_their_handles() {
    let mut registry = FileRegistry::new();
    let first = load_midi_file(&mut registry, &sample_file()).unwrap();
    let second = load_midi_file(&mut registry, &sample_file()).unwrap();
    assert_eq!((first, second), (1, 2));
    assert_eq!(get_midi_file(&registry, first).unwrap().tracks.len(), 2);
    assert!(get_midi_file(&registry, 3).is_none());
    assert!(get_midi_file(&registry, 0).is_none());
    assert!(get_midi_file(&registry, -1).is_none());
    assert!(close_midi_file(&mut registry, first));
    assert!(!close_midi_file(&mut registry, first));
    assert!(get_midi_file(&registry, first).is_none());
    assert!(get_midi_file(&registry, second).is_some());
    assert_eq!(load_midi_file(&mut registry, &sample_file()), Ok(3));
}

#[test]
fn a_failed_load_spends_no_handle() {
    let mut registry = FileRegistry::new();
    assert_eq!(load_midi_file(&mut registry, b"junk"), Err(MidiError::DecodeFailure));
    assert_eq!(load_midi_file(&mut registry, &sample_file()), Ok(1));
}

#[test]
fn from_bytes_tells_every_kind_of_event_apart() {
    let mut bytes = chunk(b"MThd", &[0x00, 0x02, 0x00, 0x01, 0xE3, 0x50]);
    let mut body: Vec<u8> = Vec::new();
    body.extend_from_slice(&[0x00, 0xA1, 0x3C, 0x50]);
    body.extend_from_slice(&[0x01, 0xB2, 0x07, 0x64]);
    body.extend_from_slice(&[0x01, 0xD3, 0x22]);
    body.extend_from_slice(&[0x01, 0xFF, 0x01, 0x02, b'h', b'i']);
    body.extend_from_slice(&[0x01, 0xFF, 0x02, 0x01, b'c']);
    body.extend_from_slice(&[0x01, 0xFF, 0x05, 0x01, b'l']);
    body.extend_from_slice(&[0x01, 0xFF, 0x06, 0x01, b'm']);
    body.extend_from_slice(&[0x01, 0xFF, 0x07, 0x01, b'q']);
    body.extend_from_slice(&[0x01, 0xF7, 0x02, 0xAA, 0xBB]);
    body.extend_from_slice(&[0x01, 0xFF, 0x7F, 0x01, 0x00]);
    body.extend_from_slice(&[0x01, 0xFF, 0x20, 0x01, 0x05]);
    body.extend_from_slice(&[0x01, 0xFF, 0x2F, 0x00]);
    bytes.extend_from_slice(&chunk(b"MTrk", &body));
    let file = MidiFile::from_bytes(&bytes).unwrap();
    assert_eq!(file.format, 2);
    assert_eq!(file.timing, Timing::Timecode { frames_per_second: 29, ticks_per_frame: 80 });
    let seen: Vec<(u32, EventType, u8, u8, u8, &str)> = file.tracks[0]
        .events
        .iter()
        .map(|e| (e.absolute_time, e.event_type, e.channel, e.data1, e.data2, e.text.as_str()))
        .collect();
    assert_eq!(
        seen,
        vec![
            (0, EventType::PolyphonicAftertouch, 1, 60, 80, ""),
            (1, EventType::ControlChange, 2, 7, 100, ""),
            (2, EventType::ChannelAftertouch, 3, 34, 0, ""),
            (3, EventType::MetaText, 0, 0, 0, "hi"),
            (4, EventType::MetaCopyright, 0, 0, 0, "c"),
            (5, EventType::MetaLyric, 0, 0, 0, "l"),
            (6, EventType::MetaMarker, 0, 0, 0, "m"),
            (7, EventType::MetaCuePoint, 0, 0, 0, "q"),
            (8, EventType::SystemExclusive, 0, 0, 0, "Escape Sequence"),
            (9, EventType::Unknown, 0, 0, 0, "Unknown Meta Event"),
            (10, EventType::Unknown, 0, 0, 0, "Unknown Meta Event"),
            (11, EventType::MetaEndOfTrack, 0, 0, 0, "End of Track"),
        ]
    );
    assert_eq!(file.tracks[0].channel_mask, 0b1110);
    assert_eq!(file.tracks[0].name, "Track 1");
}

#[test]
fn a_header_that_the_decoder_cannot_take_is_a_decode_failure() {
    let mut bytes = chunk(b"MThd", &[0x00, 0x00, 0x00, 0x01, 0x80, 0x00]);
    bytes.extend_from_slice(&chunk(b"MTrk", &[0x00, 0xFF, 0x2F, 0x00]));
    assert!(has_timing_hazard(&bytes));
    assert_eq!(MidiFile::from_bytes(&bytes).err(), Some(MidiError::DecodeFailure));
    let mut registry = FileRegistry::new();
    assert_eq!(load_midi_file(&mut registry, &bytes), Err(MidiError::DecodeFailure));
    assert_eq!(load_midi_file(&mut registry, &sample_file()), Ok(1));
    let empty_header = [chunk(b"MThd", &[]), chunk(b"junk", &[1, 2, 3])].concat();
    assert!(!has_timing_hazard(&empty_header));
    let sequential = chunk(b"MThd", &[0x00, 0x02, 0x00, 0x01, 0x80, 0x28]);
    assert!(has_timing_hazard(&sequential));
    assert_eq!(MidiFile::from_bytes(&sequential).err(), Some(MidiError::DecodeFailure));
}

#[test]
fn the_hazard_is_found_only_where_the_decoder_reads_the_timing() {
    assert!(!has_timing_hazard(&[]));
    assert!(!has_timing_hazard(b"MThd"));
    assert!(!has_timing_hazard(&sample_file()));
    let short = chunk(b"MThd", &[0x00, 0x00, 0x00, 0x01, 0x80]);
    assert!(!has_timing_hazard(&short));
    assert_eq!(MidiFile::from_bytes(&short).err(), Some(MidiError::DecodeFailure));
    let bad_format = chunk(b"MThd", &[0x00, 0x03, 0x00, 0x01, 0x80, 0x00]);
    assert!(!has_timing_hazard(&bad_format));
    assert_eq!(MidiFile::from_bytes(&bad_format).err(), Some(MidiError::DecodeFailure));
    let other_byte = chunk(b"MThd", &[0x00, 0x00, 0x00, 0x01, 0x81, 0x00]);
    assert!(!has_timing_hazard(&other_byte));
    assert_eq!(MidiFile::from_bytes(&other_byte).err(), Some(MidiError::DecodeFailure));
    let low_byte = chunk(b"MThd", &[0x00, 0x00, 0x00, 0x01, 0x00, 0x80]);
    assert!(!has_timing_hazard(&low_byte));
    assert!(MidiFile::from_bytes(&low_byte).is_ok());
    let mut track_first = chunk(b"MTrk", &[0x00, 0xFF, 0x2F, 0x00]);
    track_first.extend_from_slice(&chunk(b"MThd", &[0x00, 0x00, 0x00, 0x01, 0x80, 0x00]));
    assert!(!has_timing_hazard(&track_first));
    let not_midi = chunk(b"abcd", &[0x00, 0x00, 0x00, 0x01, 0x80, 0x00]);
    assert!(!has_timing_hazard(&not_midi));
    let overlong = [b"MThd".as_slice(), &[0xFF, 0xFF, 0xFF, 0xFF, 0, 1, 0, 1, 0x80, 0]].concat();
    assert!(has_timing_hazard(&overlong));
    assert_eq!(MidiFile::from_bytes(&overlong).err(), Some(MidiError::DecodeFailure));
}

fn riff_chunk(tag: &[u8], body: &[u8]) -> Vec<u8> {
    let mut out = tag.to_vec();
    out.extend_from_slice(&(body.len() as u32).to_le_bytes());
    out.extend_from_slice(body);
    if body.len() % 2 == 1 {
        out.push(0);
    }
    out
}

fn riff_file(midi: &[u8]) -> Vec<u8> {
    let mut form = b"RMID".to_vec();
    form.extend_from_slice(&riff_chunk(b"LIST", &[1, 2, 3]));
    form.extend_from_slice(&riff_chunk(b"data", midi));
    riff_chunk(b"RIFF", &form)
}

#[test]
fn a_file_inside_a_riff_wrapper_is_read() {
    let wrapped = riff_file(&sample_file());
    assert!(!has_timing_hazard(&wrapped));
    let file = MidiFile::from_bytes(&wrapped).unwrap();
    assert_eq!(file.tracks.len(), 2);
    assert_eq!(file.tracks[0].name, "Tempo");
    let mut inner = chunk(b"skip", &[9]);
    inner.extend_from_slice(&chunk(b"MThd", &[0x00, 0x01, 0x00, 0x00, 0x80, 0x00]));
    let hazard = riff_file(&inner);
    assert!(has_timing_hazard(&hazard));
    assert_eq!(MidiFile::from_bytes(&hazard).err(), Some(MidiError::DecodeFailure));
    let mut no_data = b"RMID".to_vec();
    no_data.extend_from_slice(&riff_chunk(b"LIST", &sample_file()));
    let no_data = riff_chunk(b"RIFF", &no_data);
    assert!(!has_timing_hazard(&no_data));
    assert_eq!(MidiFile::from_bytes(&no_data).err(), Some(MidiError::DecodeFailure));
    let mut wrong_form = b"WAVE".to_vec();
    wrong_form.extend_from_slice(&riff_chunk(b"data", &chunk(b"MThd", &[0, 0, 0, 1, 0x80, 0])));
    assert!(!has_timing_hazard(&riff_chunk(b"RIFF", &wrong_form)));
}

#[test]
fn data_bytes_of_a_file_have_seven_bits() {
    let file = MidiFile::from_bytes(&sample_file()).unwrap();
    for track in &file.tracks {
        for event in &track.events {
            assert!(event.channel <= 15 && event.data1 <= 127 && event.data2 <= 127);
        }
    }
}

#[test]
fn decode_keeps_every_kind_of_meta_event_apart() {
    let mut bytes = chunk(b"MThd", &[0x00, 0x01, 0x00, 0x01, 0x00, 0x60]);
    let mut body: Vec<u8> = Vec::new();
    body.extend_from_slice(&[0x00, 0xFF, 0x00, 0x02, 0x00, 0x05]);
    body.extend_from_slice(&[0x01, 0xFF, 0x00, 0x00]);
    body.extend_from_slice(&[0x01, 0xFF, 0x20, 0x01, 0x03]);
    body.extend_from_slice(&[0x01, 0xFF, 0x21, 0x01, 0x02]);
    body.extend_from_slice(&[0x01, 0xFF, 0x54, 0x05, 0x21, 0x02, 0x03, 0x04, 0x05]);
    body.extend_from_slice(&[0x01, 0xFF, 0x7F, 0x02, 0xAA, 0xBB]);
    body.extend_from_slice(&[0x01, 0xFF, 0x60, 0x01, 0x09]);
    body.extend_from_slice(&[0x01, 0xFF, 0x08, 0x02, b'p', b'n']);
    body.extend_from_slice(&[0x01, 0xFF, 0x09, 0x01, b'd']);
    body.extend_from_slice(&[0x01, 0xFF, 0x51, 0x03, 0x01, 0x02, 0x03]);
    body.extend_from_slice(&[0x01, 0xE5, 0x7F, 0x7F]);
    body.extend_from_slice(&[0x01, 0xFF, 0x2F, 0x00]);
    bytes.extend_from_slice(&chunk(b"MTrk", &body));
    let (format, timing, tracks) = MidiFile::decode(&bytes).unwrap();
    assert_eq!(format, Format::Parallel);
    assert_eq!(timing, Timing::Metrical { ticks_per_quarter_note: 0x60 });
    assert_eq!(tracks.len(), 1);
    let seen: Vec<(u32, DecodedKind, Vec<u8>)> =
        tracks[0].iter().map(|e| (e.delta, e.kind, e.payload.clone())).collect();
    assert_eq!(
        seen,
        vec![
            (0, DecodedKind::MetaTrackNumber(Some(5)), vec![]),
            (1, DecodedKind::MetaTrackNumber(None), vec![]),
            (1, DecodedKind::MetaMidiChannel(3), vec![]),
            (1, DecodedKind::MetaMidiPort(2), vec![]),
            (
                1,
                DecodedKind::MetaSmpteOffset {
                    hour: 1,
                    minute: 2,
                    second: 3,
                    frame: 4,
                    subframe: 5,
                    frames_per_second: 25,
                },
                vec![]
            ),
            (1, DecodedKind::MetaSequencerSpecific, vec![0xAA, 0xBB]),
            (1, DecodedKind::MetaUnknown(0x60), vec![0x09]),
            (1, DecodedKind::MetaText(TextKind::ProgramName), b"pn".to_vec()),
            (1, DecodedKind::MetaText(TextKind::DeviceName), b"d".to_vec()),
            (1, DecodedKind::MetaTempo(0x010203), vec![]),
            (
                1,
                DecodedKind::Midi { channel: 5, message: ChannelMessage::PitchBend { bend: 16383 } },
                vec![]
            ),
            (1, DecodedKind::MetaEndOfTrack, vec![]),
        ]
    );
    let file = MidiFile::from_bytes(&bytes).unwrap();
    for event in &file.tracks[0].events[..9] {
        assert_eq!(event.event_type, EventType::Unknown);
        assert_eq!(event.text, "Unknown Meta Event");
        assert_eq!((event.channel, event.data1, event.data2, event.tempo), (0, 0, 0, 0));
    }
    assert_eq!(file.tracks[0].name, "Track 1");
    assert_eq!(MidiFile::decode(b"nothing").err(), Some(MidiError::DecodeFailure));
}

#[test]
fn the_other_meta_events_are_unknown_to_the_model() {
    let track = vec![
        plain(0, DecodedKind::MetaTrackNumber(Some(1))),
        plain(0, DecodedKind::MetaMidiChannel(1)),
        plain(0, DecodedKind::MetaMidiPort(1)),
        plain(
            0,
            DecodedKind::MetaSmpteOffset {
                hour: 0,
                minute: 0,
                second: 0,
                frame: 0,
                subframe: 0,
                frames_per_second: 24,
            },
        ),
        with_payload(0, DecodedKind::MetaSequencerSpecific, &[1]),
        with_payload(0, DecodedKind::MetaUnknown(0x7E), &[1, 2]),
        with_payload(0, DecodedKind::MetaText(TextKind::ProgramName), b"Lead"),
        with_payload(0, DecodedKind::MetaText(TextKind::DeviceName), b"Rack"),
    ];
    let data = MidiFile::process_track(&track, 0, metrical());
    for event in &data.events {
        assert_eq!(event.event_type, EventType::Unknown);
        assert_eq!(event.text, "Unknown Meta Event");
    }
    assert_eq!(data.name, "Track 1");
    assert_eq!(data.instrument, None);
}

#[test]
fn the_last_track_that_a_machine_can_number_has_a_name() {
    let data = MidiFile::process_track(&Vec::new(), usize::MAX, metrical());
    assert_eq!(data.name, format!("Track {}", usize::MAX as u128 + 1));
}
