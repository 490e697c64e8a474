use lv_midi::midi_file::{AbsoluteEvent, EventType, MidiFile, TrackData};
use lv_midi::smf::Timing;
use lv_midi::tempo::{elapsed_tick_micros, insert_sorted, sort_changes, Millis, TempoChange};

fn tempo_event(tick: u32, tempo: u32) -> AbsoluteEvent {
    AbsoluteEvent {
        absolute_time: tick,
        event_type: EventType::MetaSetTempo,
        channel: 0,
        data1: 0,
        data2: 0,
        text: String::new(),
        tempo,
    }
}

fn note(tick: u32) -> AbsoluteEvent {
    AbsoluteEvent {
        absolute_time: tick,
        event_type: EventType::NoteOn,
        channel: 0,
        data1: 60,
        data2: 100,
        text: String::new(),
        tempo: 0,
    }
}

fn track(events: Vec<AbsoluteEvent>) -> TrackData {
    TrackData { events, name: "Track 1".to_string(), instrument: None, channel_mask: 0 }
}

fn file(tracks: Vec<TrackData>) -> MidiFile {
    MidiFile { tracks, timing: Timing::Metrical { ticks_per_quarter_note: 384 }, format: 1 }
}

fn ms(value: Millis) -> f64 {
    value.numerator as f64 / value.denominator as f64
}

#[test]
fn default_tempo_is_120_beats_per_minute() {
    let f = file(vec![track(vec![note(0), note(384)])]);
    assert_eq!(ms(f.ticks_to_ms(384, None)), 500.0);
    assert_eq!(ms(f.ticks_to_ms(768, None)), 1000.0);
    assert_eq!(ms(f.ticks_to_ms(0, None)), 0.0);
    assert_eq!(f.ticks_to_ms(384, None), Millis { numerator: 384 * 500000, denominator: 384000 });
}

#[test]
fn tempo_change_in_the_middle_of_a_file() {
    let f = file(vec![track(vec![tempo_event(0, 500000), tempo_event(384, 600000)])]);
    assert_eq!(ms(f.ticks_to_ms(384, None)), 500.0);
    assert_eq!(ms(f.ticks_to_ms(768, None)), 1100.0);
}

#[test]
fn several_tempo_changes() {
    let f = file(vec![track(vec![tempo_event(192, 400000), note(200), tempo_event(576, 800000)])]);
    assert_eq!(ms(f.ticks_to_ms(192, None)), 250.0);
    assert_eq!(ms(f.ticks_to_ms(576, None)), 650.0);
    assert_eq!(ms(f.ticks_to_ms(768, None)), 1050.0);
}

#[test]
fn a_later_tempo_change_does_not_count() {
    let with = file(vec![track(vec![tempo_event(1000, 250000)])]);
    let without = file(vec![track(Vec::new())]);
    assert_eq!(ms(with.ticks_to_ms(384, None)), 500.0);
    assert_eq!(with.ticks_to_ms(384, None), without.ticks_to_ms(384, None));
    assert_eq!(with.ticks_to_ms(1000, None), without.ticks_to_ms(1000, None));
    assert_eq!(with.ticks_to_ms(100, None), without.ticks_to_ms(100, None));
    assert!(with.ticks_to_ms(1001, None) != without.ticks_to_ms(1001, None));
}

#[test]
fn timecode_timing_bypasses_the_tempo() {
    let mut f = file(vec![track(vec![tempo_event(0, 123456)])]);
    f.timing = Timing::Timecode { frames_per_second: 25, ticks_per_frame: 40 };
    assert_eq!(ms(f.ticks_to_ms(1000, None)), 1000.0);
    assert_eq!(ms(f.ticks_to_ms(1000, Some(1))), 1000.0);
    assert_eq!(f.ticks_to_ms(1000, None), Millis { numerator: 1000000, denominator: 1000 });
    f.timing = Timing::Timecode { frames_per_second: 29, ticks_per_frame: 2 };
    assert_eq!(f.ticks_to_ms(60, None), Millis { numerator: 60060, denominator: 60 });
    assert_eq!(ms(f.ticks_to_ms(60, None)), 1001.0);
    f.timing = Timing::Timecode { frames_per_second: 30, ticks_per_frame: 0 };
    assert_eq!(f.ticks_to_ms(60, None).denominator, 0);
}

#[test]
fn the_override_replaces_the_default_tempo_only() {
    let plain = file(vec![track(Vec::new())]);
    assert_eq!(ms(plain.ticks_to_ms(384, Some(1000000))), 1000.0);
    let changed = file(vec![track(vec![tempo_event(384, 600000)])]);
    assert_eq!(ms(changed.ticks_to_ms(768, Some(1000000))), 1600.0);
    let from_start = file(vec![track(vec![tempo_event(0, 600000)])]);
    assert_eq!(ms(from_start.ticks_to_ms(384, Some(1000000))), 600.0);
}

#[test]
fn tempo_events_of_all_tracks_are_sorted_by_tick() {
    let f = file(vec![
        track(vec![tempo_event(500, 1), tempo_event(700, 2)]),
        track(vec![tempo_event(100, 3), note(200), tempo_event(500, 4)]),
    ]);
    assert_eq!(
        f.collect_tempo_changes(),
        vec![
            TempoChange { tick: 500, tempo: 1 },
            TempoChange { tick: 700, tempo: 2 },
            TempoChange { tick: 100, tempo: 3 },
            TempoChange { tick: 500, tempo: 4 },
        ]
    );
    assert_eq!(
        f.tempo_map(),
        vec![
            TempoChange { tick: 100, tempo: 3 },
            TempoChange { tick: 500, tempo: 1 },
            TempoChange { tick: 500, tempo: 4 },
            TempoChange { tick: 700, tempo: 2 },
        ]
    );
}

#[test]
fn tempo_changes_across_tracks_are_integrated() {
    let f = file(vec![
        track(vec![tempo_event(576, 800000)]),
        track(vec![tempo_event(192, 400000)]),
    ]);
    assert_eq!(ms(f.ticks_to_ms(768, None)), 1050.0);
}

#[test]
fn sorting_keeps_the_order_of_equal_ticks() {
    let changes = vec![
        TempoChange { tick: 5, tempo: 1 },
        TempoChange { tick: 5, tempo: 2 },
        TempoChange { tick: 1, tempo: 3 },
        TempoChange { tick: 5, tempo: 4 },
    ];
    assert_eq!(
        sort_changes(&changes),
        vec![
            TempoChange { tick: 1, tempo: 3 },
            TempoChange { tick: 5, tempo: 1 },
            TempoChange { tick: 5, tempo: 2 },
            TempoChange { tick: 5, tempo: 4 },
        ]
    );
    let mut map = Vec::new();
    insert_sorted(&mut map, TempoChange { tick: 9, tempo: 1 });
    insert_sorted(&mut map, TempoChange { tick: 3, tempo: 2 });
    assert_eq!(map, vec![TempoChange { tick: 3, tempo: 2 }, TempoChange { tick: 9, tempo: 1 }]);
}

#[test]
fn elapsed_time_at_the_limits() {
    let map = vec![TempoChange { tick: 0, tempo: u32::MAX }];
    assert_eq!(elapsed_tick_micros(&map, u32::MAX, 0), (u32::MAX as u64) * (u32::MAX as u64));
    assert_eq!(elapsed_tick_micros(&Vec::new(), 10, 7), 70);
    let at_target = vec![TempoChange { tick: 10, tempo: 1000 }];
    assert_eq!(elapsed_tick_micros(&at_target, 10, 7), 70);
    assert_eq!(elapsed_tick_micros(&at_target, 11, 7), 1070);
}
