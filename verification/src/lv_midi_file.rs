//! What a host asks of loaded files: their header, their tracks, their
//! events and the time at which an event sounds.

use crate::error::MidiError;
use crate::midi_file::{
    close_midi_file, decodable, get_midi_file, load_midi_file, normalized_file, AbsoluteEvent, EventType,
    FileRegistry, MidiFile,
};
use crate::names::{control_name, get_control_name};
use crate::smf::{smf_decoding, Timing};
use crate::tempo::{millis_of, Millis, DEFAULT_TEMPO};
use vstd::prelude::*;

verus! {

/// The header of a file and its length.
#[derive(Debug, Clone, Copy, PartialEq, Eq, Structural)]
pub struct MidiFileInfo {
    pub format: u16,
    pub track_count: usize,
    pub timing: Timing,
    pub duration_ticks: u32,
}

/// The size of a track and what it declares.
#[derive(Debug, Clone, Copy, PartialEq, Eq, Structural)]
pub struct TrackInfo {
    pub track_index: usize,
    pub event_count: usize,
    pub channel_mask: u16,
    pub has_name: bool,
    pub has_instrument: bool,
}

/// One event as a host sees it: its tick and the milliseconds that the
/// tick stands for, its type and data, and whether it has a text.
#[derive(Debug, Clone, Copy, PartialEq, Eq, Structural)]
pub struct MidiFileEvent {
    pub absolute_time: u32,
    pub millis: Millis,
    pub event_type: EventType,
    pub channel: u8,
    pub data1: u8,
    pub data2: u8,
    pub has_text: bool,
}

/// The milliseconds that a tick of a file stands for, as a fraction.
pub open spec fn millis_at(file: MidiFile, ticks: u32, tempo_override: Option<u32>) -> Millis {
    let fraction = millis_of(
        file@.tracks,
        file.timing,
        ticks,
        match tempo_override {
            Some(tempo) => tempo,
            None => DEFAULT_TEMPO,
        },
    );
    Millis { numerator: fraction.0 as u64, denominator: fraction.1 as u64 }
}

/// Whether `ticks` is the length of a file: the largest absolute time at
/// which a track ends, zero where no track holds an event.
pub open spec fn is_duration(file: MidiFile, ticks: u32) -> bool {
    &&& forall|i: int|
        0 <= i < file.tracks.len() && (#[trigger] file.tracks[i]).events.len() > 0
            ==> file.tracks[i].events@.last().absolute_time <= ticks
    &&& ticks == 0 || exists|i: int|
        0 <= i < file.tracks.len() && (#[trigger] file.tracks[i]).events.len() > 0
            && file.tracks[i].events@.last().absolute_time == ticks
}

/// The event at `index` of a track as a host sees it.
pub open spec fn file_event(file: MidiFile, track: int, index: int) -> MidiFileEvent {
    let event = file.tracks[track].events[index];
    MidiFileEvent {
        absolute_time: event.absolute_time,
        millis: millis_at(file, event.absolute_time, None),
        event_type: event.event_type,
        channel: event.channel,
        data1: event.data1,
        data2: event.data2,
        has_text: event.text@.len() > 0,
    }
}

/// Whether an index given by a host lies within `len` items.
pub open spec fn index_ok(index: i32, len: nat) -> bool {
    0 <= index < len
}

/// Why a request that names a track of a file fails, if it does: an
/// unknown handle gives `InvalidHandle`, a track index outside the file
/// `IndexOutOfRange`.
pub open spec fn track_refusal(registry: FileRegistry, handle: i32, track_index: i32) -> Option<
    MidiError,
> {
    if !registry.files().contains_key(handle) {
        Some(MidiError::InvalidHandle)
    } else if !index_ok(track_index, registry.files()[handle].tracks@.len()) {
        Some(MidiError::IndexOutOfRange)
    } else {
        None
    }
}

/// Why a request that names an event of a track fails, if it does: as for
/// the track, and `IndexOutOfRange` for an event index outside the track.
pub open spec fn event_refusal(
    registry: FileRegistry,
    handle: i32,
    track_index: i32,
    event_index: i32,
) -> Option<MidiError> {
    if track_refusal(registry, handle, track_index) is Some {
        track_refusal(registry, handle, track_index)
    } else if !index_ok(
        event_index,
        registry.files()[handle].tracks[track_index as int].events@.len(),
    ) {
        Some(MidiError::IndexOutOfRange)
    } else {
        None
    }
}

/// Loads a file from its bytes, as `load_midi_file` does.
pub fn midi_file_open(registry: &mut FileRegistry, data: &[u8]) -> (r: Result<i32, MidiError>)
    requires
        old(registry).wf(),
        old(registry).next_handle() < i32::MAX,
    ensures
        final(registry).wf(),
        match r {
            Ok(handle) => {
                &&& decodable(data@)
                &&& handle == old(registry).next_handle()
                &&& final(registry).next_handle() == handle + 1
                &&& final(registry).files().dom() == old(registry).files().dom().insert(handle)
                &&& final(registry).files()[handle]@ == normalized_file(
                    smf_decoding(data@)->Some_0,
                )
                &&& forall|h: i32|
                    old(registry).files().contains_key(h) ==> final(registry).files()[h] == old(registry).files()[h]
            },
            Err(e) => e == MidiError::DecodeFailure && !decodable(data@) && final(registry).next_handle() == old(registry).next_handle() && final(registry).files() == old(registry).files(),
        },
{
    load_midi_file(registry, data)
}

/// Closes a file. An unknown handle gives `InvalidHandle` and changes
/// nothing.
pub fn midi_file_close(registry: &mut FileRegistry, handle: i32) -> (r: Result<(), MidiError>)
    requires
        old(registry).wf(),
    ensures
        final(registry).wf(),
        final(registry).next_handle() == old(registry).next_handle(),
        final(registry).files() == old(registry).files().remove(handle),
        r == if old(registry).files().contains_key(handle) {
            Ok::<(), MidiError>(())
        } else {
            Err::<(), MidiError>(MidiError::InvalidHandle)
        },
{
    if close_midi_file(registry, handle) {
        Ok(())
    } else {
        Err(MidiError::InvalidHandle)
    }
}

/// The header of a file and its length in ticks.
pub fn midi_file_get_info(registry: &FileRegistry, handle: i32) -> (r: Result<
    MidiFileInfo,
    MidiError,
>)
    ensures
        match r {
            Ok(info) => {
                let file = registry.files()[handle];
                &&& registry.files().contains_key(handle)
                &&& info.format == file.format
                &&& info.track_count == file.tracks.len()
                &&& info.timing == file.timing
                &&& is_duration(file, info.duration_ticks)
            },
            Err(e) => e == MidiError::InvalidHandle && !registry.files().contains_key(handle),
        },
{
    match get_midi_file(registry, handle) {
        None => Err(MidiError::InvalidHandle),
        Some(file) => Ok(
            MidiFileInfo {
                format: file.format,
                track_count: file.tracks.len(),
                timing: file.timing,
                duration_ticks: file.get_duration_ticks(),
            },
        ),
    }
}

/// The size of a track and what it declares. A track has a name when its
/// name is not empty.
pub fn midi_file_get_track_info(registry: &FileRegistry, handle: i32, track_index: i32) -> (r:
    Result<TrackInfo, MidiError>)
    ensures
        match r {
            Ok(info) => {
                let track = registry.files()[handle].tracks[track_index as int];
                &&& track_refusal(*registry, handle, track_index) is None
                &&& info.track_index == track_index
                &&& info.event_count == track.events.len()
                &&& info.channel_mask == track.channel_mask
                &&& info.has_name == (track.name@.len() > 0)
                &&& info.has_instrument == track.instrument is Some
            },
            Err(e) => track_refusal(*registry, handle, track_index) == Some(e),
        },
{
    let file = match get_midi_file(registry, handle) {
        None => {
            return Err(MidiError::InvalidHandle);
        },
        Some(file) => file,
    };
    if track_index < 0 || track_index as usize >= file.tracks.len() {
        return Err(MidiError::IndexOutOfRange);
    }
    let track = &file.tracks[track_index as usize];
    Ok(
        TrackInfo {
            track_index: track_index as usize,
            event_count: track.events.len(),
            channel_mask: track.channel_mask,
            has_name: !text_is_empty(&track.name),
            has_instrument: track.instrument.is_some(),
        },
    )
}

/// Whether a text holds no character.
fn text_is_empty(text: &String) -> (r: bool)
    ensures
        r == (text@.len() == 0),
{
    text.as_str().is_empty()
}

/// The name of a track; `NotPresent` where the name is empty.
pub fn midi_file_get_track_name(registry: &FileRegistry, handle: i32, track_index: i32) -> (r:
    Result<String, MidiError>)
    ensures
        match r {
            Ok(name) => {
                let track = registry.files()[handle].tracks[track_index as int];
                &&& track_refusal(*registry, handle, track_index) is None
                &&& name@ == track.name@
                &&& name@.len() > 0
            },
            Err(e) => match track_refusal(*registry, handle, track_index) {
                Some(refusal) => e == refusal,
                None => e == MidiError::NotPresent && registry.files()[handle].tracks[track_index as int].name@.len()
                    == 0,
            },
        },
{
    let file = match get_midi_file(registry, handle) {
        None => {
            return Err(MidiError::InvalidHandle);
        },
        Some(file) => file,
    };
    if track_index < 0 || track_index as usize >= file.tracks.len() {
        return Err(MidiError::IndexOutOfRange);
    }
    let track = &file.tracks[track_index as usize];
    if text_is_empty(&track.name) {
        Err(MidiError::NotPresent)
    } else {
        Ok(track.name.clone())
    }
}

/// The instrument of a track; `NotPresent` where the track names none.
pub fn midi_file_get_track_instrument(registry: &FileRegistry, handle: i32, track_index: i32) -> (r:
    Result<String, MidiError>)
    ensures
        match r {
            Ok(name) => {
                let track = registry.files()[handle].tracks[track_index as int];
                &&& track_refusal(*registry, handle, track_index) is None
                &&& track.instrument matches Some(instrument)
                &&& name@ == instrument@
            },
            Err(e) => match track_refusal(*registry, handle, track_index) {
                Some(refusal) => e == refusal,
                None => e == MidiError::NotPresent && registry.files()[handle].tracks[track_index as int].instrument is None,
            },
        },
{
    let file = match get_midi_file(registry, handle) {
        None => {
            return Err(MidiError::InvalidHandle);
        },
        Some(file) => file,
    };
    if track_index < 0 || track_index as usize >= file.tracks.len() {
        return Err(MidiError::IndexOutOfRange);
    }
    match &file.tracks[track_index as usize].instrument {
        Some(instrument) => Ok(instrument.clone()),
        None => Err(MidiError::NotPresent),
    }
}

/// The number of events of a track.
pub fn midi_file_get_event_count(registry: &FileRegistry, handle: i32, track_index: i32) -> (r:
    Result<usize, MidiError>)
    ensures
        match r {
            Ok(count) => track_refusal(*registry, handle, track_index) is None && count
                == registry.files()[handle].tracks[track_index as int].events.len(),
            Err(e) => track_refusal(*registry, handle, track_index) == Some(e),
        },
{
    let file = match get_midi_file(registry, handle) {
        None => {
            return Err(MidiError::InvalidHandle);
        },
        Some(file) => file,
    };
    if track_index < 0 || track_index as usize >= file.tracks.len() {
        return Err(MidiError::IndexOutOfRange);
    }
    Ok(file.tracks[track_index as usize].events.len())
}

/// An event of a file as a host sees it.
fn host_event(file: &MidiFile, track: usize, index: usize) -> (r: MidiFileEvent)
    requires
        track < file.tracks.len(),
        index < file.tracks[track as int].events.len(),
    ensures
        r == file_event(*file, track as int, index as int),
{
    let event = &file.tracks[track].events[index];
    MidiFileEvent {
        absolute_time: event.absolute_time,
        millis: file.ticks_to_ms(event.absolute_time, None),
        event_type: event.event_type,
        channel: event.channel,
        data1: event.data1,
        data2: event.data2,
        has_text: !text_is_empty(&event.text),
    }
}

/// One event of a track, with the milliseconds of its tick.
pub fn midi_file_get_event(
    registry: &FileRegistry,
    handle: i32,
    track_index: i32,
    event_index: i32,
) -> (r: Result<MidiFileEvent, MidiError>)
    ensures
        match r {
            Ok(event) => event_refusal(*registry, handle, track_index, event_index) is None
                && event == file_event(
                registry.files()[handle],
                track_index as int,
                event_index as int,
            ),
            Err(e) => event_refusal(*registry, handle, track_index, event_index) == Some(e),
        },
{
    let file = match get_midi_file(registry, handle) {
        None => {
            return Err(MidiError::InvalidHandle);
        },
        Some(file) => file,
    };
    if track_index < 0 || track_index as usize >= file.tracks.len() {
        return Err(MidiError::IndexOutOfRange);
    }
    let track = &file.tracks[track_index as usize];
    if event_index < 0 || event_index as usize >= track.events.len() {
        return Err(MidiError::IndexOutOfRange);
    }
    Ok(host_event(file, track_index as usize, event_index as usize))
}

/// The text of an event; `NotPresent` where the event has none.
pub fn midi_file_get_event_text(
    registry: &FileRegistry,
    handle: i32,
    track_index: i32,
    event_index: i32,
) -> (r: Result<String, MidiError>)
    ensures
        match r {
            Ok(text) => {
                let event = registry.files()[handle].tracks[track_index as int].events[event_index as int];
                &&& event_refusal(*registry, handle, track_index, event_index) is None
                &&& text@ == event.text@
                &&& text@.len() > 0
            },
            Err(e) => match event_refusal(*registry, handle, track_index, event_index) {
                Some(refusal) => e == refusal,
                None => e == MidiError::NotPresent && registry.files()[handle].tracks[track_index as int].events[event_index as int].text@.len()
                    == 0,
            },
        },
{
    let file = match get_midi_file(registry, handle) {
        None => {
            return Err(MidiError::InvalidHandle);
        },
        Some(file) => file,
    };
    if track_index < 0 || track_index as usize >= file.tracks.len() {
        return Err(MidiError::IndexOutOfRange);
    }
    let track = &file.tracks[track_index as usize];
    if event_index < 0 || event_index as usize >= track.events.len() {
        return Err(MidiError::IndexOutOfRange);
    }
    let event = &track.events[event_index as usize];
    if text_is_empty(&event.text) {
        Err(MidiError::NotPresent)
    } else {
        Ok(event.text.clone())
    }
}

/// The indices, among the first `n` events, of those whose tick lies
/// between `start_tick` and `end_tick`, both included, in their order.
pub open spec fn indices_in_range(
    events: Seq<AbsoluteEvent>,
    n: int,
    start_tick: u32,
    end_tick: u32,
) -> Seq<int>
    decreases n,
{
    if n <= 0 {
        Seq::empty()
    } else if start_tick <= events[n - 1].absolute_time <= end_tick {
        indices_in_range(events, n - 1, start_tick, end_tick).push(n - 1)
    } else {
        indices_in_range(events, n - 1, start_tick, end_tick)
    }
}

/// The events of a track whose tick lies between `start_tick` and
/// `end_tick`, both included, in their order; the first `capacity` of
/// them where there are more.
pub fn midi_file_get_events_in_range(
    registry: &FileRegistry,
    handle: i32,
    track_index: i32,
    start_tick: u32,
    end_tick: u32,
    capacity: usize,
) -> (r: Result<Vec<MidiFileEvent>, MidiError>)
    ensures
        match r {
            Ok(batch) => {
                let file = registry.files()[handle];
                let events = file.tracks[track_index as int].events@;
                let found = indices_in_range(events, events.len() as int, start_tick, end_tick);
                &&& track_refusal(*registry, handle, track_index) is None
                &&& batch.len() == if found.len() <= capacity {
                    found.len()
                } else {
                    capacity as nat
                }
                &&& forall|k: int|
                    0 <= k < batch.len() ==> #[trigger] batch[k] == file_event(
                        file,
                        track_index as int,
                        found[k],
                    )
            },
            Err(e) => track_refusal(*registry, handle, track_index) == Some(e),
        },
{
    let file = match get_midi_file(registry, handle) {
        None => {
            return Err(MidiError::InvalidHandle);
        },
        Some(file) => file,
    };
    if track_index < 0 || track_index as usize >= file.tracks.len() {
        return Err(MidiError::IndexOutOfRange);
    }
    let track = &file.tracks[track_index as usize];
    let ghost events = track.events@;
    let mut batch: Vec<MidiFileEvent> = Vec::new();
    let mut i: usize = 0;
    while i < track.events.len()
        invariant
            i <= track.events.len(),
            events == track.events@,
            0 <= track_index < file.tracks.len(),
            *track == file.tracks[track_index as int],
            batch.len() <= capacity,
            batch.len() == if indices_in_range(events, i as int, start_tick, end_tick).len()
                <= capacity {
                indices_in_range(events, i as int, start_tick, end_tick).len()
            } else {
                capacity as nat
            },
            forall|k: int|
                0 <= k < indices_in_range(events, i as int, start_tick, end_tick).len() ==> 0
                    <= #[trigger] indices_in_range(events, i as int, start_tick, end_tick)[k] < i,
            forall|k: int|
                0 <= k < batch.len() ==> #[trigger] batch[k] == file_event(
                    *file,
                    track_index as int,
                    indices_in_range(events, i as int, start_tick, end_tick)[k],
                ),
        decreases track.events.len() - i,
    {
        let tick = track.events[i].absolute_time;
        if start_tick <= tick && tick <= end_tick && batch.len() < capacity {
            let event = host_event(file, track_index as usize, i);
            batch.push(event);
        }
        i += 1;
    }
    Ok(batch)
}

/// The tempo override that a host names: none where it names zero
/// microseconds per quarter note, else the tempo that it names.
pub open spec fn tempo_override_of(tempo_us_per_quarter: u32) -> Option<u32> {
    if tempo_us_per_quarter == 0 {
        None
    } else {
        Some(tempo_us_per_quarter)
    }
}

/// The milliseconds from tick zero to `ticks` in a file. A tempo of zero
/// asks for the default tempo before the first tempo change; another
/// tempo takes its place.
pub fn midi_file_ticks_to_ms(
    registry: &FileRegistry,
    handle: i32,
    ticks: u32,
    tempo_us_per_quarter: u32,
) -> (r: Result<Millis, MidiError>)
    ensures
        r == if registry.files().contains_key(handle) {
            Ok::<Millis, MidiError>(
                millis_at(registry.files()[handle], ticks, tempo_override_of(tempo_us_per_quarter)),
            )
        } else {
            Err::<Millis, MidiError>(MidiError::InvalidHandle)
        },
{
    let tempo_override = if tempo_us_per_quarter == 0 {
        None
    } else {
        Some(tempo_us_per_quarter)
    };
    match get_midi_file(registry, handle) {
        None => Err(MidiError::InvalidHandle),
        Some(file) => Ok(file.ticks_to_ms(ticks, tempo_override)),
    }
}

/// The name of the event type that a number stands for; "Unknown" for a
/// number that stands for none.
pub fn midi_file_get_event_type_name(event_type: i32) -> (r: &'static str)
    ensures
        r@ == match EventType::spec_from_code(event_type) {
            Some(known) => known.spec_name(),
            None => EventType::Unknown.spec_name(),
        },
{
    match EventType::from_code(event_type) {
        Some(known) => known.name(),
        None => EventType::Unknown.name(),
    }
}

/// The identifier of an event: the low eight bits of the file handle, the
/// low eight bits of the track index and the low sixteen bits of the
/// event index, from the highest byte down.
pub open spec fn event_uid(file_handle: i32, track_index: i32, event_index: i32) -> u32 {
    (((file_handle as u32) & 0xFF) << 24) | (((track_index as u32) & 0xFF) << 16) | ((
    event_index as u32) & 0xFFFF)
}

/// The identifier of an event.
pub fn generate_event_uid(file_handle: i32, track_index: i32, event_index: i32) -> (r: u32)
    ensures
        r == event_uid(file_handle, track_index, event_index),
{
    let file_part = ((file_handle as u32) & 0xFF) << 24;
    let track_part = ((track_index as u32) & 0xFF) << 16;
    let event_part = (event_index as u32) & 0xFFFF;
    file_part | track_part | event_part
}

/// The identifier of an event gives back the file handle, the track index
/// and the event index that it was made of, as long as each fits its
/// bits.
pub proof fn lemma_event_uid_decodes(file_handle: i32, track_index: i32, event_index: i32)
    requires
        0 <= file_handle < 256,
        0 <= track_index < 256,
        0 <= event_index < 65536,
    ensures
        (event_uid(file_handle, track_index, event_index) >> 24) & 0xFF == file_handle,
        (event_uid(file_handle, track_index, event_index) >> 16) & 0xFF == track_index,
        event_uid(file_handle, track_index, event_index) & 0xFFFF == event_index,
{
    let f = file_handle as u32;
    let t = track_index as u32;
    let e = event_index as u32;
    assert(((((f & 0xFF) << 24) | ((t & 0xFF) << 16) | (e & 0xFFFF)) >> 24) & 0xFF == f)
        by (bit_vector)
        requires
            f < 256,
            t < 256,
            e < 65536,
    ;
    assert(((((f & 0xFF) << 24) | ((t & 0xFF) << 16) | (e & 0xFFFF)) >> 16) & 0xFF == t)
        by (bit_vector)
        requires
            f < 256,
            t < 256,
            e < 65536,
    ;
    assert((((f & 0xFF) << 24) | ((t & 0xFF) << 16) | (e & 0xFFFF)) & 0xFFFF == e)
        by (bit_vector)
        requires
            f < 256,
            t < 256,
            e < 65536,
    ;
}

/// The name of a controller as the file tools show it: as
/// `get_control_name`, with "Sustain" for controller 64.
pub fn get_controller_name(controller: u8) -> (r: &'static str)
    ensures
        r@ == if controller == 64 {
            "Sustain"@
        } else {
            control_name(controller)
        },
{
    if controller == 64 {
        "Sustain"
    } else {
        get_control_name(controller)
    }
}

} // verus!
