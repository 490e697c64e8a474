//! The decoded form of a Standard MIDI File: what the decoder found, as
//! plain values, before any normalisation.

use crate::header::timing_hazard;
use midly::{MetaMessage, MidiMessage, TrackEventKind};
use vstd::prelude::*;

verus! {

/// How the tracks of a file relate to each other.
#[derive(Clone, Copy, Debug, PartialEq, Eq, Structural)]
pub enum Format {
    SingleTrack,
    Parallel,
    Sequential,
}

/// The time base that the header of a file declares.
#[derive(Clone, Copy, Debug, PartialEq, Eq, Structural)]
pub enum Timing {
    /// Ticks per quarter note; the length of a tick follows the tempo.
    Metrical { ticks_per_quarter_note: u16 },
    /// Ticks per frame at a fixed frame rate. A rate of 29 stands for the
    /// drop-frame rate of 30000/1001 frames per second.
    Timecode { frames_per_second: u8, ticks_per_frame: u8 },
}

/// A channel-voice message with its data bytes.
#[derive(Clone, Copy, Debug, PartialEq, Eq, Structural)]
pub enum ChannelMessage {
    NoteOff { key: u8, vel: u8 },
    NoteOn { key: u8, vel: u8 },
    Aftertouch { key: u8, vel: u8 },
    Controller { controller: u8, value: u8 },
    ProgramChange { program: u8 },
    ChannelAftertouch { vel: u8 },
    /// The 14-bit bend value, from 0 to 16383; 8192 is the centre.
    PitchBend { bend: u16 },
}

/// The meta events that carry a text as their payload.
#[derive(Clone, Copy, Debug, PartialEq, Eq, Structural)]
pub enum TextKind {
    Text,
    Copyright,
    TrackName,
    InstrumentName,
    Lyric,
    Marker,
    CuePoint,
    ProgramName,
    DeviceName,
}

/// What a decoded event is, with the numbers it carries. Bytes that belong
/// to it are held beside it, in the event's payload.
#[derive(Clone, Copy, Debug, PartialEq, Eq, Structural)]
pub enum DecodedKind {
    Midi { channel: u8, message: ChannelMessage },
    SysEx,
    Escape,
    MetaText(TextKind),
    /// Microseconds per quarter note.
    MetaTempo(u32),
    /// The denominator is stored as a power of two.
    MetaTimeSignature { numerator: u8, denominator: u8, clocks_per_click: u8 },
    MetaKeySignature { key: i8, minor: bool },
    MetaEndOfTrack,
    /// The number of the track or sequence, where the event gives one.
    MetaTrackNumber(Option<u16>),
    /// The channel that the events behind it are meant for.
    MetaMidiChannel(u8),
    /// The port that the events behind it are meant for.
    MetaMidiPort(u8),
    /// The time of day at which the track starts.
    MetaSmpteOffset {
        hour: u8,
        minute: u8,
        second: u8,
        frame: u8,
        subframe: u8,
        frames_per_second: u8,
    },
    MetaSequencerSpecific,
    /// A meta event of a type that has no meaning here; the number is its
    /// type byte.
    MetaUnknown(u8),
}

/// One event of a decoded track: the ticks since the event before it, its
/// kind, and the bytes of a system-exclusive, escape, text,
/// sequencer-specific or unknown meta event (empty for every other kind).
#[derive(Clone, Debug)]
pub struct DecodedEvent {
    pub delta: u32,
    pub kind: DecodedKind,
    pub payload: Vec<u8>,
}

/// The mathematical value of a [`DecodedEvent`].
pub struct DecodedEventView {
    pub delta: u32,
    pub kind: DecodedKind,
    pub payload: Seq<u8>,
}

impl View for DecodedEvent {
    type V = DecodedEventView;

    open spec fn view(&self) -> DecodedEventView {
        DecodedEventView { delta: self.delta, kind: self.kind, payload: self.payload@ }
    }
}

/// The values of the events of a track, in order.
pub open spec fn track_view(track: Seq<DecodedEvent>) -> Seq<DecodedEventView> {
    Seq::new(track.len(), |i: int| track[i]@)
}

/// A channel-voice message is well formed when each of its data bytes has
/// seven bits and its bend value fourteen.
pub open spec fn message_ok(message: ChannelMessage) -> bool {
    match message {
        ChannelMessage::NoteOff { key, vel } => key <= 127 && vel <= 127,
        ChannelMessage::NoteOn { key, vel } => key <= 127 && vel <= 127,
        ChannelMessage::Aftertouch { key, vel } => key <= 127 && vel <= 127,
        ChannelMessage::Controller { controller, value } => controller <= 127 && value <= 127,
        ChannelMessage::ProgramChange { program } => program <= 127,
        ChannelMessage::ChannelAftertouch { vel } => vel <= 127,
        ChannelMessage::PitchBend { bend } => bend <= 0x3FFF,
    }
}

/// An event is well formed when its channel, if it has one, is one of the
/// sixteen MIDI channels and its message is well formed.
pub open spec fn event_ok(event: DecodedEventView) -> bool {
    event.kind matches DecodedKind::Midi { channel, message } ==> channel < 16 && message_ok(
        message,
    )
}

/// A track is well formed when each of its events is.
pub open spec fn track_ok(track: Seq<DecodedEventView>) -> bool {
    forall|i: int| 0 <= i < track.len() ==> event_ok(#[trigger] track[i])
}

/// The mathematical value of a decoded file.
pub struct SmfView {
    pub format: Format,
    pub timing: Timing,
    pub tracks: Seq<Seq<DecodedEventView>>,
}

/// `midly::Smf`: a decoded file as the decoder holds it. Nothing inside it
/// is visible here; the functions below read it.
#[verifier::external_type_specification]
#[verifier::external_body]
pub struct ExSmf<'a>(midly::Smf<'a>);

/// `midly::Error`: why the decoder rejected a buffer.
#[verifier::external_type_specification]
#[verifier::external_body]
pub struct ExSmfError(midly::Error);

/// What the decoder makes of a byte buffer: the decoded file, or nothing
/// where the bytes are no Standard MIDI File.
pub uninterp spec fn smf_decoding(data: Seq<u8>) -> Option<SmfView>;

/// What a decoded file holds.
pub uninterp spec fn smf_contents(smf: midly::Smf<'_>) -> SmfView;

/// The channel of a channel-voice event.
pub open spec fn channel_of(kind: DecodedKind) -> Option<u8> {
    match kind {
        DecodedKind::Midi { channel, .. } => Some(channel),
        _ => None,
    }
}

/// The message of a channel-voice event with two data bytes.
pub open spec fn voice_pair_of(kind: DecodedKind) -> Option<ChannelMessage> {
    match kind {
        DecodedKind::Midi { message, .. } => match message {
            ChannelMessage::NoteOff { .. } => Some(message),
            ChannelMessage::NoteOn { .. } => Some(message),
            ChannelMessage::Aftertouch { .. } => Some(message),
            ChannelMessage::Controller { .. } => Some(message),
            _ => None,
        },
        _ => None,
    }
}

/// The message of a channel-voice event with one value.
pub open spec fn voice_single_of(kind: DecodedKind) -> Option<ChannelMessage> {
    match kind {
        DecodedKind::Midi { message, .. } => match message {
            ChannelMessage::ProgramChange { .. } => Some(message),
            ChannelMessage::ChannelAftertouch { .. } => Some(message),
            ChannelMessage::PitchBend { .. } => Some(message),
            _ => None,
        },
        _ => None,
    }
}

/// Which text a text-carrying meta event holds.
pub open spec fn text_kind_of(kind: DecodedKind) -> Option<TextKind> {
    match kind {
        DecodedKind::MetaText(text_kind) => Some(text_kind),
        _ => None,
    }
}

/// The kind of a system-exclusive or escape event and of a tempo, time
/// signature, key signature or end-of-track meta event.
pub open spec fn plain_kind_of(kind: DecodedKind) -> Option<DecodedKind> {
    match kind {
        DecodedKind::SysEx => Some(kind),
        DecodedKind::Escape => Some(kind),
        DecodedKind::MetaTempo(_) => Some(kind),
        DecodedKind::MetaTimeSignature { .. } => Some(kind),
        DecodedKind::MetaKeySignature { .. } => Some(kind),
        DecodedKind::MetaEndOfTrack => Some(kind),
        _ => None,
    }
}

/// The kind of a track-number, channel, port, sequencer-specific or
/// unknown meta event.
pub open spec fn rare_kind_of(kind: DecodedKind) -> Option<DecodedKind> {
    match kind {
        DecodedKind::MetaTrackNumber(_) => Some(kind),
        DecodedKind::MetaMidiChannel(_) => Some(kind),
        DecodedKind::MetaMidiPort(_) => Some(kind),
        DecodedKind::MetaSequencerSpecific => Some(kind),
        DecodedKind::MetaUnknown(_) => Some(kind),
        _ => None,
    }
}

/// The kind of a meta event that gives the time at which a track starts.
pub open spec fn smpte_kind_of(kind: DecodedKind) -> Option<DecodedKind> {
    match kind {
        DecodedKind::MetaSmpteOffset { .. } => Some(kind),
        _ => None,
    }
}

/// Calls `midly::Smf::parse`. The decoder is a function of the bytes alone:
/// its answer is the one that `smf_decoding` names. It must not be given a
/// buffer whose header makes it negate the byte 0x80 as a signed byte:
/// where overflow is checked that negation does not return.
#[verifier::external_body]
pub(crate) fn parse_smf<'a>(data: &'a [u8]) -> (r: Result<midly::Smf<'a>, midly::Error>)
    requires
        !timing_hazard(data@),
    ensures
        match r {
            Ok(smf) => smf_decoding(data@) == Some(smf_contents(smf)),
            Err(_) => smf_decoding(data@) is None,
        },
{
    midly::Smf::parse(data)
}

/// Reads `header.format` of a `midly::Smf` and names the variant of
/// `midly::Format` found there: the format of what the file holds.
#[verifier::external_body]
pub(crate) fn smf_format(smf: &midly::Smf<'_>) -> (r: Format)
    ensures
        r == smf_contents(*smf).format,
{
    match smf.header.format {
        midly::Format::SingleTrack => Format::SingleTrack,
        midly::Format::Parallel => Format::Parallel,
        midly::Format::Sequential => Format::Sequential,
    }
}

/// Reads `header.timing` of a `midly::Smf`: the timing of what the file
/// holds. The integers come from `u15::as_int` and `Fps::as_int`, which
/// gives 29 for the drop-frame rate.
#[verifier::external_body]
pub(crate) fn smf_timing(smf: &midly::Smf<'_>) -> (r: Timing)
    ensures
        r == smf_contents(*smf).timing,
{
    match smf.header.timing {
        midly::Timing::Metrical(tpq) => Timing::Metrical { ticks_per_quarter_note: tpq.as_int() },
        midly::Timing::Timecode(fps, tpf) => Timing::Timecode {
            frames_per_second: fps.as_int(),
            ticks_per_frame: tpf,
        },
    }
}

/// The length of `tracks` of a `midly::Smf`: the number of tracks that
/// the file holds.
#[verifier::external_body]
pub(crate) fn smf_track_count(smf: &midly::Smf<'_>) -> (r: usize)
    ensures
        r == smf_contents(*smf).tracks.len(),
{
    smf.tracks.len()
}

/// The length of one track of a `midly::Smf`: the number of events of
/// that track. The track index must lie within the file.
#[verifier::external_body]
pub(crate) fn smf_track_len(smf: &midly::Smf<'_>, track: usize) -> (r: usize)
    requires
        track < smf_contents(*smf).tracks.len(),
    ensures
        r == smf_contents(*smf).tracks[track as int].len(),
{
    smf.tracks[track].len()
}

/// Reads `delta` of one `midly::TrackEvent`, through `u28::as_int`: the
/// delta time of that event. Both indices must lie within the file.
#[verifier::external_body]
pub(crate) fn event_delta(smf: &midly::Smf<'_>, track: usize, index: usize) -> (r: u32)
    requires
        track < smf_contents(*smf).tracks.len(),
        index < smf_contents(*smf).tracks[track as int].len(),
    ensures
        r == smf_contents(*smf).tracks[track as int][index as int].delta,
{
    smf.tracks[track][index].delta.as_int()
}

/// The channel of a `midly::TrackEventKind::Midi`, through `u4::as_int`,
/// which stays below 16.
#[verifier::external_body]
pub(crate) fn event_channel(smf: &midly::Smf<'_>, track: usize, index: usize) -> (r: Option<u8>)
    requires
        track < smf_contents(*smf).tracks.len(),
        index < smf_contents(*smf).tracks[track as int].len(),
    ensures
        r == channel_of(smf_contents(*smf).tracks[track as int][index as int].kind),
        r matches Some(channel) ==> channel < 16,
{
    match smf.tracks[track][index].kind {
        TrackEventKind::Midi { channel, .. } => Some(channel.as_int()),
        _ => None,
    }
}

/// Tells the `midly::MidiMessage` variants with two data bytes apart and
/// moves their fields over, each through `u7::as_int`, which stays below
/// 128.
#[verifier::external_body]
pub(crate) fn event_voice_pair(smf: &midly::Smf<'_>, track: usize, index: usize) -> (r: Option<
    ChannelMessage,
>)
    requires
        track < smf_contents(*smf).tracks.len(),
        index < smf_contents(*smf).tracks[track as int].len(),
    ensures
        r == voice_pair_of(smf_contents(*smf).tracks[track as int][index as int].kind),
        r matches Some(message) ==> message_ok(message),
{
    let TrackEventKind::Midi { message, .. } = smf.tracks[track][index].kind else {
        return None;
    };
    match message {
        MidiMessage::NoteOff { key, vel } => Some(ChannelMessage::NoteOff { key: key.as_int(), vel: vel.as_int() }),
        MidiMessage::NoteOn { key, vel } => Some(ChannelMessage::NoteOn { key: key.as_int(), vel: vel.as_int() }),
        MidiMessage::Aftertouch { key, vel } => Some(ChannelMessage::Aftertouch { key: key.as_int(), vel: vel.as_int() }),
        MidiMessage::Controller { controller, value } => Some(ChannelMessage::Controller { controller: controller.as_int(), value: value.as_int() }),
        _ => None,
    }
}

/// Tells the other `midly::MidiMessage` variants apart and moves their
/// field over: a data byte through `u7::as_int`, which stays below 128,
/// the bend as the 14-bit value inside `midly::PitchBend`, through
/// `u14::as_int`, which stays below 16384.
#[verifier::external_body]
pub(crate) fn event_voice_single(smf: &midly::Smf<'_>, track: usize, index: usize) -> (r: Option<
    ChannelMessage,
>)
    requires
        track < smf_contents(*smf).tracks.len(),
        index < smf_contents(*smf).tracks[track as int].len(),
    ensures
        r == voice_single_of(smf_contents(*smf).tracks[track as int][index as int].kind),
        r matches Some(message) ==> message_ok(message),
{
    let TrackEventKind::Midi { message, .. } = smf.tracks[track][index].kind else {
        return None;
    };
    match message {
        MidiMessage::ProgramChange { program } => Some(ChannelMessage::ProgramChange { program: program.as_int() }),
        MidiMessage::ChannelAftertouch { vel } => Some(ChannelMessage::ChannelAftertouch { vel: vel.as_int() }),
        MidiMessage::PitchBend { bend } => Some(ChannelMessage::PitchBend { bend: bend.0.as_int() }),
        _ => None,
    }
}

/// Tells the text-carrying `midly::MetaMessage` variants apart.
#[verifier::external_body]
pub(crate) fn event_text_kind(smf: &midly::Smf<'_>, track: usize, index: usize) -> (r: Option<
    TextKind,
>)
    requires
        track < smf_contents(*smf).tracks.len(),
        index < smf_contents(*smf).tracks[track as int].len(),
    ensures
        r == text_kind_of(smf_contents(*smf).tracks[track as int][index as int].kind),
{
    let TrackEventKind::Meta(meta) = smf.tracks[track][index].kind else {
        return None;
    };
    match meta {
        MetaMessage::Text(_) => Some(TextKind::Text),
        MetaMessage::Copyright(_) => Some(TextKind::Copyright),
        MetaMessage::TrackName(_) => Some(TextKind::TrackName),
        MetaMessage::InstrumentName(_) => Some(TextKind::InstrumentName),
        MetaMessage::Lyric(_) => Some(TextKind::Lyric),
        MetaMessage::Marker(_) => Some(TextKind::Marker),
        MetaMessage::CuePoint(_) => Some(TextKind::CuePoint),
        MetaMessage::ProgramName(_) => Some(TextKind::ProgramName),
        MetaMessage::DeviceName(_) => Some(TextKind::DeviceName),
        _ => None,
    }
}

/// Tells the `SysEx` and `Escape` variants of `midly::TrackEventKind` and
/// the tempo, time signature, key signature and end-of-track variants of
/// `midly::MetaMessage` apart and moves their numbers over; the tempo
/// comes through `u24::as_int`. Any other event gives nothing.
#[verifier::external_body]
pub(crate) fn event_plain_kind(smf: &midly::Smf<'_>, track: usize, index: usize) -> (r: Option<
    DecodedKind,
>)
    requires
        track < smf_contents(*smf).tracks.len(),
        index < smf_contents(*smf).tracks[track as int].len(),
    ensures
        r == plain_kind_of(smf_contents(*smf).tracks[track as int][index as int].kind),
{
    match smf.tracks[track][index].kind {
        TrackEventKind::SysEx(_) => Some(DecodedKind::SysEx),
        TrackEventKind::Escape(_) => Some(DecodedKind::Escape),
        TrackEventKind::Meta(MetaMessage::Tempo(tempo)) => Some(DecodedKind::MetaTempo(tempo.as_int())),
        TrackEventKind::Meta(MetaMessage::TimeSignature(numerator, denominator, clocks_per_click, _)) => Some(DecodedKind::MetaTimeSignature { numerator, denominator, clocks_per_click }),
        TrackEventKind::Meta(MetaMessage::KeySignature(key, minor)) => Some(DecodedKind::MetaKeySignature { key, minor }),
        TrackEventKind::Meta(MetaMessage::EndOfTrack) => Some(DecodedKind::MetaEndOfTrack),
        _ => None,
    }
}

/// Tells the track-number, channel, port, sequencer-specific and unknown
/// variants of `midly::MetaMessage` apart and moves their numbers over;
/// channel and port come through `u4::as_int` and `u7::as_int`. Any other
/// event gives nothing.
#[verifier::external_body]
pub(crate) fn event_rare_kind(smf: &midly::Smf<'_>, track: usize, index: usize) -> (r: Option<
    DecodedKind,
>)
    requires
        track < smf_contents(*smf).tracks.len(),
        index < smf_contents(*smf).tracks[track as int].len(),
    ensures
        r == rare_kind_of(smf_contents(*smf).tracks[track as int][index as int].kind),
{
    let TrackEventKind::Meta(meta) = smf.tracks[track][index].kind else {
        return None;
    };
    match meta {
        MetaMessage::TrackNumber(number) => Some(DecodedKind::MetaTrackNumber(number)),
        MetaMessage::MidiChannel(channel) => Some(DecodedKind::MetaMidiChannel(channel.as_int())),
        MetaMessage::MidiPort(port) => Some(DecodedKind::MetaMidiPort(port.as_int())),
        MetaMessage::SequencerSpecific(_) => Some(DecodedKind::MetaSequencerSpecific),
        MetaMessage::Unknown(type_byte, _) => Some(DecodedKind::MetaUnknown(type_byte)),
        _ => None,
    }
}

/// Tells the `SmpteOffset` variant of `midly::MetaMessage` apart and moves
/// the parts of its `midly::SmpteTime` over, each through the accessor of
/// its name; the frame rate comes through `Fps::as_int`. Any other event
/// gives nothing.
#[verifier::external_body]
pub(crate) fn event_smpte_kind(smf: &midly::Smf<'_>, track: usize, index: usize) -> (r: Option<
    DecodedKind,
>)
    requires
        track < smf_contents(*smf).tracks.len(),
        index < smf_contents(*smf).tracks[track as int].len(),
    ensures
        r == smpte_kind_of(smf_contents(*smf).tracks[track as int][index as int].kind),
{
    let TrackEventKind::Meta(MetaMessage::SmpteOffset(time)) = smf.tracks[track][index].kind else {
        return None;
    };
    Some(DecodedKind::MetaSmpteOffset {
        hour: time.hour(),
        minute: time.minute(),
        second: time.second(),
        frame: time.frame(),
        subframe: time.subframe(),
        frames_per_second: time.fps().as_int(),
    })
}

/// Copies the bytes of a `SysEx`, an `Escape` and of the meta events that
/// hold bytes (the nine texts, sequencer-specific and unknown ones) with
/// `to_vec`; every other event has no payload.
#[verifier::external_body]
pub(crate) fn event_payload(smf: &midly::Smf<'_>, track: usize, index: usize) -> (r: Vec<u8>)
    requires
        track < smf_contents(*smf).tracks.len(),
        index < smf_contents(*smf).tracks[track as int].len(),
    ensures
        r@ == smf_contents(*smf).tracks[track as int][index as int].payload,
{
    match smf.tracks[track][index].kind {
        TrackEventKind::SysEx(bytes) | TrackEventKind::Escape(bytes) => bytes.to_vec(),
        TrackEventKind::Meta(
            MetaMessage::Text(bytes) | MetaMessage::Copyright(bytes) | MetaMessage::TrackName(bytes)
            | MetaMessage::InstrumentName(bytes) | MetaMessage::Lyric(bytes)
            | MetaMessage::Marker(bytes) | MetaMessage::CuePoint(bytes)
            | MetaMessage::ProgramName(bytes) | MetaMessage::DeviceName(bytes)
            | MetaMessage::SequencerSpecific(bytes) | MetaMessage::Unknown(_, bytes),
        ) => bytes.to_vec(),
        _ => Vec::new(),
    }
}

/// What `String::from_utf8_lossy` makes of a byte string: its text, with the
/// replacement character in place of each malformed sequence.
pub uninterp spec fn utf8_lossy(bytes: Seq<u8>) -> Seq<char>;

/// Calls `String::from_utf8_lossy` and owns the result.
#[verifier::external_body]
pub(crate) fn lossy_text(bytes: &[u8]) -> (r: String)
    ensures
        r@ == utf8_lossy(bytes@),
{
    String::from_utf8_lossy(bytes).into_owned()
}

/// Reads one event out of a decoded file. The readers between them cover
/// every kind of event, so the last arm of each chain below is never
/// taken.
pub(crate) fn decode_event(smf: &midly::Smf<'_>, track: usize, index: usize) -> (r: DecodedEvent)
    requires
        track < smf_contents(*smf).tracks.len(),
        index < smf_contents(*smf).tracks[track as int].len(),
    ensures
        r@ == smf_contents(*smf).tracks[track as int][index as int],
        event_ok(r@),
{
    let delta = event_delta(smf, track, index);
    let payload = event_payload(smf, track, index);
    let kind = match event_channel(smf, track, index) {
        Some(channel) => {
            match event_voice_pair(smf, track, index) {
                Some(message) => DecodedKind::Midi { channel, message },
                None => match event_voice_single(smf, track, index) {
                    Some(message) => DecodedKind::Midi { channel, message },
                    None => DecodedKind::MetaSequencerSpecific,
                },
            }
        },
        None => match event_text_kind(smf, track, index) {
            Some(text_kind) => DecodedKind::MetaText(text_kind),
            None => match event_plain_kind(smf, track, index) {
                Some(kind) => kind,
                None => match event_rare_kind(smf, track, index) {
                    Some(kind) => kind,
                    None => match event_smpte_kind(smf, track, index) {
                        Some(kind) => kind,
                        None => DecodedKind::MetaSequencerSpecific,
                    },
                },
            },
        },
    };
    DecodedEvent { delta, kind, payload }
}

/// Reads one track out of a decoded file.
pub(crate) fn decode_track(smf: &midly::Smf<'_>, track: usize) -> (r: Vec<DecodedEvent>)
    requires
        track < smf_contents(*smf).tracks.len(),
    ensures
        track_view(r@) == smf_contents(*smf).tracks[track as int],
        track_ok(track_view(r@)),
{
    let len = smf_track_len(smf, track);
    let mut events: Vec<DecodedEvent> = Vec::new();
    let mut index: usize = 0;
    while index < len
        invariant
            track < smf_contents(*smf).tracks.len(),
            len == smf_contents(*smf).tracks[track as int].len(),
            index <= len,
            events.len() == index,
            forall|k: int|
                0 <= k < index ==> (#[trigger] events[k])@ == smf_contents(
                    *smf,
                ).tracks[track as int][k] && event_ok(events[k]@),
        decreases len - index,
    {
        let event = decode_event(smf, track, index);
        events.push(event);
        index += 1;
    }
    assert(track_view(events@) =~= smf_contents(*smf).tracks[track as int]);
    events
}

} // verus!
