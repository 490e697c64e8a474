//! Tracks of a MIDI file as chronologically ordered events at absolute
//! times, and the file that owns them.

use crate::error::MidiError;
use crate::header::{has_timing_hazard, timing_hazard};
use crate::smf::{
    decode_track, event_ok, lossy_text, message_ok, parse_smf, smf_contents, smf_decoding, smf_format, smf_timing,
    smf_track_count, track_ok, track_view, utf8_lossy, ChannelMessage, DecodedEvent,
    DecodedEventView, DecodedKind, Format, SmfView, TextKind, Timing,
};
use crate::text::{decimal, push_decimal, push_signed_decimal, signed_decimal};
use std::collections::HashMap;
use vstd::prelude::*;
use vstd::string::StringExecFns;

verus! {

broadcast use vstd::std_specs::hash::group_hash_axioms;

/// The closed set of event types of the model.
#[derive(Debug, Clone, Copy, PartialEq, Eq, Structural)]
pub enum EventType {
    NoteOff,
    NoteOn,
    PolyphonicAftertouch,
    ControlChange,
    ProgramChange,
    ChannelAftertouch,
    PitchBend,
    SystemExclusive,
    MetaSequenceNumber,
    MetaText,
    MetaCopyright,
    MetaTrackName,
    MetaInstrumentName,
    MetaLyric,
    MetaMarker,
    MetaCuePoint,
    MetaChannelPrefix,
    MetaEndOfTrack,
    MetaSetTempo,
    MetaSmpteOffset,
    MetaTimeSignature,
    MetaKeySignature,
    MetaSequencerSpecific,
    Unknown,
}

impl EventType {
    /// Whether events of this type are addressed to a MIDI channel.
    pub open spec fn spec_is_channel_voice(self) -> bool {
        self == EventType::NoteOff || self == EventType::NoteOn || self
            == EventType::PolyphonicAftertouch || self == EventType::ControlChange || self
            == EventType::ProgramChange || self == EventType::ChannelAftertouch || self
            == EventType::PitchBend
    }

    /// Whether events of this type are addressed to a MIDI channel.
    #[verifier::when_used_as_spec(spec_is_channel_voice)]
    pub fn is_channel_voice(self) -> (r: bool)
        ensures
            r == self.spec_is_channel_voice(),
    {
        match self {
            EventType::NoteOff
            | EventType::NoteOn
            | EventType::PolyphonicAftertouch
            | EventType::ControlChange
            | EventType::ProgramChange
            | EventType::ChannelAftertouch
            | EventType::PitchBend => true,
            _ => false,
        }
    }
}

impl EventType {
    /// The number that stands for an event type at the host: its place
    /// in the list of types, from zero.
    pub open spec fn spec_code(self) -> i32 {
        match self {
            EventType::NoteOff => 0i32,
            EventType::NoteOn => 1i32,
            EventType::PolyphonicAftertouch => 2i32,
            EventType::ControlChange => 3i32,
            EventType::ProgramChange => 4i32,
            EventType::ChannelAftertouch => 5i32,
            EventType::PitchBend => 6i32,
            EventType::SystemExclusive => 7i32,
            EventType::MetaSequenceNumber => 8i32,
            EventType::MetaText => 9i32,
            EventType::MetaCopyright => 10i32,
            EventType::MetaTrackName => 11i32,
            EventType::MetaInstrumentName => 12i32,
            EventType::MetaLyric => 13i32,
            EventType::MetaMarker => 14i32,
            EventType::MetaCuePoint => 15i32,
            EventType::MetaChannelPrefix => 16i32,
            EventType::MetaEndOfTrack => 17i32,
            EventType::MetaSetTempo => 18i32,
            EventType::MetaSmpteOffset => 19i32,
            EventType::MetaTimeSignature => 20i32,
            EventType::MetaKeySignature => 21i32,
            EventType::MetaSequencerSpecific => 22i32,
            EventType::Unknown => 23i32,
        }
    }

    /// The number that stands for an event type at the host.
    #[verifier::when_used_as_spec(spec_code)]
    pub fn code(self) -> (r: i32)
        ensures
            r == self.spec_code(),
    {
        match self {
            EventType::NoteOff => 0,
            EventType::NoteOn => 1,
            EventType::PolyphonicAftertouch => 2,
            EventType::ControlChange => 3,
            EventType::ProgramChange => 4,
            EventType::ChannelAftertouch => 5,
            EventType::PitchBend => 6,
            EventType::SystemExclusive => 7,
            EventType::MetaSequenceNumber => 8,
            EventType::MetaText => 9,
            EventType::MetaCopyright => 10,
            EventType::MetaTrackName => 11,
            EventType::MetaInstrumentName => 12,
            EventType::MetaLyric => 13,
            EventType::MetaMarker => 14,
            EventType::MetaCuePoint => 15,
            EventType::MetaChannelPrefix => 16,
            EventType::MetaEndOfTrack => 17,
            EventType::MetaSetTempo => 18,
            EventType::MetaSmpteOffset => 19,
            EventType::MetaTimeSignature => 20,
            EventType::MetaKeySignature => 21,
            EventType::MetaSequencerSpecific => 22,
            EventType::Unknown => 23,
        }
    }

    /// The event type that a number stands for, if it stands for one.
    pub open spec fn spec_from_code(code: i32) -> Option<EventType> {
        if code == 0 {
            Some(EventType::NoteOff)
        } else if code == 1 {
            Some(EventType::NoteOn)
        } else if code == 2 {
            Some(EventType::PolyphonicAftertouch)
        } else if code == 3 {
            Some(EventType::ControlChange)
        } else if code == 4 {
            Some(EventType::ProgramChange)
        } else if code == 5 {
            Some(EventType::ChannelAftertouch)
        } else if code == 6 {
            Some(EventType::PitchBend)
        } else if code == 7 {
            Some(EventType::SystemExclusive)
        } else if code == 8 {
            Some(EventType::MetaSequenceNumber)
        } else if code == 9 {
            Some(EventType::MetaText)
        } else if code == 10 {
            Some(EventType::MetaCopyright)
        } else if code == 11 {
            Some(EventType::MetaTrackName)
        } else if code == 12 {
            Some(EventType::MetaInstrumentName)
        } else if code == 13 {
            Some(EventType::MetaLyric)
        } else if code == 14 {
            Some(EventType::MetaMarker)
        } else if code == 15 {
            Some(EventType::MetaCuePoint)
        } else if code == 16 {
            Some(EventType::MetaChannelPrefix)
        } else if code == 17 {
            Some(EventType::MetaEndOfTrack)
        } else if code == 18 {
            Some(EventType::MetaSetTempo)
        } else if code == 19 {
            Some(EventType::MetaSmpteOffset)
        } else if code == 20 {
            Some(EventType::MetaTimeSignature)
        } else if code == 21 {
            Some(EventType::MetaKeySignature)
        } else if code == 22 {
            Some(EventType::MetaSequencerSpecific)
        } else if code == 23 {
            Some(EventType::Unknown)
        } else {
            None
        }
    }

    /// The event type that a number stands for, if it stands for one.
    pub fn from_code(code: i32) -> (r: Option<EventType>)
        ensures
            r == Self::spec_from_code(code),
    {
        match code {
            0 => Some(EventType::NoteOff),
            1 => Some(EventType::NoteOn),
            2 => Some(EventType::PolyphonicAftertouch),
            3 => Some(EventType::ControlChange),
            4 => Some(EventType::ProgramChange),
            5 => Some(EventType::ChannelAftertouch),
            6 => Some(EventType::PitchBend),
            7 => Some(EventType::SystemExclusive),
            8 => Some(EventType::MetaSequenceNumber),
            9 => Some(EventType::MetaText),
            10 => Some(EventType::MetaCopyright),
            11 => Some(EventType::MetaTrackName),
            12 => Some(EventType::MetaInstrumentName),
            13 => Some(EventType::MetaLyric),
            14 => Some(EventType::MetaMarker),
            15 => Some(EventType::MetaCuePoint),
            16 => Some(EventType::MetaChannelPrefix),
            17 => Some(EventType::MetaEndOfTrack),
            18 => Some(EventType::MetaSetTempo),
            19 => Some(EventType::MetaSmpteOffset),
            20 => Some(EventType::MetaTimeSignature),
            21 => Some(EventType::MetaKeySignature),
            22 => Some(EventType::MetaSequencerSpecific),
            23 => Some(EventType::Unknown),
            _ => None,
        }
    }

    /// The name of an event type as it is shown.
    pub open spec fn spec_name(self) -> Seq<char> {
        match self {
            EventType::NoteOff => "Note Off"@,
            EventType::NoteOn => "Note On"@,
            EventType::PolyphonicAftertouch => "Polyphonic Aftertouch"@,
            EventType::ControlChange => "Control Change"@,
            EventType::ProgramChange => "Program Change"@,
            EventType::ChannelAftertouch => "Channel Aftertouch"@,
            EventType::PitchBend => "Pitch Bend"@,
            EventType::SystemExclusive => "System Exclusive"@,
            EventType::MetaSequenceNumber => "Meta: Sequence Number"@,
            EventType::MetaText => "Meta: Text"@,
            EventType::MetaCopyright => "Meta: Copyright"@,
            EventType::MetaTrackName => "Meta: Track Name"@,
            EventType::MetaInstrumentName => "Meta: Instrument Name"@,
            EventType::MetaLyric => "Meta: Lyric"@,
            EventType::MetaMarker => "Meta: Marker"@,
            EventType::MetaCuePoint => "Meta: Cue Point"@,
            EventType::MetaChannelPrefix => "Meta: Channel Prefix"@,
            EventType::MetaEndOfTrack => "Meta: End of Track"@,
            EventType::MetaSetTempo => "Meta: Set Tempo"@,
            EventType::MetaSmpteOffset => "Meta: SMPTE Offset"@,
            EventType::MetaTimeSignature => "Meta: Time Signature"@,
            EventType::MetaKeySignature => "Meta: Key Signature"@,
            EventType::MetaSequencerSpecific => "Meta: Sequencer Specific"@,
            EventType::Unknown => "Unknown"@,
        }
    }

    /// The name of an event type as it is shown.
    pub fn name(self) -> (r: &'static str)
        ensures
            r@ == self.spec_name(),
    {
        match self {
            EventType::NoteOff => "Note Off",
            EventType::NoteOn => "Note On",
            EventType::PolyphonicAftertouch => "Polyphonic Aftertouch",
            EventType::ControlChange => "Control Change",
            EventType::ProgramChange => "Program Change",
            EventType::ChannelAftertouch => "Channel Aftertouch",
            EventType::PitchBend => "Pitch Bend",
            EventType::SystemExclusive => "System Exclusive",
            EventType::MetaSequenceNumber => "Meta: Sequence Number",
            EventType::MetaText => "Meta: Text",
            EventType::MetaCopyright => "Meta: Copyright",
            EventType::MetaTrackName => "Meta: Track Name",
            EventType::MetaInstrumentName => "Meta: Instrument Name",
            EventType::MetaLyric => "Meta: Lyric",
            EventType::MetaMarker => "Meta: Marker",
            EventType::MetaCuePoint => "Meta: Cue Point",
            EventType::MetaChannelPrefix => "Meta: Channel Prefix",
            EventType::MetaEndOfTrack => "Meta: End of Track",
            EventType::MetaSetTempo => "Meta: Set Tempo",
            EventType::MetaSmpteOffset => "Meta: SMPTE Offset",
            EventType::MetaTimeSignature => "Meta: Time Signature",
            EventType::MetaKeySignature => "Meta: Key Signature",
            EventType::MetaSequencerSpecific => "Meta: Sequencer Specific",
            EventType::Unknown => "Unknown",
        }
    }
}

/// The number of an event type stands for that type and for no other.
pub proof fn lemma_event_type_code_round_trip(event_type: EventType)
    ensures
        EventType::spec_from_code(event_type.spec_code()) == Some(event_type),
        0 <= event_type.spec_code() <= 23,
{
}

/// One event of a track, at its absolute time in ticks since the start of
/// the track.
#[derive(Debug, Clone)]
pub struct AbsoluteEvent {
    pub absolute_time: u32,
    pub event_type: EventType,
    /// The channel, 0 to 15; zero where the event has none.
    pub channel: u8,
    pub data1: u8,
    pub data2: u8,
    /// A description of a meta or system-exclusive event; empty otherwise.
    pub text: String,
    /// Microseconds per quarter note of a tempo event; zero otherwise.
    pub tempo: u32,
}

/// The mathematical value of an [`AbsoluteEvent`].
pub struct AbsoluteEventView {
    pub absolute_time: u32,
    pub event_type: EventType,
    pub channel: u8,
    pub data1: u8,
    pub data2: u8,
    pub text: Seq<char>,
    pub tempo: u32,
}

impl View for AbsoluteEvent {
    type V = AbsoluteEventView;

    open spec fn view(&self) -> AbsoluteEventView {
        AbsoluteEventView {
            absolute_time: self.absolute_time,
            event_type: self.event_type,
            channel: self.channel,
            data1: self.data1,
            data2: self.data2,
            text: self.text@,
            tempo: self.tempo,
        }
    }
}

/// The values of a sequence of events, in order.
pub open spec fn events_view(events: Seq<AbsoluteEvent>) -> Seq<AbsoluteEventView> {
    Seq::new(events.len(), |i: int| events[i]@)
}

/// A track: its events in chronological order, its names and the channels
/// it uses.
#[derive(Debug, Clone)]
pub struct TrackData {
    pub events: Vec<AbsoluteEvent>,
    pub name: String,
    pub instrument: Option<String>,
    /// Bit `c` is set exactly when an event of the track is addressed to
    /// channel `c`.
    pub channel_mask: u16,
}

/// The mathematical value of a [`TrackData`].
pub struct TrackDataView {
    pub events: Seq<AbsoluteEventView>,
    pub name: Seq<char>,
    pub instrument: Option<Seq<char>>,
    pub channel_mask: u16,
}

/// The value of an optional text.
pub open spec fn text_option_view(text: Option<String>) -> Option<Seq<char>> {
    match text {
        Some(s) => Some(s@),
        None => None,
    }
}

impl View for TrackData {
    type V = TrackDataView;

    open spec fn view(&self) -> TrackDataView {
        TrackDataView {
            events: events_view(self.events@),
            name: self.name@,
            instrument: text_option_view(self.instrument),
            channel_mask: self.channel_mask,
        }
    }
}

/// The values of a sequence of tracks, in order.
pub open spec fn tracks_view(tracks: Seq<TrackData>) -> Seq<TrackDataView> {
    Seq::new(tracks.len(), |i: int| tracks[i]@)
}

/// The absolute time after the first `n` events of a decoded track: the
/// sum of their delta times, held at the largest tick count once it is
/// reached.
pub open spec fn tick_after(track: Seq<DecodedEventView>, n: int) -> nat
    decreases n,
{
    if n <= 0 {
        0
    } else {
        let sum: nat = tick_after(track, n - 1) + track[n - 1].delta as nat;
        if sum > u32::MAX {
            u32::MAX as nat
        } else {
            sum
        }
    }
}

/// The event type and the two data bytes of a channel-voice message. A
/// note-on with velocity zero is a note-off; a pitch bend gives the low
/// seven bits of its 14-bit value, then the high seven bits.
pub open spec fn voice_fields(message: ChannelMessage) -> (EventType, u8, u8) {
    match message {
        ChannelMessage::NoteOff { key, vel } => (EventType::NoteOff, key, vel),
        ChannelMessage::NoteOn { key, vel } => (
            if vel == 0 {
                EventType::NoteOff
            } else {
                EventType::NoteOn
            },
            key,
            vel,
        ),
        ChannelMessage::Aftertouch { key, vel } => (EventType::PolyphonicAftertouch, key, vel),
        ChannelMessage::Controller { controller, value } => (
            EventType::ControlChange,
            controller,
            value,
        ),
        ChannelMessage::ProgramChange { program } => (EventType::ProgramChange, program, 0),
        ChannelMessage::ChannelAftertouch { vel } => (EventType::ChannelAftertouch, vel, 0),
        ChannelMessage::PitchBend { bend } => (
            EventType::PitchBend,
            (bend & 0x7F) as u8,
            ((bend >> 7) & 0x7F) as u8,
        ),
    }
}

/// The event type of a text-carrying meta event.
pub open spec fn text_event_type(kind: TextKind) -> EventType {
    match kind {
        TextKind::Text => EventType::MetaText,
        TextKind::Copyright => EventType::MetaCopyright,
        TextKind::TrackName => EventType::MetaTrackName,
        TextKind::InstrumentName => EventType::MetaInstrumentName,
        TextKind::Lyric => EventType::MetaLyric,
        TextKind::Marker => EventType::MetaMarker,
        TextKind::CuePoint => EventType::MetaCuePoint,
        TextKind::ProgramName => EventType::Unknown,
        TextKind::DeviceName => EventType::Unknown,
    }
}

/// The event type of a decoded event.
pub open spec fn event_type_of(kind: DecodedKind) -> EventType {
    match kind {
        DecodedKind::Midi { message, .. } => voice_fields(message).0,
        DecodedKind::SysEx => EventType::SystemExclusive,
        DecodedKind::Escape => EventType::SystemExclusive,
        DecodedKind::MetaText(text_kind) => text_event_type(text_kind),
        DecodedKind::MetaTempo(_) => EventType::MetaSetTempo,
        DecodedKind::MetaTimeSignature { .. } => EventType::MetaTimeSignature,
        DecodedKind::MetaKeySignature { .. } => EventType::MetaKeySignature,
        DecodedKind::MetaEndOfTrack => EventType::MetaEndOfTrack,
        DecodedKind::MetaTrackNumber(_) => EventType::Unknown,
        DecodedKind::MetaMidiChannel(_) => EventType::Unknown,
        DecodedKind::MetaMidiPort(_) => EventType::Unknown,
        DecodedKind::MetaSmpteOffset { .. } => EventType::Unknown,
        DecodedKind::MetaSequencerSpecific => EventType::Unknown,
        DecodedKind::MetaUnknown(_) => EventType::Unknown,
    }
}

/// The denominator of a time signature as it is shown: one shifted left by
/// the stored exponent, in 32 bits with a sign.
pub open spec fn shown_denominator(exponent: u8) -> int {
    let shifted = 1u32 << ((exponent % 32) as u32);
    if shifted == 0x8000_0000u32 {
        -2147483648
    } else {
        shifted as int
    }
}

/// The description of a decoded event; empty for a channel-voice message.
pub open spec fn event_text(kind: DecodedKind, payload: Seq<u8>) -> Seq<char> {
    match kind {
        DecodedKind::Midi { .. } => Seq::empty(),
        DecodedKind::SysEx => "SysEx: "@ + decimal(payload.len()) + " bytes"@,
        DecodedKind::Escape => "Escape Sequence"@,
        DecodedKind::MetaText(TextKind::ProgramName) => "Unknown Meta Event"@,
        DecodedKind::MetaText(TextKind::DeviceName) => "Unknown Meta Event"@,
        DecodedKind::MetaText(_) => utf8_lossy(payload),
        DecodedKind::MetaTempo(tempo) => "Tempo: "@ + decimal(tempo as nat) + " µs/quarter"@,
        DecodedKind::MetaTimeSignature { numerator, denominator, clocks_per_click } => "Time Sig: "@
            + decimal(numerator as nat) + "/"@ + signed_decimal(shown_denominator(denominator))
            + " ("@ + decimal(clocks_per_click as nat) + ")"@,
        DecodedKind::MetaKeySignature { key, minor } => "Key Sig: "@ + signed_decimal(key as int)
            + (if minor {
            " minor"@
        } else {
            " major"@
        }),
        DecodedKind::MetaEndOfTrack => "End of Track"@,
        DecodedKind::MetaTrackNumber(_) => "Unknown Meta Event"@,
        DecodedKind::MetaMidiChannel(_) => "Unknown Meta Event"@,
        DecodedKind::MetaMidiPort(_) => "Unknown Meta Event"@,
        DecodedKind::MetaSmpteOffset { .. } => "Unknown Meta Event"@,
        DecodedKind::MetaSequencerSpecific => "Unknown Meta Event"@,
        DecodedKind::MetaUnknown(_) => "Unknown Meta Event"@,
    }
}

/// The event of the model that stands for a decoded event at the absolute
/// time `at`.
pub open spec fn normalized_event(event: DecodedEventView, at: u32) -> AbsoluteEventView {
    AbsoluteEventView {
        absolute_time: at,
        event_type: event_type_of(event.kind),
        channel: match event.kind {
            DecodedKind::Midi { channel, .. } => channel,
            _ => 0,
        },
        data1: match event.kind {
            DecodedKind::Midi { message, .. } => voice_fields(message).1,
            _ => 0,
        },
        data2: match event.kind {
            DecodedKind::Midi { message, .. } => voice_fields(message).2,
            _ => 0,
        },
        text: event_text(event.kind, event.payload),
        tempo: match event.kind {
            DecodedKind::MetaTempo(tempo) => tempo,
            _ => 0,
        },
    }
}

/// The events of the model for a decoded track: one for each decoded
/// event, in the same order, each at the absolute time reached with it.
pub open spec fn normalized_events(track: Seq<DecodedEventView>) -> Seq<AbsoluteEventView> {
    Seq::new(track.len(), |i: int| normalized_event(track[i], tick_after(track, i + 1) as u32))
}

/// The text of the last meta event of the given kind among the first `n`
/// events of a decoded track.
pub open spec fn last_text(track: Seq<DecodedEventView>, kind: TextKind, n: int) -> Option<
    Seq<char>,
>
    decreases n,
{
    if n <= 0 {
        None
    } else if track[n - 1].kind == DecodedKind::MetaText(kind) {
        Some(utf8_lossy(track[n - 1].payload))
    } else {
        last_text(track, kind, n - 1)
    }
}

/// The bitwise OR of `1 << channel` over the channel-voice events among
/// the first `n` events.
pub open spec fn channel_bits(events: Seq<AbsoluteEventView>, n: int) -> u16
    decreases n,
{
    if n <= 0 {
        0
    } else if events[n - 1].event_type.is_channel_voice() {
        channel_bits(events, n - 1) | (1u16 << (events[n - 1].channel as u16))
    } else {
        channel_bits(events, n - 1)
    }
}

/// The name of a track in which no track-name event occurs: "Track " and
/// the track's number, counted from one.
pub open spec fn default_track_name(track_idx: nat) -> Seq<char> {
    "Track "@ + decimal(track_idx + 1)
}

/// The track of the model for a decoded track. The last track-name and
/// instrument-name events give the names.
pub open spec fn normalized_track(track: Seq<DecodedEventView>, track_idx: nat) -> TrackDataView {
    TrackDataView {
        events: normalized_events(track),
        name: match last_text(track, TextKind::TrackName, track.len() as int) {
            Some(name) => name,
            None => default_track_name(track_idx),
        },
        instrument: last_text(track, TextKind::InstrumentName, track.len() as int),
        channel_mask: channel_bits(normalized_events(track), track.len() as int),
    }
}

/// The sum of the delta times of the first `n` events of a decoded track.
pub open spec fn delta_sum(track: Seq<DecodedEventView>, n: int) -> nat
    decreases n,
{
    if n <= 0 {
        0
    } else {
        delta_sum(track, n - 1) + track[n - 1].delta as nat
    }
}

/// The absolute time is the sum of the delta times, clamped to the
/// largest tick count: it never wraps around.
pub proof fn lemma_tick_is_clamped_sum(track: Seq<DecodedEventView>, n: int)
    requires
        n <= track.len(),
    ensures
        tick_after(track, n) == if delta_sum(track, n) > u32::MAX {
            u32::MAX as nat
        } else {
            delta_sum(track, n)
        },
    decreases n,
{
    if n > 0 {
        lemma_tick_is_clamped_sum(track, n - 1);
    }
}

/// The absolute times of a normalised track never decrease.
pub proof fn lemma_times_non_decreasing(track: Seq<DecodedEventView>, i: int, j: int)
    requires
        0 <= i <= j < track.len(),
    ensures
        normalized_events(track)[i].absolute_time <= normalized_events(track)[j].absolute_time,
    decreases j - i,
{
    if i < j {
        lemma_times_non_decreasing(track, i, j - 1);
    }
}

/// The data bytes of a well-formed message have seven bits each.
pub proof fn lemma_voice_fields_have_seven_bits(message: ChannelMessage)
    requires
        message_ok(message),
    ensures
        voice_fields(message).1 <= 127,
        voice_fields(message).2 <= 127,
{
    if let ChannelMessage::PitchBend { bend } = message {
        assert(bend & 0x7F <= 127) by (bit_vector);
        assert((bend >> 7) & 0x7F <= 127) by (bit_vector);
    }
}

/// The two data bytes of a pitch bend put its 14-bit value together
/// again: the second holds the high seven bits, the first the low seven.
pub proof fn lemma_pitch_bend_rebuilds(bend: u16)
    requires
        bend <= 0x3FFF,
    ensures
        voice_fields(ChannelMessage::PitchBend { bend }).0 == EventType::PitchBend,
        voice_fields(ChannelMessage::PitchBend { bend }).1 as u16 == bend & 0x7F,
        voice_fields(ChannelMessage::PitchBend { bend }).2 as u16 == (bend >> 7) & 0x7F,
        ((voice_fields(ChannelMessage::PitchBend { bend }).2 as u16) << 7) | (voice_fields(
            ChannelMessage::PitchBend { bend },
        ).1 as u16) == bend,
{
    let low = bend & 0x7F;
    let high = (bend >> 7) & 0x7F;
    assert(low <= 127) by (bit_vector)
        requires
            low == bend & 0x7F,
    ;
    assert(high <= 127) by (bit_vector)
        requires
            high == (bend >> 7) & 0x7F,
    ;
    assert((high << 7) | low == bend) by (bit_vector)
        requires
            bend <= 0x3FFF,
            low == bend & 0x7F,
            high == (bend >> 7) & 0x7F,
    ;
    assert((low as u8) as u16 == low);
    assert((high as u8) as u16 == high);
}

/// Every event of a normalised track has data bytes of seven bits; an
/// event that is no channel-voice message has channel and data zero.
pub proof fn lemma_data_bytes_have_seven_bits(track: Seq<DecodedEventView>, i: int)
    requires
        track_ok(track),
        0 <= i < track.len(),
    ensures
        normalized_events(track)[i].channel < 16,
        normalized_events(track)[i].data1 <= 127,
        normalized_events(track)[i].data2 <= 127,
        !(track[i].kind is Midi) ==> normalized_events(track)[i].channel == 0 && normalized_events(
            track,
        )[i].data1 == 0 && normalized_events(track)[i].data2 == 0,
        track[i].kind is Midi ==> normalized_events(track)[i].text.len() == 0,
{
    assert(event_ok(track[i]));
    if let DecodedKind::Midi { message, .. } = track[i].kind {
        lemma_voice_fields_have_seven_bits(message);
    }
}

/// A note-on event of a normalised track has a velocity other than zero: a
/// decoded note-on with velocity zero has become a note-off.
pub proof fn lemma_note_on_has_velocity(track: Seq<DecodedEventView>, i: int)
    requires
        0 <= i < track.len(),
    ensures
        normalized_events(track)[i].event_type == EventType::NoteOn ==> normalized_events(
            track,
        )[i].data2 != 0,
        track[i].kind matches DecodedKind::Midi { message: ChannelMessage::NoteOn { vel, .. }, .. }
            ==> (vel == 0 ==> normalized_events(track)[i].event_type == EventType::NoteOff),
{
}

/// The channel mask of a normalised track has bit `c` set exactly when one
/// of its channel-voice events is addressed to channel `c`.
pub proof fn lemma_channel_bits_exact(events: Seq<AbsoluteEventView>, n: int, c: u16)
    requires
        0 <= n <= events.len(),
        c < 16,
        forall|i: int| 0 <= i < n ==> (#[trigger] events[i]).channel < 16,
    ensures
        (channel_bits(events, n) & (1u16 << c) != 0) <==> exists|i: int|
            0 <= i < n && (#[trigger] events[i]).event_type.is_channel_voice() && events[i].channel
                == c,
    decreases n,
{
    if n <= 0 {
        assert(0u16 & (1u16 << c) == 0) by (bit_vector);
    } else {
        lemma_channel_bits_exact(events, n - 1, c);
        let rest = channel_bits(events, n - 1);
        let last = events[n - 1];
        if last.event_type.is_channel_voice() {
            let d = last.channel as u16;
            assert(((rest | (1u16 << d)) & (1u16 << c) != 0) <==> ((rest & (1u16 << c) != 0) || d
                == c)) by (bit_vector)
                requires
                    c < 16,
                    d < 16,
            ;
        }
    }
}

/// The event type and data bytes of a channel-voice message.
pub fn classify_voice(message: ChannelMessage) -> (r: (EventType, u8, u8))
    ensures
        r == voice_fields(message),
{
    match message {
        ChannelMessage::NoteOff { key, vel } => (EventType::NoteOff, key, vel),
        ChannelMessage::NoteOn { key, vel } => {
            if vel == 0 {
                (EventType::NoteOff, key, vel)
            } else {
                (EventType::NoteOn, key, vel)
            }
        },
        ChannelMessage::Aftertouch { key, vel } => (EventType::PolyphonicAftertouch, key, vel),
        ChannelMessage::Controller { controller, value } => (
            EventType::ControlChange,
            controller,
            value,
        ),
        ChannelMessage::ProgramChange { program } => (EventType::ProgramChange, program, 0),
        ChannelMessage::ChannelAftertouch { vel } => (EventType::ChannelAftertouch, vel, 0),
        ChannelMessage::PitchBend { bend } => {
            let low: u16 = bend & 0x7F;
            let high: u16 = (bend >> 7) & 0x7F;
            assert(bend & 0x7F <= 127) by (bit_vector);
            assert((bend >> 7) & 0x7F <= 127) by (bit_vector);
            (EventType::PitchBend, low as u8, high as u8)
        },
    }
}

fn text_type(kind: TextKind) -> (r: EventType)
    ensures
        r == text_event_type(kind),
{
    match kind {
        TextKind::Text => EventType::MetaText,
        TextKind::Copyright => EventType::MetaCopyright,
        TextKind::TrackName => EventType::MetaTrackName,
        TextKind::InstrumentName => EventType::MetaInstrumentName,
        TextKind::Lyric => EventType::MetaLyric,
        TextKind::Marker => EventType::MetaMarker,
        TextKind::CuePoint => EventType::MetaCuePoint,
        TextKind::ProgramName => EventType::Unknown,
        TextKind::DeviceName => EventType::Unknown,
    }
}

fn describe_time_signature(numerator: u8, denominator: u8, clocks_per_click: u8) -> (r: String)
    ensures
        r@ == event_text(
            DecodedKind::MetaTimeSignature { numerator, denominator, clocks_per_click },
            Seq::empty(),
        ),
{
    let shifted: u32 = 1u32 << ((denominator % 32) as u32);
    let shown: i64 = if shifted == 0x8000_0000u32 {
        -2147483648i64
    } else {
        shifted as i64
    };
    let mut text = String::from_str("Time Sig: ");
    push_decimal(&mut text, numerator as u128);
    text.append("/");
    push_signed_decimal(&mut text, shown);
    text.append(" (");
    push_decimal(&mut text, clocks_per_click as u128);
    text.append(")");
    text
}

/// The description of a decoded event.
pub fn describe_event(kind: DecodedKind, payload: &Vec<u8>) -> (r: String)
    ensures
        r@ == event_text(kind, payload@),
{
    match kind {
        DecodedKind::Midi { .. } => String::new(),
        DecodedKind::SysEx => {
            let mut text = String::from_str("SysEx: ");
            push_decimal(&mut text, payload.len() as u128);
            text.append(" bytes");
            text
        },
        DecodedKind::Escape => String::from_str("Escape Sequence"),
        DecodedKind::MetaText(TextKind::ProgramName) => String::from_str("Unknown Meta Event"),
        DecodedKind::MetaText(TextKind::DeviceName) => String::from_str("Unknown Meta Event"),
        DecodedKind::MetaText(_) => lossy_text(payload.as_slice()),
        DecodedKind::MetaTempo(tempo) => {
            let mut text = String::from_str("Tempo: ");
            push_decimal(&mut text, tempo as u128);
            text.append(" µs/quarter");
            text
        },
        DecodedKind::MetaTimeSignature { numerator, denominator, clocks_per_click } => {
            describe_time_signature(numerator, denominator, clocks_per_click)
        },
        DecodedKind::MetaKeySignature { key, minor } => {
            let mut text = String::from_str("Key Sig: ");
            push_signed_decimal(&mut text, key as i64);
            if minor {
                text.append(" minor");
            } else {
                text.append(" major");
            }
            text
        },
        DecodedKind::MetaEndOfTrack => String::from_str("End of Track"),
        DecodedKind::MetaTrackNumber(_)
        | DecodedKind::MetaMidiChannel(_)
        | DecodedKind::MetaMidiPort(_)
        | DecodedKind::MetaSmpteOffset { .. }
        | DecodedKind::MetaSequencerSpecific
        | DecodedKind::MetaUnknown(_) => String::from_str("Unknown Meta Event"),
    }
}

/// The event of the model for one decoded event at the absolute time `at`.
pub fn normalize_event(event: &DecodedEvent, at: u32) -> (r: AbsoluteEvent)
    ensures
        r@ == normalized_event(event@, at),
{
    let text = describe_event(event.kind, &event.payload);
    match event.kind {
        DecodedKind::Midi { channel, message } => {
            let (event_type, data1, data2) = classify_voice(message);
            AbsoluteEvent { absolute_time: at, event_type, channel, data1, data2, text, tempo: 0 }
        },
        DecodedKind::SysEx => AbsoluteEvent {
            absolute_time: at,
            event_type: EventType::SystemExclusive,
            channel: 0,
            data1: 0,
            data2: 0,
            text,
            tempo: 0,
        },
        DecodedKind::Escape => AbsoluteEvent {
            absolute_time: at,
            event_type: EventType::SystemExclusive,
            channel: 0,
            data1: 0,
            data2: 0,
            text,
            tempo: 0,
        },
        DecodedKind::MetaText(text_kind) => AbsoluteEvent {
            absolute_time: at,
            event_type: text_type(text_kind),
            channel: 0,
            data1: 0,
            data2: 0,
            text,
            tempo: 0,
        },
        DecodedKind::MetaTempo(tempo) => AbsoluteEvent {
            absolute_time: at,
            event_type: EventType::MetaSetTempo,
            channel: 0,
            data1: 0,
            data2: 0,
            text,
            tempo,
        },
        DecodedKind::MetaTimeSignature { .. } => AbsoluteEvent {
            absolute_time: at,
            event_type: EventType::MetaTimeSignature,
            channel: 0,
            data1: 0,
            data2: 0,
            text,
            tempo: 0,
        },
        DecodedKind::MetaKeySignature { .. } => AbsoluteEvent {
            absolute_time: at,
            event_type: EventType::MetaKeySignature,
            channel: 0,
            data1: 0,
            data2: 0,
            text,
            tempo: 0,
        },
        DecodedKind::MetaEndOfTrack => AbsoluteEvent {
            absolute_time: at,
            event_type: EventType::MetaEndOfTrack,
            channel: 0,
            data1: 0,
            data2: 0,
            text,
            tempo: 0,
        },
        DecodedKind::MetaTrackNumber(_)
        | DecodedKind::MetaMidiChannel(_)
        | DecodedKind::MetaMidiPort(_)
        | DecodedKind::MetaSmpteOffset { .. }
        | DecodedKind::MetaSequencerSpecific
        | DecodedKind::MetaUnknown(_) => AbsoluteEvent {
            absolute_time: at,
            event_type: EventType::Unknown,
            channel: 0,
            data1: 0,
            data2: 0,
            text,
            tempo: 0,
        },
    }
}

impl TrackData {
    /// What holds of every track of the model: its times never decrease,
    /// its channels are MIDI channels, its data bytes have seven bits, no
    /// note-on has velocity zero, and its channel mask has exactly the
    /// bits of its channel-voice events.
    pub open spec fn wf(&self) -> bool {
        let events = self@.events;
        &&& forall|i: int, j: int|
            0 <= i <= j < events.len() ==> events[i].absolute_time <= events[j].absolute_time
        &&& forall|i: int| 0 <= i < events.len() ==> (#[trigger] events[i]).channel < 16
        &&& forall|i: int|
            0 <= i < events.len() ==> (#[trigger] events[i]).data1 <= 127 && events[i].data2 <= 127
        &&& forall|i: int|
            0 <= i < events.len() && (#[trigger] events[i]).event_type == EventType::NoteOn
                ==> events[i].data2 != 0
        &&& self.channel_mask == channel_bits(events, events.len() as int)
    }
}

/// A loaded MIDI file: its tracks with the header's timing and format.
#[derive(Debug, Clone)]
pub struct MidiFile {
    pub tracks: Vec<TrackData>,
    pub timing: Timing,
    /// 0 for a single track, 1 for parallel tracks, 2 for sequential ones.
    pub format: u16,
}

/// The number that stands for a format in a file's header.
pub open spec fn format_code(format: Format) -> u16 {
    match format {
        Format::SingleTrack => 0,
        Format::Parallel => 1,
        Format::Sequential => 2,
    }
}

impl MidiFile {
    /// Turns one decoded track into a track of the model: each event at
    /// its absolute time, the names from the last name events, the mask
    /// from the channels in use.
    pub fn process_track(track: &Vec<DecodedEvent>, track_idx: usize, _timing: Timing) -> (r:
        TrackData)
        requires
            track_ok(track_view(track@)),
        ensures
            r@ == normalized_track(track_view(track@), track_idx as nat),
            r.wf(),
    {
        let ghost tv = track_view(track@);
        let mut events: Vec<AbsoluteEvent> = Vec::new();
        let mut absolute_time: u32 = 0;
        let mut track_name = String::from_str("Track ");
        push_decimal(&mut track_name, track_idx as u128 + 1);
        let mut instrument_name: Option<String> = None;
        let mut channel_mask: u16 = 0;
        let mut i: usize = 0;
        while i < track.len()
            invariant
                i <= track.len(),
                tv == track_view(track@),
                track_ok(tv),
                absolute_time == tick_after(tv, i as int),
                events.len() == i,
                forall|k: int| 0 <= k < i ==> (#[trigger] events[k])@ == normalized_events(tv)[k],
                channel_mask == channel_bits(normalized_events(tv), i as int),
                track_name@ == (match last_text(tv, TextKind::TrackName, i as int) {
                    Some(name) => name,
                    None => default_track_name(track_idx as nat),
                }),
                text_option_view(instrument_name) == last_text(
                    tv,
                    TextKind::InstrumentName,
                    i as int,
                ),
            decreases track.len() - i,
        {
            let event = &track[i];
            assert(tv[i as int] == event@);
            assert(event_ok(tv[i as int]));
            absolute_time = absolute_time.saturating_add(event.delta);
            let normalized = normalize_event(event, absolute_time);
            assert(normalized@ == normalized_events(tv)[i as int]);
            match event.kind {
                DecodedKind::Midi { channel, .. } => {
                    channel_mask = channel_mask | (1u16 << (channel as u16));
                },
                DecodedKind::MetaText(TextKind::TrackName) => {
                    track_name = normalized.text.clone();
                },
                DecodedKind::MetaText(TextKind::InstrumentName) => {
                    instrument_name = Some(normalized.text.clone());
                },
                _ => {},
            }
            events.push(normalized);
            i += 1;
        }
        let r = TrackData { events, name: track_name, instrument: instrument_name, channel_mask };
        proof {
            assert(r@.events =~= normalized_events(tv));
            assert forall|a: int, b: int| 0 <= a <= b < r@.events.len() implies r@.events[a].absolute_time
                <= r@.events[b].absolute_time by {
                lemma_times_non_decreasing(tv, a, b);
            }
            assert forall|a: int| 0 <= a < r@.events.len() implies (#[trigger] r@.events[a]).channel
                < 16 && r@.events[a].data1 <= 127 && r@.events[a].data2 <= 127 by {
                lemma_data_bytes_have_seven_bits(tv, a);
            }
        }
        r
    }

    /// Builds the file of the model from its decoded header and tracks.
    pub fn from_decoded(format: Format, timing: Timing, tracks: &Vec<Vec<DecodedEvent>>) -> (r:
        MidiFile)
        requires
            forall|i: int| 0 <= i < tracks.len() ==> track_ok(#[trigger] decoded_view(tracks@)[i]),
        ensures
            r@ == normalized_file(SmfView { format, timing, tracks: decoded_view(tracks@) }),
            r.wf(),
    {
        let ghost decoded = SmfView { format, timing, tracks: decoded_view(tracks@) };
        let code: u16 = match format {
            Format::SingleTrack => 0,
            Format::Parallel => 1,
            Format::Sequential => 2,
        };
        let mut result: Vec<TrackData> = Vec::new();
        let mut i: usize = 0;
        while i < tracks.len()
            invariant
                i <= tracks.len(),
                result.len() == i,
                decoded.tracks == decoded_view(tracks@),
                forall|k: int|
                    0 <= k < tracks.len() ==> track_ok(#[trigger] decoded_view(tracks@)[k]),
                forall|k: int|
                    0 <= k < i ==> (#[trigger] result[k])@ == normalized_track(
                        decoded.tracks[k],
                        k as nat,
                    ) && result[k].wf(),
            decreases tracks.len() - i,
        {
            assert(track_ok(decoded_view(tracks@)[i as int]));
            let track = Self::process_track(&tracks[i], i, timing);
            result.push(track);
            i += 1;
        }
        let r = MidiFile { tracks: result, timing, format: code };
        assert(r@.tracks =~= normalized_file(decoded).tracks);
        r
    }

    /// Decodes a Standard MIDI File into its format, its timing and its
    /// tracks as the decoder found them. Bytes that the decoder rejects
    /// give `DecodeFailure`, and so do bytes that it cannot be given.
    pub fn decode(data: &[u8]) -> (r: Result<(Format, Timing, Vec<Vec<DecodedEvent>>), MidiError>)
        ensures
            match r {
                Ok((format, timing, tracks)) => decodable(data@) && smf_decoding(data@)->Some_0 == (
                SmfView { format, timing, tracks: decoded_view(tracks@) }) && (forall|i: int|
                    0 <= i < tracks.len() ==> track_ok(#[trigger] decoded_view(tracks@)[i])),
                Err(e) => e == MidiError::DecodeFailure && !decodable(data@),
            },
    {
        if has_timing_hazard(data) {
            return Err(MidiError::DecodeFailure);
        }
        let smf = match parse_smf(data) {
            Ok(smf) => smf,
            Err(_) => {
                return Err(MidiError::DecodeFailure);
            },
        };
        let format = smf_format(&smf);
        let timing = smf_timing(&smf);
        let count = smf_track_count(&smf);
        let mut tracks: Vec<Vec<DecodedEvent>> = Vec::new();
        let mut i: usize = 0;
        while i < count
            invariant
                i <= count,
                count == smf_contents(smf).tracks.len(),
                tracks.len() == i,
                forall|k: int|
                    0 <= k < i ==> track_view((#[trigger] tracks[k])@) == smf_contents(
                        smf,
                    ).tracks[k] && track_ok(track_view(tracks[k]@)),
            decreases count - i,
        {
            let track = decode_track(&smf, i);
            tracks.push(track);
            i += 1;
        }
        assert(decoded_view(tracks@) =~= smf_contents(smf).tracks);
        Ok((format, timing, tracks))
    }

    /// Decodes a Standard MIDI File and builds the file of the model from
    /// it. Bytes that the decoder rejects give `DecodeFailure`, and so do
    /// bytes that it cannot be given.
    pub fn from_bytes(data: &[u8]) -> (r: Result<MidiFile, MidiError>)
        ensures
            match r {
                Ok(file) => decodable(data@) && file@ == normalized_file(
                    smf_decoding(data@)->Some_0,
                ) && file.wf(),
                Err(e) => e == MidiError::DecodeFailure && !decodable(data@),
            },
    {
        match Self::decode(data) {
            Ok((format, timing, tracks)) => Ok(Self::from_decoded(format, timing, &tracks)),
            Err(e) => Err(e),
        }
    }

    /// Every track of the file is well formed.
    pub open spec fn wf(&self) -> bool {
        forall|i: int| 0 <= i < self.tracks.len() ==> (#[trigger] self.tracks[i]).wf()
    }

    /// The length of the file in ticks: the largest absolute time at which
    /// a track ends, zero where no track holds an event.
    pub fn get_duration_ticks(&self) -> (r: u32)
        ensures
            forall|i: int|
                0 <= i < self.tracks.len() && (#[trigger] self.tracks[i]).events.len() > 0
                    ==> self.tracks[i].events@.last().absolute_time <= r,
            r == 0 || exists|i: int|
                0 <= i < self.tracks.len() && (#[trigger] self.tracks[i]).events.len() > 0
                    && self.tracks[i].events@.last().absolute_time == r,
    {
        let mut longest: u32 = 0;
        let mut i: usize = 0;
        while i < self.tracks.len()
            invariant
                i <= self.tracks.len(),
                forall|k: int|
                    0 <= k < i && (#[trigger] self.tracks[k]).events.len() > 0
                        ==> self.tracks[k].events@.last().absolute_time <= longest,
                longest == 0 || exists|k: int|
                    0 <= k < i && (#[trigger] self.tracks[k]).events.len() > 0
                        && self.tracks[k].events@.last().absolute_time == longest,
            decreases self.tracks.len() - i,
        {
            let track = &self.tracks[i];
            let n = track.events.len();
            if n > 0 {
                let end = track.events[n - 1].absolute_time;
                if end > longest {
                    longest = end;
                }
            }
            i += 1;
        }
        longest
    }
}

/// Whether a buffer is decoded: the decoder can be given it and finds a
/// Standard MIDI File in it.
pub open spec fn decodable(data: Seq<u8>) -> bool {
    !timing_hazard(data) && smf_decoding(data) is Some
}

/// The values of a sequence of decoded tracks, in order.
pub open spec fn decoded_view(tracks: Seq<Vec<DecodedEvent>>) -> Seq<Seq<DecodedEventView>> {
    Seq::new(tracks.len(), |i: int| track_view(tracks[i]@))
}

/// The mathematical value of a [`MidiFile`].
pub struct MidiFileView {
    pub tracks: Seq<TrackDataView>,
    pub timing: Timing,
    pub format: u16,
}

impl View for MidiFile {
    type V = MidiFileView;

    open spec fn view(&self) -> MidiFileView {
        MidiFileView {
            tracks: tracks_view(self.tracks@),
            timing: self.timing,
            format: self.format,
        }
    }
}

/// The file of the model for a decoded file: each track normalised under
/// its index, the timing kept, the format as its number.
pub open spec fn normalized_file(decoded: SmfView) -> MidiFileView {
    MidiFileView {
        tracks: Seq::new(
            decoded.tracks.len(),
            |i: int| normalized_track(decoded.tracks[i], i as nat),
        ),
        timing: decoded.timing,
        format: format_code(decoded.format),
    }
}

/// The loaded files of a process behind their handles. Handles start at
/// one and only grow.
pub struct FileRegistry {
    next_handle: i32,
    files: HashMap<i32, MidiFile>,
}

impl FileRegistry {
    /// The handle that the next load returns.
    pub closed spec fn next_handle(&self) -> int {
        self.next_handle as int
    }

    /// The loaded files behind their handles.
    pub closed spec fn files(&self) -> Map<i32, MidiFile> {
        self.files@
    }

    /// Whether a handle was ever handed out.
    pub open spec fn issued(&self, handle: i32) -> bool {
        1 <= handle < self.next_handle()
    }

    /// Every handle in the table was handed out, the counter is positive,
    /// and every file is well formed.
    pub open spec fn wf(&self) -> bool {
        &&& self.next_handle() >= 1
        &&& forall|h: i32| #[trigger] self.files().contains_key(h) ==> self.issued(h)
        &&& forall|h: i32| #[trigger] self.files().contains_key(h) ==> self.files()[h].wf()
    }

    /// An empty registry whose first handle is one.
    pub fn new() -> (r: FileRegistry)
        ensures
            r.wf(),
            r.next_handle() == 1,
            r.files() == Map::<i32, MidiFile>::empty(),
    {
        FileRegistry { next_handle: 1, files: HashMap::new() }
    }

    /// Whether a handle is left to hand out.
    pub fn has_free_handle(&self) -> (r: bool)
        ensures
            r == (self.next_handle() < i32::MAX),
    {
        self.next_handle < i32::MAX
    }
}

/// Hands out the next file handle.
pub fn get_next_file_handle(registry: &mut FileRegistry) -> (handle: i32)
    requires
        old(registry).wf(),
        old(registry).next_handle() < i32::MAX,
    ensures
        final(registry).wf(),
        handle == old(registry).next_handle(),
        handle >= 1,
        !old(registry).issued(handle),
        final(registry).next_handle() == handle + 1,
        final(registry).files() == old(registry).files(),
{
    let handle = registry.next_handle;
    registry.next_handle = handle + 1;
    assert(registry.files() == old(registry).files());
    handle
}

/// Loads a file from its bytes and puts it behind a new handle. Bytes
/// that the decoder rejects give `DecodeFailure`, spend no handle and
/// change nothing.
pub fn load_midi_file(registry: &mut FileRegistry, data: &[u8]) -> (r: Result<i32, MidiError>)
    requires
        old(registry).wf(),
        old(registry).next_handle() < i32::MAX,
    ensures
        final(registry).wf(),
        match r {
            Ok(handle) => {
                &&& decodable(data@)
                &&& handle == old(registry).next_handle()
                &&& final(registry).next_handle() == handle + 1
                &&& final(registry).files().dom() == old(registry).files().dom().insert(handle)
                &&& final(registry).files()[handle]@ == normalized_file(
                    smf_decoding(data@)->Some_0,
                )
                &&& forall|h: i32|
                    old(registry).files().contains_key(h) ==> final(registry).files()[h] == old(registry).files()[h]
            },
            Err(e) => e == MidiError::DecodeFailure && !decodable(data@) && final(registry).next_handle() == old(registry).next_handle() && final(registry).files() == old(registry).files(),
        },
{
    match MidiFile::from_bytes(data) {
        Ok(file) => {
            let handle = get_next_file_handle(registry);
            registry.files.insert(handle, file);
            assert(registry.files() == old(registry).files().insert(handle, file));
            Ok(handle)
        },
        Err(e) => Err(e),
    }
}

/// The file behind a handle, if there is one.
pub fn get_midi_file(registry: &FileRegistry, handle: i32) -> (r: Option<&MidiFile>)
    ensures
        match r {
            Some(file) => registry.files().contains_key(handle) && *file == registry.files()[handle],
            None => !registry.files().contains_key(handle),
        },
{
    registry.files.get(&handle)
}

/// Removes the file behind a handle and says whether there was one.
pub fn close_midi_file(registry: &mut FileRegistry, handle: i32) -> (r: bool)
    requires
        old(registry).wf(),
    ensures
        final(registry).wf(),
        r == old(registry).files().contains_key(handle),
        final(registry).next_handle() == old(registry).next_handle(),
        final(registry).files() == old(registry).files().remove(handle),
{
    let removed = registry.files.remove(&handle);
    assert(registry.files() == old(registry).files().remove(handle));
    removed.is_some()
}

} // verus!
