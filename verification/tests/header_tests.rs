use lv_midi::error::MidiError;
use lv_midi::header::has_timing_hazard;
use lv_midi::midi_file::MidiFile;

fn block(tag: &[u8], body: &[u8]) -> Vec<u8> {
    let mut out = tag.to_vec();
    out.extend_from_slice(&(body.len() as u32).to_be_bytes());
    out.extend_from_slice(body);
    out
}

fn wrapped(midi: &[u8]) -> Vec<u8> {
    let mut form = b"RMID".to_vec();
    form.extend_from_slice(b"data");
    form.extend_from_slice(&(midi.len() as u32).to_le_bytes());
    form.extend_from_slice(midi);
    if midi.len() % 2 == 1 {
        form.push(0);
    }
    let mut out = b"RIFF".to_vec();
    out.extend_from_slice(&(form.len() as u32).to_le_bytes());
    out.extend_from_slice(&form);
    out
}

#[derive(Clone, Copy, PartialEq, Debug)]
enum Piece {
    SoundHeader,
    TimecodeHeader,
    HazardHeader,
    BadFormatHeader,
    ShortHeader,
    BadRateHeader,
    Track,
    BrokenTrack,
    LongTrack,
    Unknown,
    Stub,
    OverlongHazardHeader,
}

const PIECES: [Piece; 12] = [
    Piece::SoundHeader,
    Piece::TimecodeHeader,
    Piece::HazardHeader,
    Piece::BadFormatHeader,
    Piece::ShortHeader,
    Piece::BadRateHeader,
    Piece::Track,
    Piece::BrokenTrack,
    Piece::LongTrack,
    Piece::Unknown,
    Piece::Stub,
    Piece::OverlongHazardHeader,
];

fn bytes_of(piece: Piece) -> Vec<u8> {
    match piece {
        Piece::SoundHeader => block(b"MThd", &[0x00, 0x01, 0x00, 0x00, 0x01, 0xE0]),
        Piece::TimecodeHeader => block(b"MThd", &[0x00, 0x00, 0x00, 0x01, 0xE7, 0x28]),
        Piece::HazardHeader => block(b"MThd", &[0x00, 0x00, 0x00, 0x00, 0x80, 0x00]),
        Piece::BadFormatHeader => block(b"MThd", &[0x00, 0x03, 0x00, 0x00, 0x80, 0x00]),
        Piece::ShortHeader => block(b"MThd", &[0x00, 0x00, 0x00, 0x00, 0x80]),
        Piece::BadRateHeader => block(b"MThd", &[0x00, 0x00, 0x00, 0x00, 0x81, 0x00]),
        Piece::Track => block(b"MTrk", &[0x00, 0xFF, 0x2F, 0x00]),
        Piece::BrokenTrack => block(b"MTrk", &[0x00, 0x90]),
        Piece::LongTrack => {
            let mut body = Vec::new();
            for _ in 0..1000 {
                body.extend_from_slice(&[0x00, 0x90, 0x3C, 0x40]);
            }
            block(b"MTrk", &body)
        }
        Piece::Unknown => block(b"junk", &[1, 2, 3]),
        Piece::Stub => b"MTh".to_vec(),
        Piece::OverlongHazardHeader => {
            let mut out = b"MThd".to_vec();
            out.extend_from_slice(&[0xFF, 0xFF, 0xFF, 0xFF, 0x00, 0x02, 0x00, 0x00, 0x80, 0x00]);
            out
        }
    }
}

fn ends_a_buffer(piece: Piece) -> bool {
    piece == Piece::Stub || piece == Piece::OverlongHazardHeader
}

fn expected_hazard(pieces: &[Piece]) -> bool {
    let mut after_header = false;
    for piece in pieces {
        match piece {
            Piece::HazardHeader | Piece::OverlongHazardHeader => return true,
            Piece::SoundHeader | Piece::TimecodeHeader => after_header = true,
            Piece::BadFormatHeader | Piece::ShortHeader | Piece::BadRateHeader | Piece::Stub => {
                return false
            }
            Piece::Track | Piece::BrokenTrack | Piece::LongTrack => {
                if !after_header {
                    return false;
                }
            }
            Piece::Unknown => {}
        }
    }
    false
}

fn try_buffer(pieces: &[Piece]) {
    let mut plain = Vec::new();
    for piece in pieces {
        plain.extend_from_slice(&bytes_of(*piece));
    }
    let starts_as_midi = plain.starts_with(b"MThd");
    for (buffer, is_window) in [(plain.clone(), starts_as_midi), (wrapped(&plain), true)] {
        let hazard = has_timing_hazard(&buffer);
        assert_eq!(hazard, is_window && expected_hazard(pieces), "{:?}", pieces);
        let decoded = MidiFile::from_bytes(&buffer);
        if hazard {
            assert_eq!(decoded.err(), Some(MidiError::DecodeFailure), "{:?}", pieces);
        }
    }
}

#[test]
fn a_second_header_with_the_byte_is_a_decode_failure() {
    let mut bytes = block(b"MThd", &[0x00, 0x01, 0x00, 0x00, 0x01, 0xE0]);
    bytes.extend_from_slice(&block(b"MThd", &[0x00, 0x00, 0x00, 0x00, 0x80, 0x00]));
    assert_eq!(bytes.len(), 28);
    assert!(has_timing_hazard(&bytes));
    assert_eq!(MidiFile::from_bytes(&bytes).err(), Some(MidiError::DecodeFailure));
    let mut behind_tracks = block(b"MThd", &[0x00, 0x01, 0x00, 0x02, 0x01, 0xE0]);
    behind_tracks.extend_from_slice(&block(b"MTrk", &[0x00, 0xFF, 0x2F, 0x00]));
    behind_tracks.extend_from_slice(&block(b"junk", &[7]));
    behind_tracks.extend_from_slice(&block(b"MThd", &[0x00, 0x02, 0x00, 0x00, 0x80, 0x00]));
    behind_tracks.extend_from_slice(&block(b"MTrk", &[0x00, 0xFF, 0x2F, 0x00]));
    assert!(has_timing_hazard(&behind_tracks));
    assert_eq!(MidiFile::from_bytes(&behind_tracks).err(), Some(MidiError::DecodeFailure));
}

#[test]
fn a_second_header_is_read_only_as_far_as_the_decoder_reads() {
    let sound = block(b"MThd", &[0x00, 0x01, 0x00, 0x01, 0x01, 0xE0]);
    let track = block(b"MTrk", &[0x00, 0xFF, 0x2F, 0x00]);
    let hazard = block(b"MThd", &[0x00, 0x00, 0x00, 0x00, 0x80, 0x00]);
    let behind_a_refused_header =
        [sound.clone(), track.clone(), block(b"MThd", &[0, 0, 0, 0, 0x81, 0]), hazard.clone()]
            .concat();
    assert!(!has_timing_hazard(&behind_a_refused_header));
    assert_eq!(MidiFile::from_bytes(&behind_a_refused_header).unwrap().tracks.len(), 1);
    let behind_a_short_header =
        [sound.clone(), track.clone(), block(b"MThd", &[0, 0]), hazard.clone()].concat();
    assert!(!has_timing_hazard(&behind_a_short_header));
    assert_eq!(MidiFile::from_bytes(&behind_a_short_header).unwrap().tracks.len(), 1);
    let second_sound = [sound.clone(), sound.clone(), track.clone()].concat();
    assert!(!has_timing_hazard(&second_sound));
    assert_eq!(MidiFile::from_bytes(&second_sound).unwrap().tracks.len(), 1);
    let cut_off = [sound.clone(), track.clone(), b"MThd\x00\x00\x00".to_vec()].concat();
    assert!(!has_timing_hazard(&cut_off));
    assert_eq!(MidiFile::from_bytes(&cut_off).unwrap().tracks.len(), 1);
    let rates = [0xE8u8, 0xE7, 0xE3, 0xE2];
    for rate in rates {
        let behind =
            [sound.clone(), block(b"MThd", &[0, 0, 0, 0, rate, 4]), hazard.clone()].concat();
        assert!(has_timing_hazard(&behind));
    }
}

#[test]
fn the_decoder_takes_every_buffer_that_is_let_through() {
    for a in PIECES {
        try_buffer(&[a]);
        if ends_a_buffer(a) {
            continue;
        }
        for b in PIECES {
            try_buffer(&[a, b]);
            if ends_a_buffer(b) {
                continue;
            }
            for c in PIECES {
                try_buffer(&[a, b, c]);
            }
        }
    }
}

#[test]
fn headers_far_behind_are_found_too() {
    let far = [
        Piece::Unknown,
        Piece::SoundHeader,
        Piece::LongTrack,
        Piece::Track,
        Piece::TimecodeHeader,
        Piece::BrokenTrack,
        Piece::Unknown,
        Piece::HazardHeader,
    ];
    try_buffer(&far);
    let stopped = [
        Piece::SoundHeader,
        Piece::LongTrack,
        Piece::BadRateHeader,
        Piece::HazardHeader,
    ];
    try_buffer(&stopped);
    let sound = [Piece::SoundHeader, Piece::LongTrack, Piece::Track, Piece::SoundHeader];
    try_buffer(&sound);
}
