use bytes::BytesMut;
use midi_parser::note::{NoteError, Notes};
use midi_parser::parser::{
    read_str, read_value, EventData, MetaData, MidiError, MidiFile, SysExMeta,
};
use midi_parser::status::{Status, StatusType, SYSTEM_MESSAGE_ERROR};

fn header(tracks: u16, division: u16) -> Vec<u8> {
    let mut v = b"MThd".to_vec();
    v.extend_from_slice(&[0, 0, 0, 6, 0, 1]);
    v.extend_from_slice(&tracks.to_be_bytes());
    v.extend_from_slice(&division.to_be_bytes());
    v
}

fn chunk(events: &[u8]) -> Vec<u8> {
    let mut v = b"MTrk".to_vec();
    v.extend_from_slice(&(events.len() as u32).to_be_bytes());
    v.extend_from_slice(events);
    v
}

fn file(division: u16, tracks: &[&[u8]]) -> Vec<u8> {
    let mut v = header(tracks.len() as u16, division);
    for t in tracks {
        v.extend(chunk(t));
    }
    v
}

fn decode(data: &[u8]) -> Result<MidiFile, MidiError> {
    let mut f = MidiFile::create();
    f.parse(data).map(|_| f)
}

const END: [u8; 4] = [0x00, 0xFF, 0x2F, 0x00];

#[test]
fn vlq_single_byte_values() {
    let mut b = BytesMut::from(&[0x00u8, 0x7F, 0x11][..]);
    assert_eq!(read_value(&mut b), Ok(0));
    assert_eq!(b.len(), 2);
    assert_eq!(read_value(&mut b), Ok(0x7F));
    assert_eq!(&b[..], &[0x11]);
}

#[test]
fn vlq_multi_byte_values() {
    let cases: [(&[u8], u32); 6] = [
        (&[0x81, 0x00], 0x80),
        (&[0xC0, 0x00], 0x2000),
        (&[0xFF, 0x7F], 0x3FFF),
        (&[0x81, 0x80, 0x00], 0x4000),
        (&[0xC0, 0x80, 0x80, 0x00], 0x0800_0000),
        (&[0xFF, 0xFF, 0xFF, 0x7F], 0x0FFF_FFFF),
    ];
    for (bytes, value) in cases {
        let mut b = BytesMut::from(bytes);
        assert_eq!(read_value(&mut b), Ok(value));
        assert!(b.is_empty());
    }
}

#[test]
fn vlq_round_trip_of_encodings() {
    for v in [0u32, 1, 0x7F, 0x80, 0x3FFF, 0x4000, 0x1F_FFFF, 0x20_0000, 0x0FFF_FFFF] {
        let mut groups = vec![(v & 0x7F) as u8];
        let mut x = v >> 7;
        while x != 0 {
            groups.insert(0, (x & 0x7F) as u8 | 0x80);
            x >>= 7;
        }
        groups.push(0x55);
        let mut b = BytesMut::from(&groups[..]);
        assert_eq!(read_value(&mut b), Ok(v));
        assert_eq!(&b[..], &[0x55]);
    }
}

#[test]
fn vlq_truncated_is_eof() {
    let mut b = BytesMut::from(&[0x81u8, 0x80][..]);
    assert_eq!(read_value(&mut b), Err(MidiError::UnexpectedEof));
    let mut e = BytesMut::new();
    assert_eq!(read_value(&mut e), Err(MidiError::UnexpectedEof));
}

#[test]
fn read_str_reads_and_replaces_invalid_utf8() {
    let mut b = BytesMut::from(&b"Piano!"[..]);
    assert_eq!(read_str(&mut b, 5).unwrap(), "Piano");
    assert_eq!(&b[..], b"!");
    let mut bad = BytesMut::from(&[0x66u8, 0xFF, 0x6F][..]);
    assert_eq!(read_str(&mut bad, 3).unwrap(), "f\u{FFFD}o");
    let mut short = BytesMut::from(&b"ab"[..]);
    assert_eq!(read_str(&mut short, 3), Err(MidiError::UnexpectedEof));
}

#[test]
fn status_from_byte_categories() {
    let cases = [
        (0x80u8, StatusType::NoteOff),
        (0x93, StatusType::NoteOn),
        (0xA1, StatusType::PolyphonicAftertouch),
        (0xB0, StatusType::CtrlChange),
        (0xCF, StatusType::ProgramChange),
        (0xD2, StatusType::ChannelAftertouch),
        (0xE0, StatusType::PitchBendChange),
        (0xF0, StatusType::SystemMsg),
        (0xFF, StatusType::SystemMsg),
    ];
    for (byte, ty) in cases {
        let s = Status::from_byte(byte).unwrap();
        assert_eq!(s.status_type, ty);
        assert_eq!(s.raw_status, byte);
    }
    assert_eq!(Status::from_byte(0x45).unwrap_err(), MidiError::InvalidStatusByte(0x45));
}

#[test]
fn meta_type_bytes() {
    assert_eq!(SysExMeta::from(0x51), Some(SysExMeta::MetaSetTempo));
    assert_eq!(SysExMeta::from(0x2F), Some(SysExMeta::MetaEndOfTrack));
    assert_eq!(SysExMeta::from(0x7F), Some(SysExMeta::MetaSequencerSpecific));
    assert_eq!(SysExMeta::from(0x10), None);
}

#[test]
fn create_is_empty() {
    let f = MidiFile::create();
    assert_eq!((f.tempo, f.bpm, f.division), (0, 0, 0));
    assert!(f.tracks.is_empty());
}

#[test]
fn running_status_repeats_previous_status() {
    let track = [0x00, 0x90, 60, 64, 0x01, 0x45, 127];
    let f = decode(&file(96, &[&track])).unwrap();
    assert_eq!(f.division, 96);
    let ev = &f.tracks[0].events;
    assert_eq!(ev.len(), 2);
    assert!(matches!(ev[0].data, EventData::NoteOnOffData { key: 60, velocity: 64 }));
    assert!(matches!(ev[1].data, EventData::NoteOnOffData { key: 0x45, velocity: 127 }));
    assert_eq!(ev[0].status.status_type, StatusType::NoteOn);
    assert_eq!(ev[1].status.status_type, StatusType::NoteOn);
    assert_eq!((ev[0].delta_tick, ev[1].delta_tick), (0, 1));
    assert!(!f.tracks[0].end_of_track);
}

#[test]
fn running_status_resets_between_tracks() {
    let first: Vec<u8> = [0x00, 0x90, 60, 64].iter().chain(END.iter()).copied().collect();
    let second = [0x00, 62, 64];
    assert_eq!(
        decode(&file(96, &[&first, &second])).unwrap_err(),
        MidiError::UnresolvedRunningStatus
    );
}

#[test]
fn running_status_cleared_by_system_message() {
    let track = [0x00, 0x90, 60, 64, 0x00, 0xFF, 0x01, 0x01, b'x', 0x00, 62, 64];
    assert_eq!(decode(&file(96, &[&track])).unwrap_err(), MidiError::UnresolvedRunningStatus);
}

#[test]
fn tempo_is_set_by_first_event_only() {
    let track: Vec<u8> = [
        0x00, 0xFF, 0x51, 0x03, 0x07, 0xA1, 0x20, // 500000
        0x00, 0xFF, 0x51, 0x03, 0x0F, 0x42, 0x40, // 1000000
        0x00, 0xC0, 0x05,
    ]
    .iter()
    .chain(END.iter())
    .copied()
    .collect();
    let f = decode(&file(480, &[&track])).unwrap();
    assert_eq!(f.tempo, 500_000);
    assert_eq!(f.bpm, 120);
    let ev = &f.tracks[0].events;
    assert_eq!(ev.len(), 4);
    assert!(matches!(ev[0].data, EventData::SysexData { meta: MetaData::TripleU8(0x07, 0xA1, 0x20) }));
    assert!(matches!(ev[1].data, EventData::SysexData { meta: MetaData::Empty }));
    assert!(matches!(ev[2].data, EventData::ProgramChangeData { program_id: 5 }));
}

#[test]
fn tempo_carries_across_tracks() {
    let first: Vec<u8> = [0x00, 0xFF, 0x51, 0x03, 0x0F, 0x42, 0x40].iter().chain(END.iter()).copied().collect();
    let second: Vec<u8> = [0x00, 0xFF, 0x51, 0x03, 0x07, 0xA1, 0x20].iter().chain(END.iter()).copied().collect();
    let f = decode(&file(480, &[&first, &second])).unwrap();
    assert_eq!((f.tempo, f.bpm), (1_000_000, 60));
    assert!(matches!(f.tracks[1].events[0].data, EventData::SysexData { meta: MetaData::Empty }));
}

#[test]
fn time_signature_denominator_is_shifted() {
    let track: Vec<u8> = [0x00, 0xFF, 0x58, 0x04, 0x04, 0x02, 0x18, 0x08].iter().chain(END.iter()).copied().collect();
    let f = decode(&file(96, &[&track])).unwrap();
    assert!(matches!(
        f.tracks[0].events[0].data,
        EventData::SysexData { meta: MetaData::QuadU8(4, 8, 0x18, 8) }
    ));
}

#[test]
fn end_of_track_stops_decoding() {
    let track = [0x00, 0x90, 60, 64, 0x00, 0xFF, 0x2F, 0x00, 0x00, 0x80, 60, 0];
    let f = decode(&file(96, &[&track])).unwrap();
    let t = &f.tracks[0];
    assert!(t.end_of_track);
    assert_eq!(t.events.len(), 2);
    assert!(matches!(t.events[1].data, EventData::SysexData { meta: MetaData::Empty }));
}

#[test]
fn track_without_end_stops_at_end_of_bytes() {
    let track = [0x00, 0xB0, 7, 100, 0x10, 0xE0, 0x00, 0x40];
    let f = decode(&file(96, &[&track])).unwrap();
    let t = &f.tracks[0];
    assert!(!t.end_of_track);
    assert!(matches!(t.events[0].data, EventData::ControlData { control_id: 7, control_value: 100 }));
    assert!(matches!(t.events[1].data, EventData::PitchBendData { least_bytes: 0, most_bytes: 0x40 }));
    assert_eq!(t.events[1].delta_tick, 0x10);
}

#[test]
fn names_and_texts() {
    let track: Vec<u8> = [
        0x00, 0xFF, 0x03, 0x04, b'L', b'e', b'a', b'd',
        0x00, 0xFF, 0x04, 0x05, b'P', b'i', b'a', b'n', b'o',
        0x00, 0xFF, 0x01, 0x02, b'h', b'i',
        0x00, 0xFF, 0x00, 0x02, 0x00, 0x07,
        0x00, 0xFF, 0x20, 0x01, 0x03,
        0x00, 0xFF, 0x54, 0x05, 1, 2, 3, 4, 5,
        0x00, 0xFF, 0x59, 0x02, 0xFE, 0x01,
        0x00, 0xD3, 0x40,
        0x00, 0xA0, 60, 10,
    ]
    .iter()
    .chain(END.iter())
    .copied()
    .collect();
    let f = decode(&file(96, &[&track])).unwrap();
    let t = &f.tracks[0];
    assert_eq!(t.name, "Lead");
    assert_eq!(t.instrument, "Piano");
    let d: Vec<&EventData> = t.events.iter().map(|e| &e.data).collect();
    assert!(matches!(d[0], EventData::SysexData { meta: MetaData::SingleString(s) } if s == "Lead"));
    assert!(matches!(d[2], EventData::SysexData { meta: MetaData::SingleString(s) } if s == "hi"));
    assert!(matches!(d[3], EventData::SysexData { meta: MetaData::DoubleU8(0, 7) }));
    assert!(matches!(d[4], EventData::SysexData { meta: MetaData::SingleU8(3) }));
    assert!(matches!(d[5], EventData::SysexData { meta: MetaData::QuintripleU8(1, 2, 3, 4, 5) }));
    assert!(matches!(d[6], EventData::SysexData { meta: MetaData::DoubleU8(0xFE, 1) }));
    assert!(matches!(d[7], EventData::ChannelData { channel_pressure: 0x40 }));
    assert!(matches!(d[8], EventData::NoteOnOffData { key: 60, velocity: 10 }));
    assert_eq!(f.tempo, 0);
}

#[test]
fn sysex_payload_and_unsupported_system_message() {
    let track: Vec<u8> = [
        0x00, 0xF0, 0x03, b'a', b'b', b'c',
        0x00, 0xF7, 0x01, b'z',
        0x00, 0xF1,
        0x00, 0x90, 1, 2,
    ]
    .iter()
    .chain(END.iter())
    .copied()
    .collect();
    let f = decode(&file(96, &[&track])).unwrap();
    let d: Vec<&EventData> = f.tracks[0].events.iter().map(|e| &e.data).collect();
    assert!(matches!(d[0], EventData::SysexData { meta: MetaData::SingleString(s) } if s == "abc"));
    assert!(matches!(d[1], EventData::SysexData { meta: MetaData::SingleString(s) } if s == "z"));
    assert!(matches!(d[2], EventData::Error(m) if m == SYSTEM_MESSAGE_ERROR));
    assert!(matches!(d[3], EventData::NoteOnOffData { key: 1, velocity: 2 }));
}

#[test]
fn unknown_meta_type_aborts() {
    let track = [0x00, 0xFF, 0x10, 0x00];
    assert_eq!(decode(&file(96, &[&track])).unwrap_err(), MidiError::UnknownMetaType(0x10));
}

#[test]
fn truncated_inputs_are_eof() {
    assert_eq!(decode(&header(1, 96)[..13]).unwrap_err(), MidiError::UnexpectedEof);
    assert_eq!(decode(&header(1, 96)).unwrap_err(), MidiError::UnexpectedEof);
    assert_eq!(decode(&file(96, &[&[0x00, 0x90, 60]])).unwrap_err(), MidiError::UnexpectedEof);
    assert_eq!(
        decode(&file(96, &[&[0x00, 0xFF, 0x51, 0x03, 0x07]])).unwrap_err(),
        MidiError::UnexpectedEof
    );
    assert_eq!(decode(&file(96, &[&[0x00, 0xFF, 0x01, 0x05, b'a']])).unwrap_err(), MidiError::UnexpectedEof);
}

#[test]
fn first_track_byte_without_status_is_unresolved() {
    assert_eq!(
        decode(&file(96, &[&[0x00, 0x40, 0x40]])).unwrap_err(),
        MidiError::UnresolvedRunningStatus
    );
}

#[test]
fn failed_parse_leaves_file_unchanged() {
    let mut f = decode(&file(96, &[&END])).unwrap();
    assert!(f.parse(&[0u8; 3]).is_err());
    assert_eq!(f.division, 96);
    assert_eq!(f.tracks.len(), 1);
}

#[test]
fn header_fields_ignored_but_count_and_division_read() {
    let mut v = file(0x1E0, &[&END, &END]);
    v[0] = b'X';
    let f = decode(&v).unwrap();
    assert_eq!(f.division, 0x1E0);
    assert_eq!(f.tracks.len(), 2);
    assert!(f.tracks.iter().all(|t| t.end_of_track && t.events.len() == 1));
}

#[test]
fn octave_of_a0_and_c0() {
    assert_eq!(Notes::A.octave(0), Ok(21));
    assert_eq!(Notes::C.octave(0), Err(NoteError::BelowLowestNote));
    assert_eq!(Notes::C.octave(4), Ok(60));
    assert_eq!(Notes::B.octave(9), Ok(131));
}

#[test]
fn note_from_number() {
    assert_eq!(Notes::from(60), Some((Notes::C, 4)));
    assert_eq!(Notes::from(21), Some((Notes::A, 0)));
    assert_eq!(Notes::from(127), Some((Notes::G, 9)));
    assert_eq!(Notes::from(11), None);
    assert_eq!(Notes::from(0), None);
}

#[test]
fn note_round_trip() {
    for n in 21u32..=127 {
        let (p, o) = Notes::from(n).unwrap();
        assert_eq!(p.octave(o as u32), Ok(n));
    }
}
