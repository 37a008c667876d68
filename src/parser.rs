//! Chunks, variable-length quantities, meta events and the track and file
//! decoders.

use bytes::BytesMut;
use vstd::prelude::*;

use crate::buffer::{
    be16, buffer_contents, buffer_from_slice, buffer_get_u16, buffer_get_u32, buffer_get_u8,
    buffer_peek_u8, buffer_remaining, lossy_text, utf8_lossy,
};
use crate::status::{payload_spec, status_of, Status, StatusType};

verus! {

/// Ways in which a byte stream fails to decode.
#[derive(Debug, Clone, Copy, PartialEq, Eq, Structural)]
pub enum MidiError {
    /// A read went past the end of the buffer.
    UnexpectedEof,
    /// A byte below 0x80 stood where a status byte was required.
    InvalidStatusByte(u8),
    /// A data byte came first in a track, with no status to repeat.
    UnresolvedRunningStatus,
    /// A meta event carried a type byte outside the known set.
    UnknownMetaType(u8),
}

// ---------------------------------------------------------------------------
// Variable-length quantities

/// One step of a variable-length quantity: shift in the low seven bits of `b`,
/// keeping 32 bits.
pub open spec fn vlq_step(acc: u32, b: u8) -> u32 {
    ((acc as int * 128 + b as int % 128) % 0x1_0000_0000) as u32
}

/// Continues a variable-length quantity whose bits so far are `acc`; the value
/// and the bytes after it, or `None` where the bytes run out first.
pub open spec fn vlq_continue(r: Seq<u8>, acc: u32) -> Option<(u32, Seq<u8>)>
    decreases r.len(),
{
    if r.len() == 0 {
        None
    } else {
        let v = vlq_step(acc, r[0]);
        if r[0] < 0x80 {
            Some((v, r.drop_first()))
        } else {
            vlq_continue(r.drop_first(), v)
        }
    }
}

/// The variable-length quantity at the front of `r`.
pub open spec fn vlq_decode(r: Seq<u8>) -> Option<(u32, Seq<u8>)> {
    vlq_continue(r, 0)
}

/// The bytes before the last one in the encoding of `x`: groups of seven bits,
/// most significant first, each with the continuation bit set.
pub open spec fn vlq_lead(x: nat) -> Seq<u8>
    decreases x,
{
    if x == 0 {
        Seq::empty()
    } else {
        vlq_lead(x / 128).push((x % 128 + 128) as u8)
    }
}

/// The shortest variable-length encoding of `v`.
pub open spec fn vlq_encode(v: nat) -> Seq<u8> {
    vlq_lead(v / 128).push((v % 128) as u8)
}

proof fn lemma_vlq_step_bits(acc: u32, b: u8)
    ensures
        (acc << 7u32) | ((b as u32) & 0x7fu32) == vlq_step(acc, b),
{
    assert((acc << 7u32) | ((b as u32) & 0x7fu32) == ((acc as int * 128 + b as int % 128)
        % 0x1_0000_0000) as u32) by (bit_vector);
}

proof fn lemma_vlq_lead(x: nat, t: Seq<u8>)
    requires
        x < 0x200_0000,
    ensures
        vlq_continue(vlq_lead(x) + t, 0) == vlq_continue(t, x as u32),
    decreases x,
{
    if x != 0 {
        let c = (x % 128 + 128) as u8;
        lemma_vlq_lead(x / 128, seq![c] + t);
        assert(vlq_lead(x) + t =~= vlq_lead(x / 128) + (seq![c] + t));
        assert((seq![c] + t).drop_first() =~= t);
        assert(vlq_step((x / 128) as u32, c) == x) by {
            assert((x / 128) as int * 128 + c as int % 128 == x);
        }
    }
}

/// Decoding the encoding of a value below 2^28 gives the value back and leaves
/// the bytes after it untouched; a value below 0x80 is one byte long.
pub proof fn lemma_vlq_round_trip(v: u32, rest: Seq<u8>)
    requires
        v < 0x1000_0000,
    ensures
        vlq_decode(vlq_encode(v as nat) + rest) == Some((v, rest)),
        v < 0x80 ==> vlq_encode(v as nat) == seq![v as u8],
{
    let x = (v / 128) as nat;
    let last = (v % 128) as u8;
    lemma_vlq_lead(x, seq![last] + rest);
    assert(vlq_encode(v as nat) + rest =~= vlq_lead(x) + (seq![last] + rest));
    assert((seq![last] + rest).drop_first() =~= rest);
    if v < 0x80 {
        assert(vlq_encode(v as nat) =~= seq![v as u8]);
    }
}

/// Reads a variable-length quantity from the front of `bytes`.
pub fn read_value(bytes: &mut BytesMut) -> (r: Result<u32, MidiError>)
    ensures
        match vlq_decode(buffer_contents(*old(bytes))) {
            Some((v, rest)) => r == Ok::<u32, MidiError>(v) && buffer_contents(*final(bytes))
                == rest,
            None => r == Err::<u32, MidiError>(MidiError::UnexpectedEof),
        },
        r is Ok ==> buffer_contents(*final(bytes)).len() < buffer_contents(*old(bytes)).len(),
{
    let mut value: u32 = 0;
    loop
        invariant
            vlq_continue(buffer_contents(*bytes), value) == vlq_decode(
                buffer_contents(*old(bytes)),
            ),
            buffer_contents(*bytes).len() <= buffer_contents(*old(bytes)).len(),
        decreases buffer_contents(*bytes).len(),
    {
        if buffer_remaining(bytes) == 0 {
            return Err(MidiError::UnexpectedEof);
        }
        let b = buffer_get_u8(bytes);
        proof {
            lemma_vlq_step_bits(value, b);
        }
        value = (value << 7u32) | (b as u32 & 0x7f);
        if b < 0x80 {
            return Ok(value);
        }
    }
}

/// Reads the first `n` bytes of `bytes`.
pub(crate) fn read_u8s(bytes: &mut BytesMut, n: usize) -> (r: Result<Vec<u8>, MidiError>)
    ensures
        n <= buffer_contents(*old(bytes)).len() ==> (r matches Ok(v) && v@ == buffer_contents(
            *old(bytes),
        ).take(n as int) && buffer_contents(*final(bytes)) == buffer_contents(*old(bytes)).skip(
            n as int,
        )),
        n > buffer_contents(*old(bytes)).len() ==> r == Err::<Vec<u8>, MidiError>(
            MidiError::UnexpectedEof,
        ),
{
    if buffer_remaining(bytes) < n {
        return Err(MidiError::UnexpectedEof);
    }
    let ghost start = buffer_contents(*bytes);
    let mut raw: Vec<u8> = Vec::new();
    let mut i: usize = 0;
    while i < n
        invariant
            i <= n <= start.len(),
            raw@ == start.take(i as int),
            buffer_contents(*bytes) == start.skip(i as int),
        decreases n - i,
    {
        let b = buffer_get_u8(bytes);
        raw.push(b);
        i = i + 1;
        assert(raw@ =~= start.take(i as int));
        assert(buffer_contents(*bytes) =~= start.skip(i as int));
    }
    Ok(raw)
}

/// The text in the first `n` bytes of `r`, and the bytes after it.
pub open spec fn text_spec(r: Seq<u8>, n: nat) -> Option<(Seq<char>, Seq<u8>)> {
    if n <= r.len() {
        Some((utf8_lossy(r.take(n as int)), r.skip(n as int)))
    } else {
        None
    }
}

/// Reads `length` bytes from the front of `bytes` as text, replacing invalid
/// UTF-8.
pub fn read_str(bytes: &mut BytesMut, length: usize) -> (r: Result<String, MidiError>)
    ensures
        match text_spec(buffer_contents(*old(bytes)), length as nat) {
            Some((t, rest)) => r matches Ok(s) && s@ == t && buffer_contents(*final(bytes))
                == rest,
            None => r == Err::<String, MidiError>(MidiError::UnexpectedEof),
        },
{
    match read_u8s(bytes, length) {
        Ok(raw) => Ok(lossy_text(raw.as_slice())),
        Err(e) => Err(e),
    }
}

// ---------------------------------------------------------------------------
// Meta events

/// Types of meta event.
#[derive(Debug, Clone, Copy, PartialEq, Eq, Structural)]
pub enum SysExMeta {
    MetaSequence,
    MetaText,
    MetaCopyright,
    MetaTrackName,
    MetaInstrumentName,
    MetaLyrics,
    MetaMarker,
    MetaCuePoint,
    MetaChannelPrefix,
    MetaEndOfTrack,
    MetaSetTempo,
    MetaSMPTEOffset,
    MetaTimeSignature,
    MetaKeySignature,
    MetaSequencerSpecific,
}

/// The meta type that a type byte names.
pub open spec fn meta_kind(d: u8) -> Option<SysExMeta> {
    if d == 0x00 {
        Some(SysExMeta::MetaSequence)
    } else if d == 0x01 {
        Some(SysExMeta::MetaText)
    } else if d == 0x02 {
        Some(SysExMeta::MetaCopyright)
    } else if d == 0x03 {
        Some(SysExMeta::MetaTrackName)
    } else if d == 0x04 {
        Some(SysExMeta::MetaInstrumentName)
    } else if d == 0x05 {
        Some(SysExMeta::MetaLyrics)
    } else if d == 0x06 {
        Some(SysExMeta::MetaMarker)
    } else if d == 0x07 {
        Some(SysExMeta::MetaCuePoint)
    } else if d == 0x20 {
        Some(SysExMeta::MetaChannelPrefix)
    } else if d == 0x2F {
        Some(SysExMeta::MetaEndOfTrack)
    } else if d == 0x51 {
        Some(SysExMeta::MetaSetTempo)
    } else if d == 0x54 {
        Some(SysExMeta::MetaSMPTEOffset)
    } else if d == 0x58 {
        Some(SysExMeta::MetaTimeSignature)
    } else if d == 0x59 {
        Some(SysExMeta::MetaKeySignature)
    } else if d == 0x7F {
        Some(SysExMeta::MetaSequencerSpecific)
    } else {
        None
    }
}

impl SysExMeta {
    /// The meta type named by type byte `d`, if it is a known one.
    pub fn from(d: u8) -> (r: Option<Self>)
        ensures
            r == meta_kind(d),
    {
        match d {
            0x00 => Some(Self::MetaSequence),
            0x01 => Some(Self::MetaText),
            0x02 => Some(Self::MetaCopyright),
            0x03 => Some(Self::MetaTrackName),
            0x04 => Some(Self::MetaInstrumentName),
            0x05 => Some(Self::MetaLyrics),
            0x06 => Some(Self::MetaMarker),
            0x07 => Some(Self::MetaCuePoint),
            0x20 => Some(Self::MetaChannelPrefix),
            0x2F => Some(Self::MetaEndOfTrack),
            0x51 => Some(Self::MetaSetTempo),
            0x54 => Some(Self::MetaSMPTEOffset),
            0x58 => Some(Self::MetaTimeSignature),
            0x59 => Some(Self::MetaKeySignature),
            0x7F => Some(Self::MetaSequencerSpecific),
            _ => None,
        }
    }
}

/// The payload of a meta or system-exclusive event.
#[derive(Debug)]
pub enum MetaData {
    SingleU8(u8),
    DoubleU8(u8, u8),
    TripleU8(u8, u8, u8),
    QuadU8(u8, u8, u8, u8),
    QuintripleU8(u8, u8, u8, u8, u8),
    SingleString(String),
    Empty,
}

/// A meta payload as a value: text as a sequence of characters.
pub enum MetaValue {
    SingleU8(u8),
    DoubleU8(u8, u8),
    TripleU8(u8, u8, u8),
    QuadU8(u8, u8, u8, u8),
    QuintripleU8(u8, u8, u8, u8, u8),
    SingleString(Seq<char>),
    Empty,
}

impl View for MetaData {
    type V = MetaValue;

    open spec fn view(&self) -> MetaValue {
        match self {
            MetaData::SingleU8(a) => MetaValue::SingleU8(*a),
            MetaData::DoubleU8(a, b) => MetaValue::DoubleU8(*a, *b),
            MetaData::TripleU8(a, b, c) => MetaValue::TripleU8(*a, *b, *c),
            MetaData::QuadU8(a, b, c, d) => MetaValue::QuadU8(*a, *b, *c, *d),
            MetaData::QuintripleU8(a, b, c, d, e) => MetaValue::QuintripleU8(*a, *b, *c, *d, *e),
            MetaData::SingleString(s) => MetaValue::SingleString(s@),
            MetaData::Empty => MetaValue::Empty,
        }
    }
}

/// The payload of an event.
#[derive(Debug)]
pub enum EventData {
    NoteOnOffData { key: u8, velocity: u8 },
    ControlData { control_id: u8, control_value: u8 },
    ProgramChangeData { program_id: u8 },
    ChannelData { channel_pressure: u8 },
    PitchBendData { least_bytes: u8, most_bytes: u8 },
    SysexData { meta: MetaData },
    Error(String),
}

/// An event payload as a value.
pub enum EventValue {
    NoteOnOffData { key: u8, velocity: u8 },
    ControlData { control_id: u8, control_value: u8 },
    ProgramChangeData { program_id: u8 },
    ChannelData { channel_pressure: u8 },
    PitchBendData { least_bytes: u8, most_bytes: u8 },
    SysexData { meta: MetaValue },
    Error(Seq<char>),
}

impl View for EventData {
    type V = EventValue;

    open spec fn view(&self) -> EventValue {
        match self {
            EventData::NoteOnOffData { key, velocity } => EventValue::NoteOnOffData {
                key: *key,
                velocity: *velocity,
            },
            EventData::ControlData { control_id, control_value } => EventValue::ControlData {
                control_id: *control_id,
                control_value: *control_value,
            },
            EventData::ProgramChangeData { program_id } => EventValue::ProgramChangeData {
                program_id: *program_id,
            },
            EventData::ChannelData { channel_pressure } => EventValue::ChannelData {
                channel_pressure: *channel_pressure,
            },
            EventData::PitchBendData { least_bytes, most_bytes } => EventValue::PitchBendData {
                least_bytes: *least_bytes,
                most_bytes: *most_bytes,
            },
            EventData::SysexData { meta } => EventValue::SysexData { meta: meta@ },
            EventData::Error(m) => EventValue::Error(m@),
        }
    }
}

/// What an event does to its track, or to the file's tempo, besides being
/// recorded.
pub enum TrackEffect {
    Unchanged,
    Name(Seq<char>),
    Instrument(Seq<char>),
    End,
    Tempo(u32),
}

/// A meta payload in an event.
pub open spec fn meta_event(m: MetaValue) -> EventValue {
    EventValue::SysexData { meta: m }
}

/// The denominator of a time signature, from its power-of-two exponent
/// (`2 << b`, kept to eight bits).
pub open spec fn time_signature_denominator(b: u8) -> u8 {
    if b < 8 {
        2u8 << b
    } else {
        0
    }
}

/// The tempo in three big-endian bytes.
pub open spec fn be24(a: u8, b: u8, c: u8) -> u32 {
    (a as int * 0x1_0000 + b as int * 0x100 + c as int) as u32
}

/// Beats per minute at a tempo of `tempo` microseconds per quarter note;
/// zero for a zero tempo.
pub open spec fn bpm_of(tempo: u32) -> u32 {
    if tempo == 0 {
        0
    } else {
        (60_000_000int / tempo as int) as u32
    }
}

/// A meta payload `m` made of the first `n` bytes of `b`.
pub open spec fn fixed_spec(
    b: Seq<u8>,
    n: int,
    m: MetaValue,
) -> Result<(EventValue, Seq<u8>, TrackEffect), MidiError> {
    if n <= b.len() {
        Ok((meta_event(m), b.skip(n), TrackEffect::Unchanged))
    } else {
        Err(MidiError::UnexpectedEof)
    }
}

/// A text payload of `len` bytes at the front of `b`; a track or instrument
/// name also renames the track or its instrument.
pub open spec fn text_meta_spec(
    b: Seq<u8>,
    len: u32,
    kind: SysExMeta,
) -> Result<(EventValue, Seq<u8>, TrackEffect), MidiError> {
    match text_spec(b, len as nat) {
        Some((t, rest)) => Ok(
            (
                meta_event(MetaValue::SingleString(t)),
                rest,
                if kind == SysExMeta::MetaTrackName {
                    TrackEffect::Name(t)
                } else if kind == SysExMeta::MetaInstrumentName {
                    TrackEffect::Instrument(t)
                } else {
                    TrackEffect::Unchanged
                },
            ),
        ),
        None => Err(MidiError::UnexpectedEof),
    }
}

/// The body of a meta event of type `kind` whose declared length is `len`,
/// at the front of `b`; `tempo_unset` tells whether the file has no tempo yet.
pub open spec fn meta_body_spec(
    kind: SysExMeta,
    len: u32,
    b: Seq<u8>,
    tempo_unset: bool,
) -> Result<(EventValue, Seq<u8>, TrackEffect), MidiError> {
    match kind {
        SysExMeta::MetaSequence => fixed_spec(b, 2, MetaValue::DoubleU8(b[0], b[1])),
        SysExMeta::MetaKeySignature => fixed_spec(b, 2, MetaValue::DoubleU8(b[0], b[1])),
        SysExMeta::MetaChannelPrefix => fixed_spec(b, 1, MetaValue::SingleU8(b[0])),
        SysExMeta::MetaSMPTEOffset => fixed_spec(
            b,
            5,
            MetaValue::QuintripleU8(b[0], b[1], b[2], b[3], b[4]),
        ),
        SysExMeta::MetaTimeSignature => fixed_spec(
            b,
            4,
            MetaValue::QuadU8(b[0], time_signature_denominator(b[1]), b[2], b[3]),
        ),
        SysExMeta::MetaEndOfTrack => Ok((meta_event(MetaValue::Empty), b, TrackEffect::End)),
        SysExMeta::MetaSetTempo => if b.len() < 3 {
            Err(MidiError::UnexpectedEof)
        } else if tempo_unset {
            Ok(
                (
                    meta_event(MetaValue::TripleU8(b[0], b[1], b[2])),
                    b.skip(3),
                    TrackEffect::Tempo(be24(b[0], b[1], b[2])),
                ),
            )
        } else {
            Ok((meta_event(MetaValue::Empty), b.skip(3), TrackEffect::Unchanged))
        },
        _ => text_meta_spec(b, len, kind),
    }
}

/// A meta event after its 0xFF status byte: type byte, length, body.
pub open spec fn meta_spec(r: Seq<u8>, tempo_unset: bool) -> Result<
    (EventValue, Seq<u8>, TrackEffect),
    MidiError,
> {
    if r.len() == 0 {
        Err(MidiError::UnexpectedEof)
    } else {
        match vlq_decode(r.drop_first()) {
            None => Err(MidiError::UnexpectedEof),
            Some((len, b)) => match meta_kind(r[0]) {
                None => Err(MidiError::UnknownMetaType(r[0])),
                Some(kind) => meta_body_spec(kind, len, b, tempo_unset),
            },
        }
    }
}

// ---------------------------------------------------------------------------
// Events, tracks and files

/// A decoded event: its status, its payload and the ticks since the event
/// before it in the same track.
#[derive(Debug)]
pub struct MidiEvent {
    pub status: Status,
    pub data: EventData,
    pub delta_tick: u32,
}

/// An event as a value.
pub struct EventModel {
    pub status: Status,
    pub data: EventValue,
    pub delta_tick: u32,
}

impl View for MidiEvent {
    type V = EventModel;

    open spec fn view(&self) -> EventModel {
        EventModel { status: self.status, data: self.data@, delta_tick: self.delta_tick }
    }
}

/// A decoded track.
#[derive(Debug)]
pub struct MidiTrack {
    pub name: String,
    pub instrument: String,
    pub events: Vec<MidiEvent>,
    pub end_of_track: bool,
}

/// A track as a value.
pub struct TrackModel {
    pub name: Seq<char>,
    pub instrument: Seq<char>,
    pub events: Seq<EventModel>,
    pub end_of_track: bool,
}

impl View for MidiTrack {
    type V = TrackModel;

    open spec fn view(&self) -> TrackModel {
        TrackModel {
            name: self.name@,
            instrument: self.instrument@,
            events: self.events@.map_values(|e: MidiEvent| e@),
            end_of_track: self.end_of_track,
        }
    }
}

/// A decoded file: the tempo in microseconds per quarter note (zero while no
/// tempo event has been seen), the beats per minute derived from it, the
/// tracks in file order and the raw division field.
#[derive(Debug)]
pub struct MidiFile {
    pub tempo: u32,
    pub bpm: u32,
    pub tracks: Vec<MidiTrack>,
    pub division: u16,
}

/// A file as a value.
pub struct FileModel {
    pub tempo: u32,
    pub bpm: u32,
    pub tracks: Seq<TrackModel>,
    pub division: u16,
}

impl View for MidiFile {
    type V = FileModel;

    open spec fn view(&self) -> FileModel {
        FileModel {
            tempo: self.tempo,
            bpm: self.bpm,
            tracks: self.tracks@.map_values(|t: MidiTrack| t@),
            division: self.division,
        }
    }
}

impl MidiFile {
    /// The tempo after an event with effect `e`.
    pub open spec fn tempo_after(&self, e: TrackEffect) -> u32 {
        match e {
            TrackEffect::Tempo(v) => v,
            _ => self.tempo,
        }
    }

    /// The beats per minute after an event with effect `e`.
    pub open spec fn bpm_after(&self, e: TrackEffect) -> u32 {
        match e {
            TrackEffect::Tempo(v) => bpm_of(v),
            _ => self.bpm,
        }
    }
}

/// What an effect makes of a track.
pub open spec fn apply_effect(t: TrackModel, e: TrackEffect) -> TrackModel {
    match e {
        TrackEffect::Name(s) => TrackModel { name: s, ..t },
        TrackEffect::Instrument(s) => TrackModel { instrument: s, ..t },
        TrackEffect::End => TrackModel { end_of_track: true, ..t },
        _ => t,
    }
}

/// Decodes a meta event after its 0xFF status byte.
pub(crate) fn parse_meta(file: &mut MidiFile, track: &mut MidiTrack, bytes: &mut BytesMut) -> (r:
    Result<EventData, MidiError>)
    ensures
        match meta_spec(buffer_contents(*old(bytes)), old(file).tempo == 0) {
            Ok((v, rest, effect)) => {
                &&& r matches Ok(d) && d@ == v
                &&& buffer_contents(*final(bytes)) == rest
                &&& final(track)@ == apply_effect(old(track)@, effect)
                &&& final(file).tempo == old(file).tempo_after(effect)
                &&& final(file).bpm == old(file).bpm_after(effect)
                &&& final(file).tracks == old(file).tracks
                &&& final(file).division == old(file).division
            },
            Err(e) => r == Err::<EventData, MidiError>(e),
        },
        r is Ok ==> buffer_contents(*final(bytes)).len() < buffer_contents(*old(bytes)).len(),
{
    if buffer_remaining(bytes) == 0 {
        return Err(MidiError::UnexpectedEof);
    }
    let ty = buffer_get_u8(bytes);
    let len = match read_value(bytes) {
        Ok(n) => n,
        Err(e) => {
            return Err(e);
        },
    };
    let kind = match SysExMeta::from(ty) {
        Some(k) => k,
        None => {
            return Err(MidiError::UnknownMetaType(ty));
        },
    };
    let meta = match kind {
        SysExMeta::MetaSequence | SysExMeta::MetaKeySignature => match read_u8s(bytes, 2) {
            Ok(v) => MetaData::DoubleU8(v[0], v[1]),
            Err(e) => {
                return Err(e);
            },
        },
        SysExMeta::MetaChannelPrefix => match read_u8s(bytes, 1) {
            Ok(v) => MetaData::SingleU8(v[0]),
            Err(e) => {
                return Err(e);
            },
        },
        SysExMeta::MetaSMPTEOffset => match read_u8s(bytes, 5) {
            Ok(v) => MetaData::QuintripleU8(v[0], v[1], v[2], v[3], v[4]),
            Err(e) => {
                return Err(e);
            },
        },
        SysExMeta::MetaTimeSignature => match read_u8s(bytes, 4) {
            Ok(v) => {
                let denominator: u8 = if v[1] < 8 {
                    2u8 << v[1]
                } else {
                    0
                };
                MetaData::QuadU8(v[0], denominator, v[2], v[3])
            },
            Err(e) => {
                return Err(e);
            },
        },
        SysExMeta::MetaEndOfTrack => {
            track.end_of_track = true;
            MetaData::Empty
        },
        SysExMeta::MetaSetTempo => match read_u8s(bytes, 3) {
            Ok(v) => {
                if file.tempo == 0 {
                    let tempo: u32 = v[0] as u32 * 0x1_0000 + v[1] as u32 * 0x100 + v[2] as u32;
                    file.tempo = tempo;
                    file.bpm = if tempo == 0 {
                        0
                    } else {
                        60_000_000 / tempo
                    };
                    MetaData::TripleU8(v[0], v[1], v[2])
                } else {
                    MetaData::Empty
                }
            },
            Err(e) => {
                return Err(e);
            },
        },
        SysExMeta::MetaTrackName => match read_str(bytes, len as usize) {
            Ok(s) => {
                track.name = s.clone();
                MetaData::SingleString(s)
            },
            Err(e) => {
                return Err(e);
            },
        },
        SysExMeta::MetaInstrumentName => match read_str(bytes, len as usize) {
            Ok(s) => {
                track.instrument = s.clone();
                MetaData::SingleString(s)
            },
            Err(e) => {
                return Err(e);
            },
        },
        _ => match read_str(bytes, len as usize) {
            Ok(s) => MetaData::SingleString(s),
            Err(e) => {
                return Err(e);
            },
        },
    };
    Ok(EventData::SysexData { meta })
}

/// The status of the next event: a status byte at the front of `r`, or else
/// the running status, which then leaves `r` as it is.
pub open spec fn resolve_status(r: Seq<u8>, running: Option<u8>) -> Result<
    (u8, Seq<u8>),
    MidiError,
> {
    if r.len() == 0 {
        Err(MidiError::UnexpectedEof)
    } else if r[0] >= 0x80 {
        Ok((r[0], r.drop_first()))
    } else {
        match running {
            Some(s) => Ok((s, r)),
            None => Err(MidiError::UnresolvedRunningStatus),
        }
    }
}

/// The running status after an event with status byte `raw`: system messages
/// clear it, other statuses become it.
pub open spec fn running_after(raw: u8) -> Option<u8> {
    if raw >= 0xF0 {
        None
    } else {
        Some(raw)
    }
}

/// The next event at the front of `r`, the bytes after it, the running status
/// after it and its effect.
pub open spec fn event_spec(r: Seq<u8>, running: Option<u8>, tempo: u32) -> Result<
    (EventModel, Seq<u8>, Option<u8>, TrackEffect),
    MidiError,
> {
    match vlq_decode(r) {
        None => Err(MidiError::UnexpectedEof),
        Some((delta, r1)) => match resolve_status(r1, running) {
            Err(e) => Err(e),
            Ok((raw, r2)) => match payload_spec(status_of(raw), r2, tempo == 0) {
                Err(e) => Err(e),
                Ok((data, r3, effect)) => Ok(
                    (
                        EventModel { status: status_of(raw), data, delta_tick: delta },
                        r3,
                        running_after(raw),
                        effect,
                    ),
                ),
            },
        },
    }
}

/// `t` with `ev` recorded and the effect `e` applied.
pub open spec fn record(t: TrackModel, ev: EventModel, e: TrackEffect) -> TrackModel {
    apply_effect(TrackModel { events: t.events.push(ev), ..t }, e)
}

/// A track with no events, no name and no instrument.
pub open spec fn empty_track() -> TrackModel {
    TrackModel { name: Seq::empty(), instrument: Seq::empty(), events: Seq::empty(), end_of_track: false }
}

/// Decodes events from `r` into `t` until the bytes run out or the track
/// ends; the track, the bytes left, and the file's tempo and beats per minute.
pub open spec fn track_spec(r: Seq<u8>, running: Option<u8>, t: TrackModel, tempo: u32, bpm: u32) -> Result<
    (TrackModel, Seq<u8>, u32, u32),
    MidiError,
>
    decreases r.len(),
{
    if r.len() == 0 || t.end_of_track {
        Ok((t, r, tempo, bpm))
    } else {
        match event_spec(r, running, tempo) {
            Err(e) => Err(e),
            Ok((ev, r2, running2, e)) => if r2.len() < r.len() {
                track_spec(
                    r2,
                    running2,
                    record(t, ev, e),
                    match e {
                        TrackEffect::Tempo(v) => v,
                        _ => tempo,
                    },
                    match e {
                        TrackEffect::Tempo(v) => bpm_of(v),
                        _ => bpm,
                    },
                )
            } else {
                Err(MidiError::UnexpectedEof)
            },
        }
    }
}

/// Decodes `n` more track chunks from `r` after the tracks `done`.
pub open spec fn tracks_spec(r: Seq<u8>, n: nat, done: Seq<TrackModel>, tempo: u32, bpm: u32) -> Result<
    (Seq<TrackModel>, u32, u32),
    MidiError,
>
    decreases n,
{
    if n == 0 {
        Ok((done, tempo, bpm))
    } else if r.len() < 8 {
        Err(MidiError::UnexpectedEof)
    } else {
        match track_spec(r.skip(8), None, empty_track(), tempo, bpm) {
            Err(e) => Err(e),
            Ok((t, rest, tempo2, bpm2)) => tracks_spec(rest, (n - 1) as nat, done.push(t), tempo2, bpm2),
        }
    }
}

/// The file that the bytes `s` decode to: a fourteen-byte header whose last
/// two fields are the track count and the division, then the track chunks.
pub open spec fn file_spec(s: Seq<u8>) -> Result<FileModel, MidiError> {
    if s.len() < 14 {
        Err(MidiError::UnexpectedEof)
    } else {
        match tracks_spec(s.skip(14), be16(s[10], s[11]) as nat, Seq::empty(), 0, 0) {
            Ok((tracks, tempo, bpm)) => Ok(
                FileModel { tempo, bpm, tracks, division: be16(s[12], s[13]) as u16 },
            ),
            Err(e) => Err(e),
        }
    }
}

/// Decodes one track's events from `bytes`, with a fresh running status.
fn decode_track(file: &mut MidiFile, bytes: &mut BytesMut) -> (r: Result<MidiTrack, MidiError>)
    ensures
        match track_spec(buffer_contents(*old(bytes)), None, empty_track(), old(file).tempo, old(file).bpm) {
            Ok((t, rest, tempo, bpm)) => {
                &&& r matches Ok(track) && track@ == t
                &&& buffer_contents(*final(bytes)) == rest
                &&& final(file).tempo == tempo
                &&& final(file).bpm == bpm
                &&& final(file).tracks == old(file).tracks
                &&& final(file).division == old(file).division
            },
            Err(e) => r == Err::<MidiTrack, MidiError>(e),
        },
{
    let mut track = MidiTrack {
        name: String::new(),
        instrument: String::new(),
        events: Vec::new(),
        end_of_track: false,
    };
    let mut running: Option<u8> = None;
    assert(track@.events =~= Seq::<EventModel>::empty());
    while buffer_remaining(bytes) != 0 && !track.end_of_track
        invariant
            track_spec(buffer_contents(*bytes), running, track@, file.tempo, file.bpm) == track_spec(
                buffer_contents(*old(bytes)),
                None,
                empty_track(),
                old(file).tempo,
                old(file).bpm,
            ),
            file.tracks == old(file).tracks,
            file.division == old(file).division,
            running matches Some(s) ==> s >= 0x80,
        decreases buffer_contents(*bytes).len(),
    {
        let ghost t0 = track@;
        let delta_tick = match read_value(bytes) {
            Ok(v) => v,
            Err(e) => {
                return Err(e);
            },
        };
        if buffer_remaining(bytes) == 0 {
            return Err(MidiError::UnexpectedEof);
        }
        let first = buffer_peek_u8(bytes);
        let raw: u8 = if first >= 0x80 {
            buffer_get_u8(bytes);
            first
        } else {
            match running {
                Some(s) => s,
                None => {
                    return Err(MidiError::UnresolvedRunningStatus);
                },
            }
        };
        let status = match Status::from_byte(raw) {
            Ok(s) => s,
            Err(e) => {
                return Err(e);
            },
        };
        let data = match status.parse_data(file, &mut track, bytes) {
            Ok(d) => d,
            Err(e) => {
                return Err(e);
            },
        };
        running = if raw >= 0xF0 {
            None
        } else {
            Some(raw)
        };
        let event = MidiEvent { status, data, delta_tick };
        let ghost ev = event@;
        track.events.push(event);
        assert(track@.events =~= t0.events.push(ev));
    }
    Ok(track)
}

impl MidiFile {
    /// An empty file: no tracks, zero tempo, beats per minute and division.
    pub fn create() -> (r: Self)
        ensures
            r@ == (FileModel { tempo: 0, bpm: 0, tracks: Seq::empty(), division: 0 }),
    {
        let r = MidiFile { tempo: 0, bpm: 0, tracks: Vec::new(), division: 0 };
        assert(r@.tracks =~= Seq::<TrackModel>::empty());
        r
    }

    /// Decodes the bytes of a whole file into `self`; on failure `self` is
    /// left as it was.
    pub fn parse(&mut self, data: &[u8]) -> (r: Result<(), MidiError>)
        ensures
            match file_spec(data@) {
                Ok(m) => r is Ok && final(self)@ == m,
                Err(e) => r == Err::<(), MidiError>(e) && *final(self) == *old(self),
            },
    {
        let mut bytes = buffer_from_slice(data);
        if buffer_remaining(&bytes) < 14 {
            return Err(MidiError::UnexpectedEof);
        }
        let _file_id = buffer_get_u32(&mut bytes);
        let _header_len = buffer_get_u32(&mut bytes);
        let _format = buffer_get_u16(&mut bytes);
        let track_chunks = buffer_get_u16(&mut bytes);
        let division = buffer_get_u16(&mut bytes);
        assert(buffer_contents(bytes) =~= data@.skip(14));
        let mut file = MidiFile::create();
        file.division = division;
        let mut tracks: Vec<MidiTrack> = Vec::new();
        let mut i: u16 = 0;
        assert(tracks@.map_values(|t: MidiTrack| t@) =~= Seq::<TrackModel>::empty());
        while i < track_chunks
            invariant
                i <= track_chunks,
                data@.len() >= 14,
                division as int == be16(data@[12], data@[13]),
                track_chunks as int == be16(data@[10], data@[11]),
                tracks_spec(
                    buffer_contents(bytes),
                    (track_chunks - i) as nat,
                    tracks@.map_values(|t: MidiTrack| t@),
                    file.tempo,
                    file.bpm,
                ) == tracks_spec(data@.skip(14), track_chunks as nat, Seq::empty(), 0, 0),
                file.division == division,
            decreases track_chunks - i,
        {
            if buffer_remaining(&bytes) < 8 {
                return Err(MidiError::UnexpectedEof);
            }
            let ghost r0 = buffer_contents(bytes);
            let _track_id = buffer_get_u32(&mut bytes);
            let _track_len = buffer_get_u32(&mut bytes);
            assert(buffer_contents(bytes) =~= r0.skip(8));
            let track = match decode_track(&mut file, &mut bytes) {
                Ok(t) => t,
                Err(e) => {
                    return Err(e);
                },
            };
            let ghost done = tracks@.map_values(|t: MidiTrack| t@);
            let ghost tv = track@;
            tracks.push(track);
            assert(tracks@.map_values(|t: MidiTrack| t@) =~= done.push(tv));
            i = i + 1;
        }
        file.tracks = tracks;
        *self = file;
        Ok(())
    }
}

// ---------------------------------------------------------------------------
// Laws of the decoder

/// Running status does not cross a track boundary: whatever the first track
/// left as its running status, a second track whose first event omits its
/// status byte fails with `UnresolvedRunningStatus`.
pub proof fn lemma_running_status_per_track(
    r: Seq<u8>,
    n: nat,
    done: Seq<TrackModel>,
    tempo: u32,
    bpm: u32,
    delta: u32,
    body: Seq<u8>,
)
    requires
        n >= 2,
        r.len() >= 8,
        track_spec(r.skip(8), None, empty_track(), tempo, bpm) matches Ok((_, rest, _, _)) && rest.len()
            >= 8 && vlq_decode(rest.skip(8)) == Some((delta, body)),
        body.len() > 0,
        body[0] < 0x80,
    ensures
        tracks_spec(r, n, done, tempo, bpm) == Err::<(Seq<TrackModel>, u32, u32), MidiError>(
            MidiError::UnresolvedRunningStatus,
        ),
{
    let (t1, rest, tempo1, bpm1) = track_spec(r.skip(8), None, empty_track(), tempo, bpm)->Ok_0;
    assert(rest.skip(8).len() > 0);
    assert(track_spec(rest.skip(8), None, empty_track(), tempo1, bpm1) == Err::<
        (TrackModel, Seq<u8>, u32, u32),
        MidiError,
    >(MidiError::UnresolvedRunningStatus));
    assert(tracks_spec(rest, (n - 1) as nat, done.push(t1), tempo1, bpm1) == Err::<
        (Seq<TrackModel>, u32, u32),
        MidiError,
    >(MidiError::UnresolvedRunningStatus));
}

/// A tempo event that comes after the tempo is set consumes its three bytes
/// and yields an empty payload with no effect.
pub proof fn lemma_later_tempo_is_empty(len: u32, b: Seq<u8>)
    requires
        b.len() >= 3,
    ensures
        meta_body_spec(SysExMeta::MetaSetTempo, len, b, false) == Ok::<
            (EventValue, Seq<u8>, TrackEffect),
            MidiError,
        >((meta_event(MetaValue::Empty), b.skip(3), TrackEffect::Unchanged)),
{
}

/// Once the tempo is set, the rest of a track leaves the tempo and the beats
/// per minute as they are.
pub proof fn lemma_track_keeps_tempo(
    r: Seq<u8>,
    running: Option<u8>,
    t: TrackModel,
    tempo: u32,
    bpm: u32,
)
    requires
        tempo != 0,
    ensures
        track_spec(r, running, t, tempo, bpm) matches Ok((_, _, tempo2, bpm2)) ==> tempo2 == tempo
            && bpm2 == bpm,
    decreases r.len(),
{
    if !(r.len() == 0 || t.end_of_track) {
        if let Ok((ev, r2, running2, e)) = event_spec(r, running, tempo) {
            if r2.len() < r.len() {
                lemma_effect_keeps_tempo(r, running, tempo);
                lemma_track_keeps_tempo(r2, running2, record(t, ev, e), tempo, bpm);
            }
        }
    }
}

proof fn lemma_effect_keeps_tempo(r: Seq<u8>, running: Option<u8>, tempo: u32)
    requires
        tempo != 0,
    ensures
        event_spec(r, running, tempo) matches Ok((_, _, _, e)) ==> !(e is Tempo),
{
}

/// Once the tempo is set, the remaining track chunks leave the tempo and the
/// beats per minute as they are: only the first tempo event of a file counts.
pub proof fn lemma_tempo_set_once(r: Seq<u8>, n: nat, done: Seq<TrackModel>, tempo: u32, bpm: u32)
    requires
        tempo != 0,
    ensures
        tracks_spec(r, n, done, tempo, bpm) matches Ok((_, tempo2, bpm2)) ==> tempo2 == tempo && bpm2
            == bpm,
    decreases n,
{
    if n > 0 && r.len() >= 8 {
        lemma_track_keeps_tempo(r.skip(8), None, empty_track(), tempo, bpm);
        if let Ok((t, rest, tempo2, bpm2)) = track_spec(r.skip(8), None, empty_track(), tempo, bpm) {
            lemma_tempo_set_once(rest, (n - 1) as nat, done.push(t), tempo2, bpm2);
        }
    }
}

/// An end-of-track event stops the track: the bytes after it are left
/// undecoded.
pub proof fn lemma_end_of_track_stops(
    delta: u32,
    extra: Seq<u8>,
    running: Option<u8>,
    t: TrackModel,
    tempo: u32,
    bpm: u32,
)
    requires
        delta < 0x1000_0000,
        !t.end_of_track,
    ensures
        track_spec(vlq_encode(delta as nat) + seq![0xFFu8, 0x2Fu8, 0x00u8] + extra, running, t, tempo, bpm)
            == Ok::<(TrackModel, Seq<u8>, u32, u32), MidiError>(
            (
                record(
                    t,
                    EventModel {
                        status: status_of(0xFF),
                        data: meta_event(MetaValue::Empty),
                        delta_tick: delta,
                    },
                    TrackEffect::End,
                ),
                extra,
                tempo,
                bpm,
            ),
        ),
{
    let after = seq![0xFFu8, 0x2Fu8, 0x00u8] + extra;
    let r = vlq_encode(delta as nat) + seq![0xFFu8, 0x2Fu8, 0x00u8] + extra;
    assert(r =~= vlq_encode(delta as nat) + after);
    lemma_vlq_round_trip(delta, after);
    assert(after.drop_first().drop_first() =~= seq![0x00u8] + extra);
    assert((seq![0x00u8] + extra).drop_first() =~= extra);
    assert(status_of(0xFF).status_type == StatusType::SystemMsg);
    assert(vlq_decode(after.drop_first().drop_first()) == Some((0u32, extra)));
    assert(vlq_decode(r) == Some((delta, after)));
    assert(resolve_status(after, running) == Ok::<(u8, Seq<u8>), MidiError>(
        (0xFFu8, after.drop_first()),
    ));
    assert(after.drop_first()[0] == 0x2F);
    assert(meta_kind(0x2F) == Some(SysExMeta::MetaEndOfTrack));
    let res = Ok::<(EventValue, Seq<u8>, TrackEffect), MidiError>(
        (meta_event(MetaValue::Empty), extra, TrackEffect::End),
    );
    assert(meta_spec(after.drop_first(), tempo == 0) == res);
    assert(payload_spec(status_of(0xFF), after.drop_first(), tempo == 0) == res);
    let ev = EventModel {
        status: status_of(0xFF),
        data: meta_event(MetaValue::Empty),
        delta_tick: delta,
    };
    assert(event_spec(r, running, tempo) == Ok::<
        (EventModel, Seq<u8>, Option<u8>, TrackEffect),
        MidiError,
    >((ev, extra, None, TrackEffect::End)));
    assert(extra.len() < r.len());
    let done = record(t, ev, TrackEffect::End);
    assert(done.end_of_track);
    assert(track_spec(extra, None, done, tempo, bpm) == Ok::<
        (TrackModel, Seq<u8>, u32, u32),
        MidiError,
    >((done, extra, tempo, bpm)));
    assert(r.len() > 0);
}

} // verus!
