//! Status bytes and the payloads that follow them.

use bytes::BytesMut;
use vstd::prelude::*;

use crate::buffer::buffer_contents;
use crate::parser::{
    apply_effect, meta_event, meta_spec, parse_meta, read_str, read_u8s, read_value, text_spec,
    vlq_decode, EventData, EventValue, MetaData, MetaValue, MidiError, MidiFile, MidiTrack,
    TrackEffect,
};

verus! {

/// The category of a status byte, given by its top four bits.
#[derive(PartialEq, Eq, Structural, Debug, Clone, Copy)]
pub enum StatusType {
    NoteOff,
    NoteOn,
    PolyphonicAftertouch,
    CtrlChange,
    ProgramChange,
    ChannelAftertouch,
    PitchBendChange,
    SystemMsg,
}

/// A resolved status: its category and the raw byte, which carries the
/// channel or the exact system message.
#[derive(PartialEq, Eq, Structural, Debug, Clone, Copy)]
pub struct Status {
    pub status_type: StatusType,
    pub raw_status: u8,
}

/// The category of a status byte of at least 0x80.
pub open spec fn status_category(b: u8) -> StatusType {
    if b / 16 == 8 {
        StatusType::NoteOff
    } else if b / 16 == 9 {
        StatusType::NoteOn
    } else if b / 16 == 10 {
        StatusType::PolyphonicAftertouch
    } else if b / 16 == 11 {
        StatusType::CtrlChange
    } else if b / 16 == 12 {
        StatusType::ProgramChange
    } else if b / 16 == 13 {
        StatusType::ChannelAftertouch
    } else if b / 16 == 14 {
        StatusType::PitchBendChange
    } else {
        StatusType::SystemMsg
    }
}

/// The status that a status byte of at least 0x80 stands for.
pub open spec fn status_of(b: u8) -> Status {
    Status { status_type: status_category(b), raw_status: b }
}

/// The error payload recorded for a system message that is neither a meta
/// nor a system-exclusive event.
pub const SYSTEM_MESSAGE_ERROR: &'static str = "Failed to parse data from system message";

/// Exactly `n` bytes at the front of `r` make the payload `v`.
pub open spec fn voice_spec(r: Seq<u8>, n: int, v: EventValue) -> Result<
    (EventValue, Seq<u8>, TrackEffect),
    MidiError,
> {
    if n <= r.len() {
        Ok((v, r.skip(n), TrackEffect::Unchanged))
    } else {
        Err(MidiError::UnexpectedEof)
    }
}

/// A system-exclusive body: a length, then that many bytes as text.
pub open spec fn sysex_spec(r: Seq<u8>) -> Result<(EventValue, Seq<u8>, TrackEffect), MidiError> {
    match vlq_decode(r) {
        None => Err(MidiError::UnexpectedEof),
        Some((len, b)) => match text_spec(b, len as nat) {
            Some((t, rest)) => Ok(
                (meta_event(MetaValue::SingleString(t)), rest, TrackEffect::Unchanged),
            ),
            None => Err(MidiError::UnexpectedEof),
        },
    }
}

/// The payload that follows status `st` at the front of `r`, the bytes after
/// it, and its effect; `tempo_unset` tells whether the file has no tempo yet.
pub open spec fn payload_spec(st: Status, r: Seq<u8>, tempo_unset: bool) -> Result<
    (EventValue, Seq<u8>, TrackEffect),
    MidiError,
> {
    match st.status_type {
        StatusType::NoteOff | StatusType::NoteOn | StatusType::PolyphonicAftertouch => voice_spec(
            r,
            2,
            EventValue::NoteOnOffData { key: r[0], velocity: r[1] },
        ),
        StatusType::CtrlChange => voice_spec(
            r,
            2,
            EventValue::ControlData { control_id: r[0], control_value: r[1] },
        ),
        StatusType::ProgramChange => voice_spec(
            r,
            1,
            EventValue::ProgramChangeData { program_id: r[0] },
        ),
        StatusType::ChannelAftertouch => voice_spec(
            r,
            1,
            EventValue::ChannelData { channel_pressure: r[0] },
        ),
        StatusType::PitchBendChange => voice_spec(
            r,
            2,
            EventValue::PitchBendData { least_bytes: r[0], most_bytes: r[1] },
        ),
        StatusType::SystemMsg => if st.raw_status == 0xFF {
            meta_spec(r, tempo_unset)
        } else if st.raw_status == 0xF0 || st.raw_status == 0xF7 {
            sysex_spec(r)
        } else {
            Ok((EventValue::Error(SYSTEM_MESSAGE_ERROR@), r, TrackEffect::Unchanged))
        },
    }
}

impl StatusType {
    /// The top four bits of the statuses in this category, as a byte.
    pub open spec fn code_spec(self) -> u8 {
        match self {
            StatusType::NoteOff => 0x80,
            StatusType::NoteOn => 0x90,
            StatusType::PolyphonicAftertouch => 0xA0,
            StatusType::CtrlChange => 0xB0,
            StatusType::ProgramChange => 0xC0,
            StatusType::ChannelAftertouch => 0xD0,
            StatusType::PitchBendChange => 0xE0,
            StatusType::SystemMsg => 0xF0,
        }
    }

    /// The status byte of this category on channel 0.
    pub fn code(self) -> (r: u8)
        ensures
            r == self.code_spec(),
    {
        match self {
            StatusType::NoteOff => 0x80,
            StatusType::NoteOn => 0x90,
            StatusType::PolyphonicAftertouch => 0xA0,
            StatusType::CtrlChange => 0xB0,
            StatusType::ProgramChange => 0xC0,
            StatusType::ChannelAftertouch => 0xD0,
            StatusType::PitchBendChange => 0xE0,
            StatusType::SystemMsg => 0xF0,
        }
    }
}

impl Status {
    /// The status that `byte` stands for; bytes below 0x80 are data, not
    /// status.
    pub fn from_byte(byte: u8) -> (r: Result<Self, MidiError>)
        ensures
            byte < 0x80 ==> r == Err::<Status, MidiError>(MidiError::InvalidStatusByte(byte)),
            byte >= 0x80 ==> r == Ok::<Status, MidiError>(status_of(byte)),
    {
        let top = byte >> 4u8;
        assert(top == byte / 16) by (bit_vector)
            requires
                top == byte >> 4u8,
        ;
        let status_type = match top {
            8 => StatusType::NoteOff,
            9 => StatusType::NoteOn,
            10 => StatusType::PolyphonicAftertouch,
            11 => StatusType::CtrlChange,
            12 => StatusType::ProgramChange,
            13 => StatusType::ChannelAftertouch,
            14 => StatusType::PitchBendChange,
            15 => StatusType::SystemMsg,
            _ => {
                return Err(MidiError::InvalidStatusByte(byte));
            },
        };
        Ok(Status { status_type, raw_status: byte })
    }

    /// Decodes the payload that follows this status, applying what it does to
    /// the track and to the file's tempo.
    pub fn parse_data(&self, file: &mut MidiFile, track: &mut MidiTrack, bytes: &mut BytesMut) -> (r:
        Result<EventData, MidiError>)
        requires
            *self == status_of(self.raw_status),
            self.raw_status >= 0x80,
        ensures
            match payload_spec(*self, buffer_contents(*old(bytes)), old(file).tempo == 0) {
                Ok((v, rest, effect)) => {
                    &&& r matches Ok(d) && d@ == v
                    &&& buffer_contents(*final(bytes)) == rest
                    &&& final(track)@ == apply_effect(old(track)@, effect)
                    &&& final(file).tempo == old(file).tempo_after(effect)
                    &&& final(file).bpm == old(file).bpm_after(effect)
                    &&& final(file).tracks == old(file).tracks
                    &&& final(file).division == old(file).division
                },
                Err(e) => r == Err::<EventData, MidiError>(e),
            },
            r is Ok ==> buffer_contents(*final(bytes)).len() <= buffer_contents(*old(bytes)).len(),
    {
        match self.status_type {
            StatusType::NoteOff | StatusType::NoteOn | StatusType::PolyphonicAftertouch => {
                match read_u8s(bytes, 2) {
                    Ok(v) => Ok(EventData::NoteOnOffData { key: v[0], velocity: v[1] }),
                    Err(e) => Err(e),
                }
            },
            StatusType::CtrlChange => match read_u8s(bytes, 2) {
                Ok(v) => Ok(EventData::ControlData { control_id: v[0], control_value: v[1] }),
                Err(e) => Err(e),
            },
            StatusType::ProgramChange => match read_u8s(bytes, 1) {
                Ok(v) => Ok(EventData::ProgramChangeData { program_id: v[0] }),
                Err(e) => Err(e),
            },
            StatusType::ChannelAftertouch => match read_u8s(bytes, 1) {
                Ok(v) => Ok(EventData::ChannelData { channel_pressure: v[0] }),
                Err(e) => Err(e),
            },
            StatusType::PitchBendChange => match read_u8s(bytes, 2) {
                Ok(v) => Ok(EventData::PitchBendData { least_bytes: v[0], most_bytes: v[1] }),
                Err(e) => Err(e),
            },
            StatusType::SystemMsg => {
                if self.raw_status == 0xFF {
                    parse_meta(file, track, bytes)
                } else if self.raw_status == 0xF0 || self.raw_status == 0xF7 {
                    let len = match read_value(bytes) {
                        Ok(n) => n,
                        Err(e) => {
                            return Err(e);
                        },
                    };
                    match read_str(bytes, len as usize) {
                        Ok(s) => Ok(EventData::SysexData { meta: MetaData::SingleString(s) }),
                        Err(e) => Err(e),
                    }
                } else {
                    Ok(EventData::Error(SYSTEM_MESSAGE_ERROR.to_owned()))
                }
            },
        }
    }
}

} // verus!
