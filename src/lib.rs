//! Decoding of Standard MIDI Files into tracks of timed events.

pub mod buffer;
pub mod message;
pub mod note;
pub mod parser;
pub mod status;
