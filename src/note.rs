//! Pitch classes and octaves of MIDI note numbers.

use vstd::prelude::*;

verus! {

/// The twelve pitch classes, from C up.
#[derive(Debug, Clone, Copy, PartialEq, Eq, Structural)]
pub enum Notes {
    C,
    CSharp,
    D,
    DSharp,
    E,
    F,
    FSharp,
    G,
    GSharp,
    A,
    ASharp,
    B,
}

/// Why a pitch class and octave name no playable note.
#[derive(Debug, Clone, Copy, PartialEq, Eq, Structural)]
pub enum NoteError {
    /// The note lies below A0, note number 21.
    BelowLowestNote,
}

/// The pitch class with index `c` (0 for C up to 11 for B).
pub open spec fn class_of(c: nat) -> Notes {
    if c == 0 {
        Notes::C
    } else if c == 1 {
        Notes::CSharp
    } else if c == 2 {
        Notes::D
    } else if c == 3 {
        Notes::DSharp
    } else if c == 4 {
        Notes::E
    } else if c == 5 {
        Notes::F
    } else if c == 6 {
        Notes::FSharp
    } else if c == 7 {
        Notes::G
    } else if c == 8 {
        Notes::GSharp
    } else if c == 9 {
        Notes::A
    } else if c == 10 {
        Notes::ASharp
    } else {
        Notes::B
    }
}

/// The pitch class and octave of note number `n`, where octave 0 starts at
/// note 12; `None` below note 12 or where the octave passes 127.
pub open spec fn note_of(n: u32) -> Option<(Notes, u8)> {
    if 12 <= n && n / 12 - 1 <= 127 {
        Some((class_of((n % 12) as nat), (n / 12 - 1) as u8))
    } else {
        None
    }
}

impl Notes {
    /// Index of the pitch class, 0 for C up to 11 for B.
    pub open spec fn index(self) -> nat {
        match self {
            Notes::C => 0,
            Notes::CSharp => 1,
            Notes::D => 2,
            Notes::DSharp => 3,
            Notes::E => 4,
            Notes::F => 5,
            Notes::FSharp => 6,
            Notes::G => 7,
            Notes::GSharp => 8,
            Notes::A => 9,
            Notes::ASharp => 10,
            Notes::B => 11,
        }
    }

    /// The note number of this pitch class in octave `n`.
    pub open spec fn number(self, n: nat) -> int {
        (12 + self.index() + 12 * n) as int
    }

    /// The note number, or the error, that `octave(n)` gives.
    pub open spec fn octave_spec(self, n: nat) -> Result<u32, NoteError> {
        if self.number(n) < 21 {
            Err(NoteError::BelowLowestNote)
        } else {
            Ok(self.number(n) as u32)
        }
    }

    /// The note number of this pitch class in octave `n`; notes below A0 are
    /// refused.
    pub fn octave(self, n: u32) -> (r: Result<u32, NoteError>)
        requires
            self.number(n as nat) <= u32::MAX,
        ensures
            r == self.octave_spec(n as nat),
    {
        let base: u32 = match self {
            Notes::C => 12,
            Notes::CSharp => 13,
            Notes::D => 14,
            Notes::DSharp => 15,
            Notes::E => 16,
            Notes::F => 17,
            Notes::FSharp => 18,
            Notes::G => 19,
            Notes::GSharp => 20,
            Notes::A => 21,
            Notes::ASharp => 22,
            Notes::B => 23,
        };
        let octaved = base + 12 * n;
        if octaved < 21 {
            Err(NoteError::BelowLowestNote)
        } else {
            Ok(octaved)
        }
    }

    /// The pitch class and octave of note number `n`.
    pub fn from(n: u32) -> (r: Option<(Self, u8)>)
        ensures
            r == note_of(n),
    {
        if n < 12 || n / 12 - 1 > 127 {
            return None;
        }
        let modulo = n % 12;
        let octave = (n / 12 - 1) as u8;
        let class = match modulo {
            0 => Self::C,
            1 => Self::CSharp,
            2 => Self::D,
            3 => Self::DSharp,
            4 => Self::E,
            5 => Self::F,
            6 => Self::FSharp,
            7 => Self::G,
            8 => Self::GSharp,
            9 => Self::A,
            10 => Self::ASharp,
            _ => Self::B,
        };
        Some((class, octave))
    }
}

/// Splitting a note number from A0 up to 127 into pitch class and octave, and
/// asking for that pitch class in that octave, gives the note number back.
pub proof fn lemma_note_round_trip(n: u32)
    requires
        21 <= n <= 127,
    ensures
        note_of(n) matches Some((p, o)) && p.octave_spec(o as nat) == Ok::<u32, NoteError>(n),
{
    let c = (n % 12) as nat;
    assert(class_of(c).index() == c);
}

} // verus!
