use vstd::prelude::*;

use crate::note_modifier::Semitone;

verus! {

/// One of the seven natural letter names.
#[derive(Debug, Clone, Copy, PartialEq, Eq, Structural, Hash)]
pub enum RawNote {
    C,
    D,
    E,
    F,
    G,
    A,
    B,
}

pub const C: RawNote = RawNote::C;
pub const D: RawNote = RawNote::D;
pub const E: RawNote = RawNote::E;
pub const F: RawNote = RawNote::F;
pub const G: RawNote = RawNote::G;
pub const A: RawNote = RawNote::A;
pub const B: RawNote = RawNote::B;

/// The letter at position `i` (taken modulo 7) counted from C.
pub open spec fn letter_at(i: int) -> RawNote {
    let k = i % 7;
    if k == 0 {
        RawNote::C
    } else if k == 1 {
        RawNote::D
    } else if k == 2 {
        RawNote::E
    } else if k == 3 {
        RawNote::F
    } else if k == 4 {
        RawNote::G
    } else if k == 5 {
        RawNote::A
    } else {
        RawNote::B
    }
}

impl RawNote {
    /// Position of the letter counted from C (C is 0, B is 6).
    pub open spec fn index(self) -> int {
        match self {
            RawNote::C => 0,
            RawNote::D => 1,
            RawNote::E => 2,
            RawNote::F => 3,
            RawNote::G => 4,
            RawNote::A => 5,
            RawNote::B => 6,
        }
    }

    /// Semitones from C up to this natural letter in the same octave.
    pub open spec fn natural_offset(self) -> int {
        match self {
            RawNote::C => 0,
            RawNote::D => 2,
            RawNote::E => 4,
            RawNote::F => 5,
            RawNote::G => 7,
            RawNote::A => 9,
            RawNote::B => 11,
        }
    }

    /// The next letter up, and the semitones up to it.
    pub fn next_note(&self) -> (r: (RawNote, Semitone))
        ensures
            r.0 == letter_at(self.index() + 1),
            r.1 == (r.0.natural_offset() - self.natural_offset()) % 12,
            1 <= r.1 <= 2,
            r.0.natural_offset() == self.natural_offset() + r.1 || (self == RawNote::B
                && r.0.natural_offset() == self.natural_offset() + r.1 - 12),
    {
        match self {
            RawNote::C => (RawNote::D, 2),
            RawNote::D => (RawNote::E, 2),
            RawNote::E => (RawNote::F, 1),
            RawNote::F => (RawNote::G, 2),
            RawNote::G => (RawNote::A, 2),
            RawNote::A => (RawNote::B, 2),
            RawNote::B => (RawNote::C, 1),
        }
    }

    /// The next letter down, and the semitones down to it.
    pub fn prev_note(&self) -> (r: (RawNote, Semitone))
        ensures
            r.0 == letter_at(self.index() + 6),
            r.1 == (self.natural_offset() - r.0.natural_offset()) % 12,
            1 <= r.1 <= 2,
            r.0.natural_offset() == self.natural_offset() - r.1 || (self == RawNote::C
                && r.0.natural_offset() == self.natural_offset() - r.1 + 12),
    {
        match self {
            RawNote::C => (RawNote::B, 1),
            RawNote::D => (RawNote::C, 2),
            RawNote::E => (RawNote::D, 2),
            RawNote::F => (RawNote::E, 1),
            RawNote::G => (RawNote::F, 2),
            RawNote::A => (RawNote::G, 2),
            RawNote::B => (RawNote::A, 2),
        }
    }

    /// The letter as written ("C" .. "B").
    pub fn to_basic_notation(&self) -> (r: &'static str)
        ensures
            r == self.basic_notation(),
    {
        match self {
            RawNote::C => "C",
            RawNote::D => "D",
            RawNote::E => "E",
            RawNote::F => "F",
            RawNote::G => "G",
            RawNote::A => "A",
            RawNote::B => "B",
        }
    }

    pub open spec fn basic_notation(self) -> &'static str {
        match self {
            RawNote::C => "C",
            RawNote::D => "D",
            RawNote::E => "E",
            RawNote::F => "F",
            RawNote::G => "G",
            RawNote::A => "A",
            RawNote::B => "B",
        }
    }

    /// Reads a letter name, in either case.
    pub fn from_char(c: char) -> (r: Result<RawNote, IntoRawNoteError>)
        ensures
            r == raw_note_from_char(c),
    {
        match c {
            'C' | 'c' => Ok(RawNote::C),
            'D' | 'd' => Ok(RawNote::D),
            'E' | 'e' => Ok(RawNote::E),
            'F' | 'f' => Ok(RawNote::F),
            'G' | 'g' => Ok(RawNote::G),
            'A' | 'a' => Ok(RawNote::A),
            'B' | 'b' => Ok(RawNote::B),
            _ => Err(IntoRawNoteError::InvalidNoteChar(c)),
        }
    }
}

/// The letter whose upper or lower case form is `c`, if any.
pub open spec fn raw_note_from_char(c: char) -> Result<RawNote, IntoRawNoteError> {
    if c == 'C' || c == 'c' {
        Ok(RawNote::C)
    } else if c == 'D' || c == 'd' {
        Ok(RawNote::D)
    } else if c == 'E' || c == 'e' {
        Ok(RawNote::E)
    } else if c == 'F' || c == 'f' {
        Ok(RawNote::F)
    } else if c == 'G' || c == 'g' {
        Ok(RawNote::G)
    } else if c == 'A' || c == 'a' {
        Ok(RawNote::A)
    } else if c == 'B' || c == 'b' {
        Ok(RawNote::B)
    } else {
        Err(IntoRawNoteError::InvalidNoteChar(c))
    }
}

impl Default for RawNote {
    fn default() -> (r: Self)
        ensures
            r == RawNote::C,
    {
        RawNote::C
    }
}

/// A character that names no letter.
#[derive(Debug, Clone, Copy, PartialEq, Eq, Structural)]
pub enum IntoRawNoteError {
    InvalidNoteChar(char),
}

impl TryFrom<char> for RawNote {
    type Error = IntoRawNoteError;

    fn try_from(value: char) -> (r: Result<Self, Self::Error>) {
        RawNote::from_char(value)
    }
}

impl vstd::std_specs::convert::TryFromSpecImpl<char> for RawNote {
    open spec fn obeys_try_from_spec() -> bool {
        true
    }

    open spec fn try_from_spec(value: char) -> Result<RawNote, IntoRawNoteError> {
        raw_note_from_char(value)
    }
}

} // verus!
