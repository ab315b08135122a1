use vstd::prelude::*;

use crate::abstract_note::AbstractNote;
use crate::note_modifier::NoteModifier;
use crate::raw_note::{raw_note_from_char, RawNote};

verus! {

/// Why a note name could not be read.
#[derive(Debug, Clone, Copy, PartialEq, Eq, Structural, Hash)]
pub enum AbstractNoteParseError {
    EmptyInput,
    InvalidNote,
    InvalidModifier,
    InputTooLong,
}

/// Whether `c` has the Unicode White_Space property.
pub open spec fn is_white_space(c: char) -> bool {
    let u = c as u32;
    (0x09 <= u <= 0x0D) || u == 0x20 || u == 0x85 || u == 0xA0 || u == 0x1680 || (0x2000 <= u
        <= 0x200A) || u == 0x2028 || u == 0x2029 || u == 0x202F || u == 0x205F || u == 0x3000
}

/// The text with its leading white space removed.
pub open spec fn trim_front(s: Seq<char>) -> Seq<char>
    decreases s.len(),
{
    if s.len() > 0 && is_white_space(s[0]) {
        trim_front(s.drop_first())
    } else {
        s
    }
}

/// The text with its trailing white space removed.
pub open spec fn trim_back(s: Seq<char>) -> Seq<char>
    decreases s.len(),
{
    if s.len() > 0 && is_white_space(s.last()) {
        trim_back(s.drop_last())
    } else {
        s
    }
}

/// The text with leading and trailing white space removed.
pub open spec fn trim_of(s: Seq<char>) -> Seq<char> {
    trim_back(trim_front(s))
}

/// Relies on `str::trim`, which removes leading and trailing characters
/// with the Unicode White_Space property (`char::is_whitespace`).
#[verifier::external_body]
fn trimmed_chars(s: &str) -> (r: Vec<char>)
    ensures
        r@ == trim_of(s@),
{
    s.trim().chars().collect()
}

/// Bytes `c` takes in UTF-8.
pub open spec fn utf8_width(c: char) -> int {
    if (c as u32) < 0x80 {
        1
    } else if (c as u32) < 0x800 {
        2
    } else if (c as u32) < 0x10000 {
        3
    } else {
        4
    }
}

/// Bytes the characters take in UTF-8.
pub open spec fn utf8_len(t: Seq<char>) -> int
    decreases t.len(),
{
    if t.len() == 0 {
        0
    } else {
        utf8_len(t.drop_last()) + utf8_width(t.last())
    }
}

/// The modifier written as `t` after the letter, if `t` writes one.
pub open spec fn modifier_from(t: Seq<char>) -> Option<NoteModifier> {
    if t == Seq::<char>::empty() {
        Some(NoteModifier::Natural)
    } else if t == seq!['#'] {
        Some(NoteModifier::Sharp)
    } else if t == seq!['b'] {
        Some(NoteModifier::Flat)
    } else if t == seq!['#', '#'] || t == seq!['x'] {
        Some(NoteModifier::DoubleSharp)
    } else if t == seq!['b', 'b'] {
        Some(NoteModifier::DoubleFlat)
    } else {
        None
    }
}

/// Reads trimmed note text: a letter in either case, then "", "#", "b",
/// "##", "x" or "bb"; at most three bytes in all.
pub open spec fn parse_note(t: Seq<char>) -> Result<AbstractNote, AbstractNoteParseError> {
    if t.len() == 0 {
        Err(AbstractNoteParseError::EmptyInput)
    } else if utf8_len(t) > 3 {
        Err(AbstractNoteParseError::InputTooLong)
    } else {
        match raw_note_from_char(t[0]) {
            Err(_) => Err(AbstractNoteParseError::InvalidNote),
            Ok(raw_note) => match modifier_from(t.subrange(1, t.len() as int)) {
                Some(modifier) => Ok(AbstractNote { raw_note, modifier }),
                None => Err(AbstractNoteParseError::InvalidModifier),
            },
        }
    }
}

/// What reading `s` gives: empty text is refused first, then the trimmed
/// text is read.
pub open spec fn parse_text(s: Seq<char>) -> Result<AbstractNote, AbstractNoteParseError> {
    if s.len() == 0 {
        Err(AbstractNoteParseError::EmptyInput)
    } else {
        parse_note(trim_of(s))
    }
}

fn modifier_from_chars(t: &[char]) -> (r: Option<NoteModifier>)
    ensures
        r == modifier_from(t@),
{
    if t.len() == 0 {
        proof {
            assert(t@ =~= Seq::<char>::empty());
        }
        Some(NoteModifier::Natural)
    } else if t.len() == 1 {
        if t[0] == '#' {
            proof {
                assert(t@ =~= seq!['#']);
            }
            Some(NoteModifier::Sharp)
        } else if t[0] == 'b' {
            proof {
                assert(t@ =~= seq!['b']);
            }
            Some(NoteModifier::Flat)
        } else if t[0] == 'x' {
            proof {
                assert(t@ =~= seq!['x']);
            }
            Some(NoteModifier::DoubleSharp)
        } else {
            proof {
                assert(t@ != seq!['#'] && t@ != seq!['b'] && t@ != seq!['x']);
                assert(t@ != seq!['#', '#'] && t@ != seq!['b', 'b']);
            }
            None
        }
    } else if t.len() == 2 && t[0] == '#' && t[1] == '#' {
        proof {
            assert(t@ =~= seq!['#', '#']);
        }
        Some(NoteModifier::DoubleSharp)
    } else if t.len() == 2 && t[0] == 'b' && t[1] == 'b' {
        proof {
            assert(t@ =~= seq!['b', 'b']);
        }
        Some(NoteModifier::DoubleFlat)
    } else {
        proof {
            assert(t@.len() != 1);
            assert(t@ != seq!['#'] && t@ != seq!['b'] && t@ != seq!['x']);
            if t@.len() == 2 {
                assert(t@ != seq!['#', '#']) by {
                    if t@ == seq!['#', '#'] {
                        assert(t@[0] == '#' && t@[1] == '#');
                    }
                }
                assert(t@ != seq!['b', 'b']) by {
                    if t@ == seq!['b', 'b'] {
                        assert(t@[0] == 'b' && t@[1] == 'b');
                    }
                }
            }
        }
        None
    }
}

fn utf8_width_of(c: char) -> (r: usize)
    ensures
        r == utf8_width(c),
{
    let code = c as u32;
    if code < 0x80 {
        1
    } else if code < 0x800 {
        2
    } else if code < 0x10000 {
        3
    } else {
        4
    }
}

impl AbstractNote {
    /// Reads note text that has already been trimmed.
    pub fn parse_trimmed(t: &[char]) -> (r: Result<AbstractNote, AbstractNoteParseError>)
        ensures
            r == parse_note(t@),
    {
        if t.len() == 0 {
            return Err(AbstractNoteParseError::EmptyInput);
        }
        if t.len() > 3 {
            proof {
                lemma_utf8_len_at_least(t@);
            }
            return Err(AbstractNoteParseError::InputTooLong);
        }
        let mut bytes: usize = 0;
        let mut i: usize = 0;
        while i < t.len()
            invariant
                i <= t@.len() <= 3,
                bytes == utf8_len(t@.subrange(0, i as int)),
                bytes <= 4 * i,
            decreases t@.len() - i,
        {
            proof {
                assert(t@.subrange(0, i + 1).drop_last() =~= t@.subrange(0, i as int));
            }
            bytes = bytes + utf8_width_of(t[i]);
            i = i + 1;
        }
        proof {
            assert(t@.subrange(0, i as int) =~= t@);
        }
        if bytes > 3 {
            return Err(AbstractNoteParseError::InputTooLong);
        }
        let raw_note = match RawNote::from_char(t[0]) {
            Ok(raw_note) => raw_note,
            Err(_) => return Err(AbstractNoteParseError::InvalidNote),
        };
        let rest = slice_from_one(t);
        match modifier_from_chars(rest) {
            Some(modifier) => Ok(AbstractNote { raw_note, modifier }),
            None => Err(AbstractNoteParseError::InvalidModifier),
        }
    }

    /// Reads a note name such as "C", "c#", "Bbb" or "Fx", ignoring
    /// surrounding white space.
    pub fn parse(s: &str) -> (r: Result<AbstractNote, AbstractNoteParseError>)
        ensures
            r == parse_text(s@),
    {
        if s.is_empty() {
            return Err(AbstractNoteParseError::EmptyInput);
        }
        let trimmed = trimmed_chars(s);
        Self::parse_trimmed(trimmed.as_slice())
    }
}

fn slice_from_one(t: &[char]) -> (r: &[char])
    requires
        t@.len() >= 1,
    ensures
        r@ == t@.subrange(1, t@.len() as int),
{
    let (_, rest) = t.split_at(1);
    rest
}

proof fn lemma_utf8_len_at_least(t: Seq<char>)
    ensures
        utf8_len(t) >= t.len(),
    decreases t.len(),
{
    if t.len() > 0 {
        lemma_utf8_len_at_least(t.drop_last());
    }
}

impl TryFrom<&str> for AbstractNote {
    type Error = AbstractNoteParseError;

    fn try_from(value: &str) -> (r: Result<Self, Self::Error>) {
        AbstractNote::parse(value)
    }
}

impl vstd::std_specs::convert::TryFromSpecImpl<&str> for AbstractNote {
    open spec fn obeys_try_from_spec() -> bool {
        true
    }

    open spec fn try_from_spec(value: &str) -> Result<AbstractNote, AbstractNoteParseError> {
        parse_text(value@)
    }
}

impl TryFrom<String> for AbstractNote {
    type Error = AbstractNoteParseError;

    fn try_from(value: String) -> (r: Result<Self, Self::Error>) {
        AbstractNote::parse(value.as_str())
    }
}

impl vstd::std_specs::convert::TryFromSpecImpl<String> for AbstractNote {
    open spec fn obeys_try_from_spec() -> bool {
        true
    }

    open spec fn try_from_spec(value: String) -> Result<AbstractNote, AbstractNoteParseError> {
        parse_text(value@)
    }
}

} // verus!
