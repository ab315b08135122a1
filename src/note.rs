use vstd::prelude::*;

use crate::abstract_note::{spelled, AbstractNote};
use crate::interval::{decompose, SimpleInterval};
use crate::note_modifier::{preference_for, ModifierPreference, NoteModifier, Semitone};
use crate::raw_note::RawNote;

verus! {

/// An octave number; octave 4 holds middle C.
pub type Octave = i32;

/// A spelled note placed at an octave.
#[derive(Debug, Clone, Copy, PartialEq, Eq, Structural, Hash)]
pub struct Note {
    abstract_note: AbstractNote,
    octave: Octave,
}

/// Why a note could not be moved.
#[derive(Debug, Clone, Copy, PartialEq, Eq, Structural)]
pub enum NoteRangeError {
    /// The result would lie below C0, the lowest pitch the model knows.
    BelowLowestC,
}

/// The note `semitones` above C0, spelt as `preference` asks.
pub open spec fn note_at(semitones: int, preference: ModifierPreference) -> Note {
    Note::spec_new(spelled(semitones % 12, preference), semitones / 12)
}

impl Note {
    /// The note with the given spelling at the given octave.
    pub closed spec fn spec_new(abstract_note: AbstractNote, octave: int) -> Note {
        Note { abstract_note, octave: octave as i32 }
    }

    /// The letter and modifier of the note.
    pub closed spec fn abstract_note(self) -> AbstractNote {
        self.abstract_note
    }

    /// The octave of the note.
    pub closed spec fn octave_spec(self) -> int {
        self.octave as int
    }

    /// Semitones above C0 (negative below it).
    pub open spec fn semis(self) -> int {
        self.octave_spec() * 12 + self.abstract_note().pitch()
    }

    /// A note is rebuilt from its spelling and octave.
    pub proof fn lemma_view(self)
        ensures
            Note::spec_new(self.abstract_note(), self.octave_spec()) == self,
            i32::MIN <= self.octave_spec() <= i32::MAX,
    {
    }

    /// Notes agree when their spelling and octave agree.
    pub proof fn lemma_ext(a: Note, b: Note)
        requires
            a.abstract_note() == b.abstract_note(),
            a.octave_spec() == b.octave_spec(),
        ensures
            a == b,
    {
    }

    /// A note built from a spelling and an octave holds them.
    pub proof fn lemma_spec_new(abstract_note: AbstractNote, octave: int)
        requires
            i32::MIN <= octave <= i32::MAX,
        ensures
            Note::spec_new(abstract_note, octave).abstract_note() == abstract_note,
            Note::spec_new(abstract_note, octave).octave_spec() == octave,
    {
    }

    /// The note `raw_note` with `modifier` at `octave`.
    pub fn new(raw_note: RawNote, octave: i32, modifier: NoteModifier) -> (r: Self)
        ensures
            r.abstract_note() == (AbstractNote { raw_note, modifier }),
            r.octave_spec() == octave,
    {
        Note { octave, abstract_note: AbstractNote { raw_note, modifier } }
    }

    /// The octave of the note.
    pub fn octave(&self) -> (r: Octave)
        ensures
            r == self.octave_spec(),
    {
        self.octave
    }

    /// The letter of the note.
    pub fn raw_note(&self) -> (r: RawNote)
        ensures
            r == self.abstract_note().raw_note,
    {
        self.abstract_note.raw_note
    }

    /// The accidental of the note.
    pub fn modifier(&self) -> (r: NoteModifier)
        ensures
            r == self.abstract_note().modifier,
    {
        self.abstract_note.modifier
    }

    /// The letter and modifier of this note, without its octave.
    pub fn to_abstract_note(&self) -> (r: AbstractNote)
        ensures
            r == self.abstract_note(),
    {
        self.abstract_note
    }

    /// The note `semitones_from_low_c` above C0, with black keys spelt as
    /// `modifier_preference` asks.
    pub fn from_semitones_from_c0(
        semitones_from_low_c: Semitone,
        modifier_preference: ModifierPreference,
    ) -> (r: Note)
        ensures
            r == note_at(semitones_from_low_c as int, modifier_preference),
            r.abstract_note() == spelled(semitones_from_low_c as int % 12, modifier_preference),
            r.octave_spec() == semitones_from_low_c as int / 12,
            r.semis() == semitones_from_low_c,
    {
        let split = SimpleInterval::from_semitones(semitones_from_low_c);
        let mut octave_overflow = split.octave_overflow;
        let abstract_note = match split.interval {
            // A whole octave is spelt as the unison of the next octave.
            SimpleInterval::PerfectOctave => {
                octave_overflow = octave_overflow + 1;
                AbstractNote::from_interval_from_c(SimpleInterval::PerfectUnison, modifier_preference)
            },
            _ => AbstractNote::from_interval_from_c(split.interval, modifier_preference),
        };
        proof {
            let s = semitones_from_low_c as int;
            assert(s == (s / 12) * 12 + s % 12);
        }
        abstract_note.at_octave(octave_overflow)
    }

    /// Semitones above C0: twelve per octave, plus the letter's place above
    /// C, plus the modifier's offset.
    pub fn to_semitones_from_c0(&self) -> (r: Semitone)
        requires
            i32::MIN <= self.semis() <= i32::MAX,
        ensures
            r == self.semis(),
    {
        let mut semitones_from_c: i32 = 0;
        let mut current_note = self.abstract_note.raw_note;
        while current_note != RawNote::C
            invariant
                semitones_from_c + current_note.natural_offset()
                    == self.abstract_note.raw_note.natural_offset(),
                0 <= semitones_from_c <= 11,
            decreases current_note.index(),
        {
            let (prev_note, semitones_to_prev_note) = current_note.prev_note();
            current_note = prev_note;
            semitones_from_c = semitones_from_c + semitones_to_prev_note;
        }
        let wide: i64 = self.octave as i64 * 12 + semitones_from_c as i64
            + self.abstract_note.modifier.semitones() as i64;
        wide as i32
    }

    /// The note `semitones` away, spelt with this note's preference for
    /// sharps or flats; an error when it would fall below C0.
    pub fn add_semitones(&self, semitones: Semitone) -> (r: Result<Note, NoteRangeError>)
        requires
            i32::MIN <= self.semis() <= i32::MAX,
            i32::MIN <= self.semis() + semitones <= i32::MAX,
        ensures
            self.semis() + semitones < 0 ==> r == Err::<Note, NoteRangeError>(
                NoteRangeError::BelowLowestC,
            ),
            self.semis() + semitones >= 0 ==> r == Ok::<Note, NoteRangeError>(
                note_at(self.semis() + semitones, preference_for(self.abstract_note().modifier)),
            ),
    {
        let new_semitones = self.to_semitones_from_c0() + semitones;
        if new_semitones < 0 {
            return Err(NoteRangeError::BelowLowestC);
        }
        Ok(Note::from_semitones_from_c0(new_semitones, ModifierPreference::from(self.abstract_note.modifier)))
    }
}

impl Default for Note {
    fn default() -> (r: Self)
        ensures
            r.abstract_note() == (AbstractNote { raw_note: RawNote::C, modifier: NoteModifier::Natural }),
            r.octave_spec() == 0,
    {
        Note::new(RawNote::C, 0, NoteModifier::Natural)
    }
}

/// Placing a note by its semitones above C0 gives back a note of the same
/// pitch, whatever spelling preference is asked for.
pub proof fn lemma_semitone_round_trip(n: Note, preference: ModifierPreference)
    requires
        i32::MIN <= n.semis() <= i32::MAX,
    ensures
        note_at(n.semis(), preference).semis() == n.semis(),
{
    let s = n.semis();
    let a = spelled(s % 12, preference);
    assert(s == (s / 12) * 12 + s % 12);
    assert(a.pitch() == s % 12);
    Note::lemma_spec_new(a, s / 12);
}

} // verus!
