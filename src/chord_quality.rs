use vstd::prelude::*;

use crate::chord::Chord;
use crate::compound_interval::{named_for, Interval};
use crate::interval::decompose;
use crate::note::{note_at, Note};
use crate::note_modifier::{ModifierPreference, NoteModifier, Semitone};

verus! {

/// A named chord recipe: a fixed list of semitone offsets above a root.
#[derive(Debug, Clone, Copy, PartialEq, Eq, Structural)]
pub enum ChordQuality {
    Major,
    Major6th,
    Major7th,
    Major9th,
    Major11th,
    Major13th,
    Minor,
    Minor6th,
    Minor7th,
    MinorMajor7th,
    Minor9th,
    Minor11th,
    Minor13th,
    MinorMajor7thFlat13th,
    Augmented,
    Augmented7th,
    AugmentedMajor7th,
    Diminished,
    Diminished7th,
    Suspended2nd,
    Suspended4th,
}

/// How chord tones above a root are spelt: with sharps above a sharp root,
/// with flats above a natural or flat one (a minor third on C is E flat).
pub open spec fn chord_preference(root_modifier: NoteModifier) -> ModifierPreference {
    match root_modifier {
        NoteModifier::Sharp | NoteModifier::DoubleSharp => ModifierPreference::Sharp,
        _ => ModifierPreference::Flat,
    }
}

fn chord_preference_of(root_modifier: NoteModifier) -> (r: ModifierPreference)
    ensures
        r == chord_preference(root_modifier),
{
    match root_modifier {
        NoteModifier::Sharp | NoteModifier::DoubleSharp => ModifierPreference::Sharp,
        _ => ModifierPreference::Flat,
    }
}

/// The notes of a chord of quality `quality` on `root`: the root, then the
/// note each offset above it, spelt as `chord_preference` says.
pub open spec fn chord_notes(quality: ChordQuality, root: Note) -> Seq<Note> {
    seq![root] + quality.offsets().map_values(
        |k: int| note_at(root.semis() + k, chord_preference(root.abstract_note().modifier)),
    )
}

/// Whether every note of the recipe on `root` lies within C0 and `i32`.
pub open spec fn chord_fits(quality: ChordQuality, root: Note) -> bool {
    &&& i32::MIN <= root.semis() <= i32::MAX
    &&& forall|i: int|
        0 <= i < quality.offsets().len() ==> 0 <= root.semis() + #[trigger] quality.offsets()[i]
            <= i32::MAX
}

impl ChordQuality {
    /// Semitones above the root of each note but the root, lowest first.
    pub open spec fn offsets(self) -> Seq<int> {
        match self {
            ChordQuality::Major => seq![4, 7],
            ChordQuality::Major6th => seq![4, 7, 9],
            ChordQuality::Major7th => seq![4, 7, 11],
            ChordQuality::Major9th => seq![4, 7, 11, 14],
            ChordQuality::Major11th => seq![4, 7, 11, 14, 17],
            ChordQuality::Major13th => seq![4, 7, 11, 14, 17, 21],
            ChordQuality::Minor => seq![3, 7],
            ChordQuality::Minor6th => seq![3, 7, 9],
            ChordQuality::Minor7th => seq![3, 7, 10],
            ChordQuality::MinorMajor7th => seq![3, 7, 11],
            ChordQuality::Minor9th => seq![3, 7, 10, 14],
            ChordQuality::Minor11th => seq![3, 7, 10, 14, 17],
            ChordQuality::Minor13th => seq![3, 7, 10, 14, 17, 21],
            ChordQuality::MinorMajor7thFlat13th => seq![3, 7, 11, 20],
            ChordQuality::Augmented => seq![4, 8],
            ChordQuality::Augmented7th => seq![4, 8, 10],
            ChordQuality::AugmentedMajor7th => seq![4, 8, 11],
            ChordQuality::Diminished => seq![3, 6],
            ChordQuality::Diminished7th => seq![3, 6, 9],
            ChordQuality::Suspended2nd => seq![2, 7],
            ChordQuality::Suspended4th => seq![5, 7],
        }
    }

    pub open spec fn short_name_spec(self) -> &'static str {
        match self {
            ChordQuality::Major => "maj",
            ChordQuality::Major6th => "maj6",
            ChordQuality::Major7th => "maj7",
            ChordQuality::Major9th => "maj9",
            ChordQuality::Major11th => "maj11",
            ChordQuality::Major13th => "maj13",
            ChordQuality::Minor => "m",
            ChordQuality::Minor6th => "m6",
            ChordQuality::Minor7th => "m7",
            ChordQuality::MinorMajor7th => "mM7",
            ChordQuality::Minor9th => "m9",
            ChordQuality::Minor11th => "m11",
            ChordQuality::Minor13th => "m13",
            ChordQuality::MinorMajor7thFlat13th => "mM7b13",
            ChordQuality::Augmented => "aug",
            ChordQuality::Augmented7th => "aug7",
            ChordQuality::AugmentedMajor7th => "augM7",
            ChordQuality::Diminished => "dim",
            ChordQuality::Diminished7th => "dim7",
            ChordQuality::Suspended2nd => "sus2",
            ChordQuality::Suspended4th => "sus4",
        }
    }

    pub open spec fn long_name_spec(self) -> &'static str {
        match self {
            ChordQuality::Major => "Major",
            ChordQuality::Major6th => "Major 6th",
            ChordQuality::Major7th => "Major 7th",
            ChordQuality::Major9th => "Major 9th",
            ChordQuality::Major11th => "Major 11th",
            ChordQuality::Major13th => "Major 13th",
            ChordQuality::Minor => "Minor",
            ChordQuality::Minor6th => "Minor 6th",
            ChordQuality::Minor7th => "Minor 7th",
            ChordQuality::MinorMajor7th => "Minor Major 7th",
            ChordQuality::Minor9th => "Minor 9th",
            ChordQuality::Minor11th => "Minor 11th",
            ChordQuality::Minor13th => "Minor 13th",
            ChordQuality::MinorMajor7thFlat13th => "Minor Major 7th Flat 13th",
            ChordQuality::Augmented => "Augmented",
            ChordQuality::Augmented7th => "Augmented 7th",
            ChordQuality::AugmentedMajor7th => "Augmented Major 7th",
            ChordQuality::Diminished => "Diminished",
            ChordQuality::Diminished7th => "Diminished 7th",
            ChordQuality::Suspended2nd => "Suspended 2nd",
            ChordQuality::Suspended4th => "Suspended 4th",
        }
    }

    /// Semitones above the root of each note but the root, lowest first.
    pub fn semitone_offsets(&self) -> (r: Vec<Semitone>)
        ensures
            r@.len() == self.offsets().len(),
            forall|i: int| 0 <= i < r@.len() ==> r@[i] == self.offsets()[i],
    {
        let r: Vec<Semitone> = match self {
            ChordQuality::Major => vec![4, 7],
            ChordQuality::Major6th => vec![4, 7, 9],
            ChordQuality::Major7th => vec![4, 7, 11],
            ChordQuality::Major9th => vec![4, 7, 11, 14],
            ChordQuality::Major11th => vec![4, 7, 11, 14, 17],
            ChordQuality::Major13th => vec![4, 7, 11, 14, 17, 21],
            ChordQuality::Minor => vec![3, 7],
            ChordQuality::Minor6th => vec![3, 7, 9],
            ChordQuality::Minor7th => vec![3, 7, 10],
            ChordQuality::MinorMajor7th => vec![3, 7, 11],
            ChordQuality::Minor9th => vec![3, 7, 10, 14],
            ChordQuality::Minor11th => vec![3, 7, 10, 14, 17],
            ChordQuality::Minor13th => vec![3, 7, 10, 14, 17, 21],
            ChordQuality::MinorMajor7thFlat13th => vec![3, 7, 11, 20],
            ChordQuality::Augmented => vec![4, 8],
            ChordQuality::Augmented7th => vec![4, 8, 10],
            ChordQuality::AugmentedMajor7th => vec![4, 8, 11],
            ChordQuality::Diminished => vec![3, 6],
            ChordQuality::Diminished7th => vec![3, 6, 9],
            ChordQuality::Suspended2nd => vec![2, 7],
            ChordQuality::Suspended4th => vec![5, 7],
        };
        r
    }

    /// The intervals of the recipe measured from the root, the root's unison
    /// first.
    pub fn to_intervals(&self) -> (r: Vec<Interval>)
        ensures
            r@.len() == self.offsets().len() + 1,
            r@[0] == Interval::Simple(decompose(0).interval),
            forall|i: int|
                0 <= i < self.offsets().len() && self.offsets()[i] < 13 ==> r@[i + 1]
                    == Interval::Simple(decompose(self.offsets()[i]).interval),
            forall|i: int|
                0 <= i < self.offsets().len() && self.offsets()[i] >= 13 ==> r@[i + 1]
                    == Interval::Compound(named_for(self.offsets()[i])),
    {
        let offsets = self.semitone_offsets();
        let mut intervals: Vec<Interval> = Vec::new();
        intervals.push(Interval::from_semitones(0));
        let mut i: usize = 0;
        while i < offsets.len()
            invariant
                i <= offsets@.len() == self.offsets().len(),
                forall|j: int| 0 <= j < offsets@.len() ==> offsets@[j] == self.offsets()[j],
                intervals@.len() == i + 1,
                intervals@[0] == Interval::Simple(decompose(0).interval),
                forall|j: int|
                    0 <= j < i && self.offsets()[j] < 13 ==> intervals@[j + 1]
                        == Interval::Simple(decompose(self.offsets()[j]).interval),
                forall|j: int|
                    0 <= j < i && self.offsets()[j] >= 13 ==> intervals@[j + 1]
                        == Interval::Compound(named_for(self.offsets()[j])),
            decreases offsets@.len() - i,
        {
            intervals.push(Interval::from_semitones(offsets[i]));
            i = i + 1;
        }
        intervals
    }

    /// The notes of this chord quality built on `root`.
    pub fn to_notes(&self, root: Note) -> (r: Vec<Note>)
        requires
            chord_fits(*self, root),
        ensures
            r@ == chord_notes(*self, root),
    {
        let offsets = self.semitone_offsets();
        let root_semitones = root.to_semitones_from_c0();
        let preference = chord_preference_of(root.modifier());
        let mut notes: Vec<Note> = Vec::new();
        notes.push(root);
        let ghost target = chord_notes(*self, root);
        let mut i: usize = 0;
        while i < offsets.len()
            invariant
                chord_fits(*self, root),
                root_semitones == root.semis(),
                preference == chord_preference(root.abstract_note().modifier),
                target == chord_notes(*self, root),
                i <= offsets@.len() == self.offsets().len(),
                forall|j: int| 0 <= j < offsets@.len() ==> offsets@[j] == self.offsets()[j],
                notes@ =~= target.subrange(0, i + 1),
            decreases offsets@.len() - i,
        {
            let k = offsets[i];
            notes.push(Note::from_semitones_from_c0(root_semitones + k, preference));
            i = i + 1;
            proof {
                assert(notes@ =~= target.subrange(0, i + 1));
            }
        }
        notes
    }

    /// The chord of this quality built on `root`.
    pub fn to_chord(&self, root: Note) -> (r: Chord)
        requires
            chord_fits(*self, root),
        ensures
            r.notes_spec() == chord_notes(*self, root),
    {
        Chord::new(self.to_notes(root))
    }

    /// The chord symbol suffix ("maj", "m7", "sus4", ...).
    pub fn short_name(&self) -> (r: &'static str)
        ensures
            r == self.short_name_spec(),
    {
        match self {
            ChordQuality::Major => "maj",
            ChordQuality::Major6th => "maj6",
            ChordQuality::Major7th => "maj7",
            ChordQuality::Major9th => "maj9",
            ChordQuality::Major11th => "maj11",
            ChordQuality::Major13th => "maj13",
            ChordQuality::Minor => "m",
            ChordQuality::Minor6th => "m6",
            ChordQuality::Minor7th => "m7",
            ChordQuality::MinorMajor7th => "mM7",
            ChordQuality::Minor9th => "m9",
            ChordQuality::Minor11th => "m11",
            ChordQuality::Minor13th => "m13",
            ChordQuality::MinorMajor7thFlat13th => "mM7b13",
            ChordQuality::Augmented => "aug",
            ChordQuality::Augmented7th => "aug7",
            ChordQuality::AugmentedMajor7th => "augM7",
            ChordQuality::Diminished => "dim",
            ChordQuality::Diminished7th => "dim7",
            ChordQuality::Suspended2nd => "sus2",
            ChordQuality::Suspended4th => "sus4",
        }
    }

    /// The spelled-out name ("Major", "Minor 7th", ...).
    pub fn long_name(&self) -> (r: &'static str)
        ensures
            r == self.long_name_spec(),
    {
        match self {
            ChordQuality::Major => "Major",
            ChordQuality::Major6th => "Major 6th",
            ChordQuality::Major7th => "Major 7th",
            ChordQuality::Major9th => "Major 9th",
            ChordQuality::Major11th => "Major 11th",
            ChordQuality::Major13th => "Major 13th",
            ChordQuality::Minor => "Minor",
            ChordQuality::Minor6th => "Minor 6th",
            ChordQuality::Minor7th => "Minor 7th",
            ChordQuality::MinorMajor7th => "Minor Major 7th",
            ChordQuality::Minor9th => "Minor 9th",
            ChordQuality::Minor11th => "Minor 11th",
            ChordQuality::Minor13th => "Minor 13th",
            ChordQuality::MinorMajor7thFlat13th => "Minor Major 7th Flat 13th",
            ChordQuality::Augmented => "Augmented",
            ChordQuality::Augmented7th => "Augmented 7th",
            ChordQuality::AugmentedMajor7th => "Augmented Major 7th",
            ChordQuality::Diminished => "Diminished",
            ChordQuality::Diminished7th => "Diminished 7th",
            ChordQuality::Suspended2nd => "Suspended 2nd",
            ChordQuality::Suspended4th => "Suspended 4th",
        }
    }
}

impl Default for ChordQuality {
    fn default() -> (r: Self)
        ensures
            r == ChordQuality::Major,
    {
        ChordQuality::Major
    }
}

} // verus!
