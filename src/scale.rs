use vstd::prelude::*;

use crate::abstract_note::AbstractNote;
use crate::interval::SimpleInterval;

verus! {

/// A position in a scale, from the root to the octave.
#[derive(Debug, Clone, Copy, PartialEq, Eq, Structural, Hash)]
pub enum ScaleDegree {
    First,
    Second,
    Third,
    Fourth,
    Fifth,
    Sixth,
    Seventh,
    Octave,
}

/// The degree at position `i` (0 for the root, 7 for the octave).
pub open spec fn degree_at(i: int) -> ScaleDegree {
    if i == 0 {
        ScaleDegree::First
    } else if i == 1 {
        ScaleDegree::Second
    } else if i == 2 {
        ScaleDegree::Third
    } else if i == 3 {
        ScaleDegree::Fourth
    } else if i == 4 {
        ScaleDegree::Fifth
    } else if i == 5 {
        ScaleDegree::Sixth
    } else if i == 6 {
        ScaleDegree::Seventh
    } else {
        ScaleDegree::Octave
    }
}

/// The degree at position `i` (0 for the root, 7 for the octave), if any.
pub fn degree_at_position(i: u8) -> (r: Option<ScaleDegree>)
    ensures
        i < 8 ==> r == Some(degree_at(i as int)),
        i >= 8 ==> r.is_none(),
{
    match i {
            0 => Some(ScaleDegree::First),
            1 => Some(ScaleDegree::Second),
            2 => Some(ScaleDegree::Third),
            3 => Some(ScaleDegree::Fourth),
            4 => Some(ScaleDegree::Fifth),
            5 => Some(ScaleDegree::Sixth),
            6 => Some(ScaleDegree::Seventh),
            7 => Some(ScaleDegree::Octave),
        _ => None,
    }
}

/// A pattern of intervals above a root note.
#[derive(Debug, Clone, Copy, PartialEq, Eq, Structural, Hash)]
pub enum ScaleMode {
    /// The diatonic major scale: P1 M2 M3 P4 P5 M6 M7 P8.
    Ionian,
    /// Natural minor with a major sixth: P1 M2 m3 P4 P5 M6 m7 P8.
    Dorian,
    /// Natural minor with a minor second: P1 m2 m3 P4 P5 m6 m7 P8.
    Phrygian,
    /// Major with an augmented fourth: P1 M2 M3 A4 P5 M6 M7 P8.
    Lydian,
    /// Major with a minor seventh: P1 M2 M3 P4 P5 M6 m7 P8.
    Mixolydian,
    /// The natural minor scale: P1 M2 m3 P4 P5 m6 m7 P8.
    Aeolian,
    /// Phrygian with a diminished fifth: P1 m2 m3 P4 d5 m6 m7 P8.
    Locrian,
}

/// The interval of `mode` at `degree`.
pub open spec fn mode_interval(mode: ScaleMode, degree: ScaleDegree) -> SimpleInterval {
    match mode {
            ScaleMode::Ionian => match degree {
                ScaleDegree::First => SimpleInterval::PerfectUnison,
                ScaleDegree::Second => SimpleInterval::MajorSecond,
                ScaleDegree::Third => SimpleInterval::MajorThird,
                ScaleDegree::Fourth => SimpleInterval::PerfectFourth,
                ScaleDegree::Fifth => SimpleInterval::PerfectFifth,
                ScaleDegree::Sixth => SimpleInterval::MajorSixth,
                ScaleDegree::Seventh => SimpleInterval::MajorSeventh,
                ScaleDegree::Octave => SimpleInterval::PerfectOctave,
            },
            ScaleMode::Dorian => match degree {
                ScaleDegree::First => SimpleInterval::PerfectUnison,
                ScaleDegree::Second => SimpleInterval::MajorSecond,
                ScaleDegree::Third => SimpleInterval::MinorThird,
                ScaleDegree::Fourth => SimpleInterval::PerfectFourth,
                ScaleDegree::Fifth => SimpleInterval::PerfectFifth,
                ScaleDegree::Sixth => SimpleInterval::MajorSixth,
                ScaleDegree::Seventh => SimpleInterval::MinorSeventh,
                ScaleDegree::Octave => SimpleInterval::PerfectOctave,
            },
            ScaleMode::Phrygian => match degree {
                ScaleDegree::First => SimpleInterval::PerfectUnison,
                ScaleDegree::Second => SimpleInterval::MinorSecond,
                ScaleDegree::Third => SimpleInterval::MinorThird,
                ScaleDegree::Fourth => SimpleInterval::PerfectFourth,
                ScaleDegree::Fifth => SimpleInterval::PerfectFifth,
                ScaleDegree::Sixth => SimpleInterval::MinorSixth,
                ScaleDegree::Seventh => SimpleInterval::MinorSeventh,
                ScaleDegree::Octave => SimpleInterval::PerfectOctave,
            },
            ScaleMode::Lydian => match degree {
                ScaleDegree::First => SimpleInterval::PerfectUnison,
                ScaleDegree::Second => SimpleInterval::MajorSecond,
                ScaleDegree::Third => SimpleInterval::MajorThird,
                ScaleDegree::Fourth => SimpleInterval::AugmentedFourth,
                ScaleDegree::Fifth => SimpleInterval::PerfectFifth,
                ScaleDegree::Sixth => SimpleInterval::MajorSixth,
                ScaleDegree::Seventh => SimpleInterval::MajorSeventh,
                ScaleDegree::Octave => SimpleInterval::PerfectOctave,
            },
            ScaleMode::Mixolydian => match degree {
                ScaleDegree::First => SimpleInterval::PerfectUnison,
                ScaleDegree::Second => SimpleInterval::MajorSecond,
                ScaleDegree::Third => SimpleInterval::MajorThird,
                ScaleDegree::Fourth => SimpleInterval::PerfectFourth,
                ScaleDegree::Fifth => SimpleInterval::PerfectFifth,
                ScaleDegree::Sixth => SimpleInterval::MajorSixth,
                ScaleDegree::Seventh => SimpleInterval::MinorSeventh,
                ScaleDegree::Octave => SimpleInterval::PerfectOctave,
            },
            ScaleMode::Aeolian => match degree {
                ScaleDegree::First => SimpleInterval::PerfectUnison,
                ScaleDegree::Second => SimpleInterval::MajorSecond,
                ScaleDegree::Third => SimpleInterval::MinorThird,
                ScaleDegree::Fourth => SimpleInterval::PerfectFourth,
                ScaleDegree::Fifth => SimpleInterval::PerfectFifth,
                ScaleDegree::Sixth => SimpleInterval::MinorSixth,
                ScaleDegree::Seventh => SimpleInterval::MinorSeventh,
                ScaleDegree::Octave => SimpleInterval::PerfectOctave,
            },
            ScaleMode::Locrian => match degree {
                ScaleDegree::First => SimpleInterval::PerfectUnison,
                ScaleDegree::Second => SimpleInterval::MinorSecond,
                ScaleDegree::Third => SimpleInterval::MinorThird,
                ScaleDegree::Fourth => SimpleInterval::PerfectFourth,
                ScaleDegree::Fifth => SimpleInterval::DiminishedFifth,
                ScaleDegree::Sixth => SimpleInterval::MinorSixth,
                ScaleDegree::Seventh => SimpleInterval::MinorSeventh,
                ScaleDegree::Octave => SimpleInterval::PerfectOctave,
            },
    }
}

fn ionian_intervals(degree: ScaleDegree) -> (r: SimpleInterval)
    ensures
        r == mode_interval(ScaleMode::Ionian, degree),
{
    match degree {
        ScaleDegree::First => SimpleInterval::PerfectUnison,
        ScaleDegree::Second => SimpleInterval::MajorSecond,
        ScaleDegree::Third => SimpleInterval::MajorThird,
        ScaleDegree::Fourth => SimpleInterval::PerfectFourth,
        ScaleDegree::Fifth => SimpleInterval::PerfectFifth,
        ScaleDegree::Sixth => SimpleInterval::MajorSixth,
        ScaleDegree::Seventh => SimpleInterval::MajorSeventh,
        ScaleDegree::Octave => SimpleInterval::PerfectOctave,
    }
}

fn dorian_intervals(degree: ScaleDegree) -> (r: SimpleInterval)
    ensures
        r == mode_interval(ScaleMode::Dorian, degree),
{
    match degree {
        ScaleDegree::First => SimpleInterval::PerfectUnison,
        ScaleDegree::Second => SimpleInterval::MajorSecond,
        ScaleDegree::Third => SimpleInterval::MinorThird,
        ScaleDegree::Fourth => SimpleInterval::PerfectFourth,
        ScaleDegree::Fifth => SimpleInterval::PerfectFifth,
        ScaleDegree::Sixth => SimpleInterval::MajorSixth,
        ScaleDegree::Seventh => SimpleInterval::MinorSeventh,
        ScaleDegree::Octave => SimpleInterval::PerfectOctave,
    }
}

fn phrygian_intervals(degree: ScaleDegree) -> (r: SimpleInterval)
    ensures
        r == mode_interval(ScaleMode::Phrygian, degree),
{
    match degree {
        ScaleDegree::First => SimpleInterval::PerfectUnison,
        ScaleDegree::Second => SimpleInterval::MinorSecond,
        ScaleDegree::Third => SimpleInterval::MinorThird,
        ScaleDegree::Fourth => SimpleInterval::PerfectFourth,
        ScaleDegree::Fifth => SimpleInterval::PerfectFifth,
        ScaleDegree::Sixth => SimpleInterval::MinorSixth,
        ScaleDegree::Seventh => SimpleInterval::MinorSeventh,
        ScaleDegree::Octave => SimpleInterval::PerfectOctave,
    }
}

fn lydian_intervals(degree: ScaleDegree) -> (r: SimpleInterval)
    ensures
        r == mode_interval(ScaleMode::Lydian, degree),
{
    match degree {
        ScaleDegree::First => SimpleInterval::PerfectUnison,
        ScaleDegree::Second => SimpleInterval::MajorSecond,
        ScaleDegree::Third => SimpleInterval::MajorThird,
        ScaleDegree::Fourth => SimpleInterval::AugmentedFourth,
        ScaleDegree::Fifth => SimpleInterval::PerfectFifth,
        ScaleDegree::Sixth => SimpleInterval::MajorSixth,
        ScaleDegree::Seventh => SimpleInterval::MajorSeventh,
        ScaleDegree::Octave => SimpleInterval::PerfectOctave,
    }
}

fn mixolydian_intervals(degree: ScaleDegree) -> (r: SimpleInterval)
    ensures
        r == mode_interval(ScaleMode::Mixolydian, degree),
{
    match degree {
        ScaleDegree::First => SimpleInterval::PerfectUnison,
        ScaleDegree::Second => SimpleInterval::MajorSecond,
        ScaleDegree::Third => SimpleInterval::MajorThird,
        ScaleDegree::Fourth => SimpleInterval::PerfectFourth,
        ScaleDegree::Fifth => SimpleInterval::PerfectFifth,
        ScaleDegree::Sixth => SimpleInterval::MajorSixth,
        ScaleDegree::Seventh => SimpleInterval::MinorSeventh,
        ScaleDegree::Octave => SimpleInterval::PerfectOctave,
    }
}

fn aeolian_intervals(degree: ScaleDegree) -> (r: SimpleInterval)
    ensures
        r == mode_interval(ScaleMode::Aeolian, degree),
{
    match degree {
        ScaleDegree::First => SimpleInterval::PerfectUnison,
        ScaleDegree::Second => SimpleInterval::MajorSecond,
        ScaleDegree::Third => SimpleInterval::MinorThird,
        ScaleDegree::Fourth => SimpleInterval::PerfectFourth,
        ScaleDegree::Fifth => SimpleInterval::PerfectFifth,
        ScaleDegree::Sixth => SimpleInterval::MinorSixth,
        ScaleDegree::Seventh => SimpleInterval::MinorSeventh,
        ScaleDegree::Octave => SimpleInterval::PerfectOctave,
    }
}

fn locrian_intervals(degree: ScaleDegree) -> (r: SimpleInterval)
    ensures
        r == mode_interval(ScaleMode::Locrian, degree),
{
    match degree {
        ScaleDegree::First => SimpleInterval::PerfectUnison,
        ScaleDegree::Second => SimpleInterval::MinorSecond,
        ScaleDegree::Third => SimpleInterval::MinorThird,
        ScaleDegree::Fourth => SimpleInterval::PerfectFourth,
        ScaleDegree::Fifth => SimpleInterval::DiminishedFifth,
        ScaleDegree::Sixth => SimpleInterval::MinorSixth,
        ScaleDegree::Seventh => SimpleInterval::MinorSeventh,
        ScaleDegree::Octave => SimpleInterval::PerfectOctave,
    }
}

impl ScaleMode {
    /// The interval above the root at the given degree of this mode.
    pub fn interval_at_degree(&self, degree: ScaleDegree) -> (r: SimpleInterval)
        ensures
            r == mode_interval(*self, degree),
    {
        match self {
            ScaleMode::Ionian => ionian_intervals(degree),
            ScaleMode::Dorian => dorian_intervals(degree),
            ScaleMode::Phrygian => phrygian_intervals(degree),
            ScaleMode::Lydian => lydian_intervals(degree),
            ScaleMode::Mixolydian => mixolydian_intervals(degree),
            ScaleMode::Aeolian => aeolian_intervals(degree),
            ScaleMode::Locrian => locrian_intervals(degree),
        }
    }

    /// The note at the given degree of this mode above `root`.
    pub fn note_at_degree(&self, root: AbstractNote, degree: ScaleDegree) -> (r: AbstractNote)
        ensures
            r == root.shifted(mode_interval(*self, degree).semis()),
    {
        let interval = self.interval_at_degree(degree);
        root.add_interval(interval)
    }
}

impl Default for ScaleMode {
    fn default() -> (r: Self)
        ensures
            r == ScaleMode::Ionian,
    {
        ScaleMode::Ionian
    }
}

/// Walks the degrees of a mode from the root to the octave, giving the note
/// at each.
#[derive(Debug, Clone, Copy, PartialEq, Eq, Structural)]
pub struct ScaleNoteIter {
    root: AbstractNote,
    mode: ScaleMode,
    position: u8,
}

/// The note of `mode` above `root` at position `i`.
pub open spec fn scale_note(root: AbstractNote, mode: ScaleMode, i: int) -> AbstractNote {
    root.shifted(mode_interval(mode, degree_at(i)).semis())
}

impl ScaleNoteIter {
    /// The root of the scale.
    pub closed spec fn root_spec(&self) -> AbstractNote {
        self.root
    }

    /// The mode of the scale.
    pub closed spec fn mode_spec(&self) -> ScaleMode {
        self.mode
    }

    /// How many degrees have been given out (at most 8).
    pub closed spec fn position_spec(&self) -> int {
        self.position as int
    }

    /// At most the eight degrees have been given out.
    pub closed spec fn wf(&self) -> bool {
        self.position <= 8
    }

    /// Starts at the root of `mode` above `root`.
    pub fn new(root: AbstractNote, mode: ScaleMode) -> (r: Self)
        ensures
            r.wf(),
            r.root_spec() == root,
            r.mode_spec() == mode,
            r.position_spec() == 0,
    {
        ScaleNoteIter { root, mode, position: 0 }
    }

    /// The note at the next degree, or `None` once the octave has been given.
    pub fn next(&mut self) -> (r: Option<AbstractNote>)
        requires
            old(self).wf(),
        ensures
            final(self).wf(),
            final(self).root_spec() == old(self).root_spec(),
            final(self).mode_spec() == old(self).mode_spec(),
            old(self).position_spec() < 8 ==> r == Some(
                scale_note(old(self).root_spec(), old(self).mode_spec(), old(self).position_spec()),
            ) && final(self).position_spec() == old(self).position_spec() + 1,
            old(self).position_spec() >= 8 ==> r.is_none() && final(self).position_spec()
                == old(self).position_spec(),
    {
        match degree_at_position(self.position) {
            Some(degree) => {
                self.position = self.position + 1;
                Some(self.mode.note_at_degree(self.root, degree))
            },
            None => None,
        }
    }

    /// Up to `count` further notes, in order.
    pub fn take_notes(&mut self, count: usize) -> (r: Vec<AbstractNote>)
        requires
            old(self).wf(),
        ensures
            final(self).wf(),
            r@.len() == if count < 8 - old(self).position_spec() {
                count as int
            } else {
                8 - old(self).position_spec()
            },
            forall|i: int|
                0 <= i < r@.len() ==> r@[i] == scale_note(
                    old(self).root_spec(),
                    old(self).mode_spec(),
                    old(self).position_spec() + i,
                ),
    {
        let ghost start = self.position_spec();
        let mut notes: Vec<AbstractNote> = Vec::new();
        while notes.len() < count
            invariant
                self.wf(),
                self.root_spec() == old(self).root_spec(),
                self.mode_spec() == old(self).mode_spec(),
                start == old(self).position_spec(),
                self.position_spec() == start + notes@.len(),
                notes@.len() <= count,
                forall|i: int|
                    0 <= i < notes@.len() ==> notes@[i] == scale_note(
                        old(self).root_spec(),
                        old(self).mode_spec(),
                        start + i,
                    ),
            ensures
                notes@.len() == count || self.position_spec() == 8,
                self.wf(),
                self.position_spec() == start + notes@.len(),
                notes@.len() <= count,
                forall|i: int|
                    0 <= i < notes@.len() ==> notes@[i] == scale_note(
                        old(self).root_spec(),
                        old(self).mode_spec(),
                        start + i,
                    ),
            decreases count - notes@.len(),
        {
            match self.next() {
                Some(note) => notes.push(note),
                None => break,
            }
        }
        notes
    }
}

} // verus!
