use vstd::prelude::*;

verus! {

/// A signed distance in half steps.
pub type Semitone = i32;

/// An accidental applied to a letter name.
#[derive(Debug, Clone, Copy, PartialEq, Eq, Structural, PartialOrd, Ord, Hash)]
pub enum NoteModifier {
    DoubleFlat,
    Flat,
    Natural,
    Sharp,
    DoubleSharp,
}

impl NoteModifier {
    /// How far this accidental moves a letter, in semitones.
    pub open spec fn offset(self) -> int {
        match self {
            NoteModifier::DoubleFlat => -2,
            NoteModifier::Flat => -1,
            NoteModifier::Natural => 0,
            NoteModifier::Sharp => 1,
            NoteModifier::DoubleSharp => 2,
        }
    }

    /// The semitone offset of this accidental.
    pub fn semitones(&self) -> (r: Semitone)
        ensures
            r == self.offset(),
    {
        match self {
            NoteModifier::DoubleFlat => -2,
            NoteModifier::Flat => -1,
            NoteModifier::Natural => 0,
            NoteModifier::Sharp => 1,
            NoteModifier::DoubleSharp => 2,
        }
    }

    /// The written form of this accidental ("", "#", "b", "##", "bb").
    pub fn symbol(&self) -> (r: &'static str)
        ensures
            r == self.symbol_spec(),
    {
        match self {
            NoteModifier::Sharp => "#",
            NoteModifier::Flat => "b",
            NoteModifier::Natural => "",
            NoteModifier::DoubleSharp => "##",
            NoteModifier::DoubleFlat => "bb",
        }
    }

    pub open spec fn symbol_spec(self) -> &'static str {
        match self {
            NoteModifier::Sharp => "#",
            NoteModifier::Flat => "b",
            NoteModifier::Natural => "",
            NoteModifier::DoubleSharp => "##",
            NoteModifier::DoubleFlat => "bb",
        }
    }
}

impl Default for NoteModifier {
    fn default() -> (r: Self)
        ensures
            r == NoteModifier::Natural,
    {
        NoteModifier::Natural
    }
}

/// Which accidental to spell a black-key pitch with.
#[derive(Debug, Clone, Copy, PartialEq, Eq, Structural)]
pub enum ModifierPreference {
    Sharp,
    Flat,
}

/// Sharp, natural and double sharp notes prefer sharps; flats prefer flats.
pub open spec fn preference_for(modifier: NoteModifier) -> ModifierPreference {
    match modifier {
        NoteModifier::Flat | NoteModifier::DoubleFlat => ModifierPreference::Flat,
        _ => ModifierPreference::Sharp,
    }
}

impl From<NoteModifier> for ModifierPreference {
    fn from(modifier: NoteModifier) -> (r: Self) {
        match modifier {
            NoteModifier::Sharp | NoteModifier::DoubleSharp | NoteModifier::Natural => {
                ModifierPreference::Sharp
            },
            NoteModifier::Flat | NoteModifier::DoubleFlat => ModifierPreference::Flat,
        }
    }
}

impl vstd::std_specs::convert::FromSpecImpl<NoteModifier> for ModifierPreference {
    open spec fn obeys_from_spec() -> bool {
        true
    }

    open spec fn from_spec(modifier: NoteModifier) -> ModifierPreference {
        preference_for(modifier)
    }
}

impl From<NoteModifier> for Semitone {
    fn from(value: NoteModifier) -> (r: Semitone) {
        value.semitones()
    }
}

impl vstd::std_specs::convert::FromSpecImpl<NoteModifier> for Semitone {
    open spec fn obeys_from_spec() -> bool {
        true
    }

    open spec fn from_spec(value: NoteModifier) -> Semitone {
        value.offset() as i32
    }
}

} // verus!
