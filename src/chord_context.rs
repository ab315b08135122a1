use vstd::prelude::*;

use crate::chord::Chord;
use crate::chord_quality::{chord_fits, chord_notes, ChordQuality};
use crate::note::Note;

verus! {

/// What a chord editor asks of its owner when it closes.
#[derive(Debug, Clone, Copy, PartialEq, Eq, Structural)]
pub enum ChordEditAction {
    Commit,
    Cancel,
}

/// A root and a quality, with the chord they make computed once and kept
/// until either changes.
#[derive(Debug, Clone)]
pub struct ChordContext {
    root: Note,
    quality: ChordQuality,
    calculated_chord: Option<Chord>,
}

impl ChordContext {
    /// The root note.
    pub closed spec fn root_spec(&self) -> Note {
        self.root
    }

    /// The chord quality.
    pub closed spec fn quality_spec(&self) -> ChordQuality {
        self.quality
    }

    /// Whether a chord is kept.
    pub closed spec fn is_cached(&self) -> bool {
        self.calculated_chord.is_some()
    }

    /// A kept chord always holds the notes of the current root and quality.
    pub closed spec fn wf(&self) -> bool {
        self.calculated_chord matches Some(c) ==> c.notes_spec() == chord_notes(
            self.quality,
            self.root,
        )
    }

    /// A context with no chord computed yet.
    pub fn new(root: Note, quality: ChordQuality) -> (r: Self)
        ensures
            r.wf(),
            r.root_spec() == root,
            r.quality_spec() == quality,
            !r.is_cached(),
    {
        ChordContext { root, quality, calculated_chord: None }
    }

    /// The root note.
    pub fn get_root(&self) -> (r: Note)
        ensures
            r == self.root_spec(),
    {
        self.root
    }

    /// The chord quality.
    pub fn get_quality(&self) -> (r: ChordQuality)
        ensures
            r == self.quality_spec(),
    {
        self.quality
    }

    /// Changes the root and drops the kept chord.
    pub fn set_root(&mut self, root: Note)
        ensures
            final(self).wf(),
            final(self).root_spec() == root,
            final(self).quality_spec() == old(self).quality_spec(),
            !final(self).is_cached(),
    {
        self.root = root;
        self.calculated_chord = None;
    }

    /// Changes the quality and drops the kept chord.
    pub fn set_quality(&mut self, quality: ChordQuality)
        ensures
            final(self).wf(),
            final(self).root_spec() == old(self).root_spec(),
            final(self).quality_spec() == quality,
            !final(self).is_cached(),
    {
        self.quality = quality;
        self.calculated_chord = None;
    }

    /// The chord of the current root and quality, computed on first use
    /// and kept until the root or quality changes.
    pub fn get_calculated_chord(&mut self) -> (r: &Chord)
        requires
            old(self).wf(),
            chord_fits(old(self).quality_spec(), old(self).root_spec()),
        ensures
            final(self).wf(),
            final(self).is_cached(),
            final(self).root_spec() == old(self).root_spec(),
            final(self).quality_spec() == old(self).quality_spec(),
            r.notes_spec() == chord_notes(old(self).quality_spec(), old(self).root_spec()),
    {
        if self.calculated_chord.is_none() {
            let chord = self.quality.to_chord(self.root);
            self.calculated_chord = Some(chord);
        }
        self.calculated_chord.as_ref().unwrap()
    }
}

} // verus!
