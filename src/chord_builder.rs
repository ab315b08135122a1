use vstd::prelude::*;

use crate::chord::Chord;
use crate::chord_quality::{chord_fits, chord_notes, ChordQuality};
use crate::note::Note;

verus! {

/// Builds a chord from a root, an optional quality and extra notes.
pub struct ChordBuilder {
    root: Note,
    quality: Option<ChordQuality>,
    additions: Vec<Note>,
}

impl ChordBuilder {
    /// The root note.
    pub closed spec fn root_spec(&self) -> Note {
        self.root
    }

    /// The chosen quality, if any.
    pub closed spec fn quality_spec(&self) -> Option<ChordQuality> {
        self.quality
    }

    /// The notes added beyond the quality's.
    pub closed spec fn additions_spec(&self) -> Seq<Note> {
        self.additions@
    }

    /// The notes `build` gives: the root, then the quality's notes on the
    /// root (which start with the root again), then the added notes.
    pub open spec fn built_notes(&self) -> Seq<Note> {
        seq![self.root_spec()] + match self.quality_spec() {
            Some(q) => chord_notes(q, self.root_spec()),
            None => Seq::<Note>::empty(),
        } + self.additions_spec()
    }

    /// A builder holding only the root.
    pub fn new(root: Note) -> (r: Self)
        ensures
            r.root_spec() == root,
            r.quality_spec().is_none(),
            r.additions_spec().len() == 0,
    {
        ChordBuilder { root, quality: None, additions: Vec::new() }
    }

    /// Chooses the chord quality.
    pub fn quality(self, quality: ChordQuality) -> (r: Self)
        ensures
            r.root_spec() == self.root_spec(),
            r.quality_spec() == Some(quality),
            r.additions_spec() == self.additions_spec(),
    {
        ChordBuilder { root: self.root, quality: Some(quality), additions: self.additions }
    }

    /// Adds a note beyond the quality's.
    pub fn add_note(self, note: Note) -> (r: Self)
        ensures
            r.root_spec() == self.root_spec(),
            r.quality_spec() == self.quality_spec(),
            r.additions_spec() == self.additions_spec().push(note),
    {
        let mut additions = self.additions;
        additions.push(note);
        ChordBuilder { root: self.root, quality: self.quality, additions }
    }

    /// The chord: the root, the quality's notes, then the added notes.
    pub fn build(self) -> (r: Chord)
        requires
            self.quality_spec() matches Some(q) ==> chord_fits(q, self.root_spec()),
        ensures
            r.notes_spec() == self.built_notes(),
    {
        let mut notes: Vec<Note> = Vec::new();
        notes.push(self.root);
        match self.quality {
            Some(quality) => {
                let mut quality_notes = quality.to_notes(self.root);
                notes.append(&mut quality_notes);
            },
            None => {},
        }
        let mut additions = self.additions;
        notes.append(&mut additions);
        proof {
            assert(notes@ =~= self.built_notes());
        }
        Chord::new(notes)
    }
}

} // verus!
