use vstd::prelude::*;

use crate::note::Note;

verus! {

/// Notes sounding together, from the lowest up by convention.
#[derive(Debug, Clone, PartialEq, Eq)]
pub struct Chord {
    notes: Vec<Note>,
}

/// `n` moved up (positive `by`) or down whole octaves.
pub open spec fn shift_octave(n: Note, by: int) -> Note {
    Note::spec_new(n.abstract_note(), n.octave_spec() + by)
}

/// The bottom note moved to the top, an octave higher.
pub open spec fn rotate_up(s: Seq<Note>) -> Seq<Note> {
    s.drop_first().push(shift_octave(s[0], 1))
}

/// The top note moved to the bottom, an octave lower.
pub open spec fn rotate_down(s: Seq<Note>) -> Seq<Note> {
    seq![shift_octave(s.last(), -1)] + s.drop_last()
}

/// The notes after `n` inversions: `n` upward rotations when positive,
/// `-n` downward ones when negative.
pub open spec fn inverted(s: Seq<Note>, n: int) -> Seq<Note>
    decreases (if n >= 0 { n } else { -n }),
{
    if n > 0 {
        rotate_up(inverted(s, n - 1))
    } else if n < 0 {
        rotate_down(inverted(s, n + 1))
    } else {
        s
    }
}

/// Every octave in `s` lies at least `margin` away from the ends of `i32`.
pub open spec fn octaves_within(s: Seq<Note>, margin: int) -> bool {
    forall|i: int|
        0 <= i < s.len() ==> i32::MIN + margin <= #[trigger] s[i].octave_spec() <= i32::MAX - margin
}

impl Chord {
    /// The notes of the chord, in order.
    pub closed spec fn notes_spec(&self) -> Seq<Note> {
        self.notes@
    }

    /// A chord of the given notes, kept in the given order.
    pub fn new(notes: Vec<Note>) -> (r: Self)
        ensures
            r.notes_spec() == notes@,
    {
        Chord { notes }
    }

    /// The notes of the chord, in order.
    pub fn notes(&self) -> (r: &[Note])
        ensures
            r@ == self.notes_spec(),
    {
        self.notes.as_slice()
    }

    /// Adds a note at the top.
    pub fn add_note(&mut self, note: Note)
        ensures
            final(self).notes_spec() == old(self).notes_spec().push(note),
    {
        self.notes.push(note);
    }

    /// This chord's notes followed by `other`'s.
    pub fn concat(self, other: Chord) -> (r: Chord)
        ensures
            r.notes_spec() == self.notes_spec() + other.notes_spec(),
    {
        let mut notes = self.notes;
        let mut more = other.notes;
        notes.append(&mut more);
        Chord { notes }
    }

    /// This chord with `note` added at the top.
    pub fn with_note(self, note: Note) -> (r: Chord)
        ensures
            r.notes_spec() == self.notes_spec().push(note),
    {
        let mut notes = self.notes;
        notes.push(note);
        Chord { notes }
    }

    /// Replaces all the notes.
    pub fn set_notes(&mut self, notes: Vec<Note>)
        ensures
            final(self).notes_spec() == notes@,
    {
        self.notes = notes;
    }

    /// Inverts the chord: for a positive count, the lowest note moves to the
    /// top an octave higher, that many times; for a negative count the
    /// highest note moves to the bottom an octave lower; zero changes
    /// nothing.
    pub fn apply_inversion(&self, inversion: i8) -> (r: Chord)
        requires
            inversion == 0 || self.notes_spec().len() > 0,
            octaves_within(self.notes_spec(), 128),
        ensures
            r.notes_spec() == inverted(self.notes_spec(), inversion as int),
    {
        let mut notes = self.notes.clone();
        let mut inversion = inversion;
        let ghost start = inversion as int;
        let ghost s = self.notes@;
        proof {
            assert(notes@ =~= s);
        }
        if inversion < 0 {
            while inversion < 0
                invariant
                    start <= inversion <= 0,
                    -128 <= start,
                    s.len() > 0,
                    notes@ == inverted(s, start - inversion),
                    notes@.len() == s.len(),
                    octaves_within(notes@, 128 + (start - inversion)),
                decreases -inversion,
            {
                let last = notes.len() - 1;
                let ghost before = notes@;
                let note = notes.remove(last);
                proof {
                    assert(before[last as int] == note);
                    assert(i32::MIN + 128 + (start - inversion) <= note.octave_spec());
                }
                let lowered = Note::new(note.raw_note(), note.octave() - 1, note.modifier());
                proof {
                    Note::lemma_spec_new(note.abstract_note(), note.octave_spec() - 1);
                    Note::lemma_ext(lowered, shift_octave(note, -1));
                }
                notes.insert(0, lowered);
                inversion = inversion + 1;
                proof {
                    assert(notes@ =~= rotate_down(inverted(s, start - inversion + 1)));
                }
            }
        } else if inversion > 0 {
            while inversion > 0
                invariant
                    0 <= inversion <= start,
                    start <= 127,
                    s.len() > 0,
                    notes@ == inverted(s, start - inversion),
                    notes@.len() == s.len(),
                    octaves_within(notes@, 128 - (start - inversion)),
                decreases inversion,
            {
                let ghost before = notes@;
                let note = notes.remove(0);
                proof {
                    assert(before[0] == note);
                    assert(note.octave_spec() <= i32::MAX - 128 + (start - inversion));
                }
                let raised = Note::new(note.raw_note(), note.octave() + 1, note.modifier());
                proof {
                    Note::lemma_spec_new(note.abstract_note(), note.octave_spec() + 1);
                    Note::lemma_ext(raised, shift_octave(note, 1));
                }
                notes.push(raised);
                inversion = inversion - 1;
                proof {
                    assert(notes@ =~= rotate_up(inverted(s, start - inversion - 1)));
                }
            }
        }
        Chord::new(notes)
    }
}

/// Moving a note up an octave and back down gives the note back.
proof fn lemma_shift_back(n: Note, by: int)
    requires
        i32::MIN <= n.octave_spec() + by <= i32::MAX,
    ensures
        shift_octave(shift_octave(n, by), -by) == n,
        shift_octave(n, by).octave_spec() == n.octave_spec() + by,
        shift_octave(n, by).abstract_note() == n.abstract_note(),
{
    Note::lemma_spec_new(n.abstract_note(), n.octave_spec() + by);
    n.lemma_view();
    Note::lemma_spec_new(n.abstract_note(), n.octave_spec());
}

/// An upward rotation undoes a downward one and the other way round.
proof fn lemma_rotate_round_trip(t: Seq<Note>)
    requires
        t.len() > 0,
        octaves_within(t, 1),
    ensures
        rotate_down(rotate_up(t)) =~= t,
        rotate_up(rotate_down(t)) =~= t,
{
    lemma_shift_back(t[0], 1);
    lemma_shift_back(t.last(), -1);
    assert(rotate_up(t).last() == shift_octave(t[0], 1));
    assert(rotate_down(t)[0] == shift_octave(t.last(), -1));
}

/// Inverting keeps the number of notes and moves no octave by more than
/// the inversion count.
proof fn lemma_inverted_shape(s: Seq<Note>, m: int, margin: int)
    requires
        s.len() > 0,
        octaves_within(s, margin),
        (if m >= 0 { m } else { -m }) <= margin,
    ensures
        inverted(s, m).len() == s.len(),
        octaves_within(inverted(s, m), margin - (if m >= 0 { m } else { -m })),
    decreases (if m >= 0 { m } else { -m }),
{
    if m > 0 {
        lemma_inverted_shape(s, m - 1, margin);
        let t = inverted(s, m - 1);
        lemma_shift_back(t[0], 1);
        assert forall|i: int| 0 <= i < inverted(s, m).len() implies i32::MIN + (margin - m)
            <= #[trigger] inverted(s, m)[i].octave_spec() <= i32::MAX - (margin - m) by {
            if i < t.len() - 1 {
                assert(inverted(s, m)[i] == t[i + 1]);
            }
        }
    } else if m < 0 {
        lemma_inverted_shape(s, m + 1, margin);
        let t = inverted(s, m + 1);
        lemma_shift_back(t.last(), -1);
        assert forall|i: int| 0 <= i < inverted(s, m).len() implies i32::MIN + (margin + m)
            <= #[trigger] inverted(s, m)[i].octave_spec() <= i32::MAX - (margin + m) by {
            if i > 0 {
                assert(inverted(s, m)[i] == t[i - 1]);
            }
        }
    }
}

proof fn lemma_undo_steps(s: Seq<Note>, n: int, k: int)
    requires
        s.len() > 0,
        octaves_within(s, 128),
        0 <= k <= n <= 127,
    ensures
        inverted(inverted(s, n), -k) == inverted(s, n - k),
    decreases k,
{
    if k > 0 {
        lemma_undo_steps(s, n, k - 1);
        lemma_inverted_shape(s, n - k, 128);
        lemma_rotate_round_trip(inverted(s, n - k));
    }
}

proof fn lemma_redo_steps(s: Seq<Note>, n: int, k: int)
    requires
        s.len() > 0,
        octaves_within(s, 128),
        0 <= k <= n <= 127,
    ensures
        inverted(inverted(s, -n), k) == inverted(s, k - n),
    decreases k,
{
    if k > 0 {
        lemma_redo_steps(s, n, k - 1);
        lemma_inverted_shape(s, k - n, 128);
        lemma_rotate_round_trip(inverted(s, k - n));
    }
}

/// Inverting a chord `n` times and then `-n` times gives the chord back.
pub proof fn lemma_inversion_round_trip(s: Seq<Note>, n: int)
    requires
        s.len() > 0,
        -127 <= n <= 127,
        octaves_within(s, 128),
    ensures
        inverted(inverted(s, n), -n) == s,
{
    if n >= 0 {
        lemma_undo_steps(s, n, n);
    } else {
        lemma_redo_steps(s, -n, -n);
    }
}

impl core::ops::Add<Chord> for Chord {
    type Output = Chord;

    /// The notes of both chords, this one's first (see `concat`).
    fn add(self, rhs: Chord) -> (r: Chord) {
        self.concat(rhs)
    }
}

// Verus has no extensional equality for `Vec`, so a chord cannot be named by
// its notes in a spec: `+` promises no value here, and callers that need one
// use the method it calls, whose contract states the notes.
impl vstd::std_specs::ops::AddSpecImpl<Chord> for Chord {
    open spec fn obeys_add_spec() -> bool {
        false
    }

    open spec fn add_req(self, rhs: Chord) -> bool {
        true
    }

    open spec fn add_spec(self, rhs: Chord) -> Chord {
        arbitrary()
    }
}

impl core::ops::Add<Note> for Chord {
    type Output = Chord;

    /// The chord with `rhs` added at the top (see `with_note`).
    fn add(self, rhs: Note) -> (r: Chord) {
        self.with_note(rhs)
    }
}

impl vstd::std_specs::ops::AddSpecImpl<Note> for Chord {
    open spec fn obeys_add_spec() -> bool {
        false
    }

    open spec fn add_req(self, rhs: Note) -> bool {
        true
    }

    open spec fn add_spec(self, rhs: Note) -> Chord {
        arbitrary()
    }
}

impl core::ops::Add<Note> for Note {
    type Output = Chord;

    /// The two-note chord of these notes (see `Chord::new`).
    fn add(self, rhs: Note) -> (r: Chord) {
        let mut notes: Vec<Note> = Vec::new();
        notes.push(self);
        notes.push(rhs);
        Chord::new(notes)
    }
}

impl vstd::std_specs::ops::AddSpecImpl<Note> for Note {
    open spec fn obeys_add_spec() -> bool {
        false
    }

    open spec fn add_req(self, rhs: Note) -> bool {
        true
    }

    open spec fn add_spec(self, rhs: Note) -> Chord {
        arbitrary()
    }
}

} // verus!
