use vstd::prelude::*;

use crate::interval::{biased, decompose, SimpleInterval};
use crate::note::Note;
use crate::note_modifier::{preference_for, ModifierPreference, NoteModifier, Semitone};
use crate::raw_note::{letter_at, RawNote};

verus! {

/// A letter with an accidental, placed in no octave.
#[derive(Debug, Clone, Copy, PartialEq, Eq, Structural, Hash)]
pub struct AbstractNote {
    pub raw_note: RawNote,
    pub modifier: NoteModifier,
}

/// The natural letter sounding `pc` semitones above C, if `pc` is one.
pub open spec fn natural_letter(pc: int) -> Option<RawNote> {
    if pc == 0 {
        Some(RawNote::C)
    } else if pc == 2 {
        Some(RawNote::D)
    } else if pc == 4 {
        Some(RawNote::E)
    } else if pc == 5 {
        Some(RawNote::F)
    } else if pc == 7 {
        Some(RawNote::G)
    } else if pc == 9 {
        Some(RawNote::A)
    } else if pc == 11 {
        Some(RawNote::B)
    } else {
        None
    }
}

/// The spelling of pitch class `pc` (0..=11): a natural letter where one
/// sounds it, otherwise a sharp on the letter below or a flat on the letter
/// above, as `preference` asks.
pub open spec fn spelled(pc: int, preference: ModifierPreference) -> AbstractNote {
    match natural_letter(pc) {
        Some(l) => AbstractNote { raw_note: l, modifier: NoteModifier::Natural },
        None => if preference == ModifierPreference::Sharp {
            AbstractNote { raw_note: natural_letter(pc - 1).unwrap(), modifier: NoteModifier::Sharp }
        } else {
            AbstractNote { raw_note: natural_letter(pc + 1).unwrap(), modifier: NoteModifier::Flat }
        },
    }
}

/// The spelling of `note`'s pitch class that carries `bias`, or `note`
/// itself when no letter takes `bias` at that pitch.
pub open spec fn note_biased(note: AbstractNote, bias: NoteModifier) -> AbstractNote {
    match natural_letter((note.pitch() - bias.offset()) % 12) {
        Some(l) => AbstractNote { raw_note: l, modifier: bias },
        None => note,
    }
}

impl AbstractNote {
    /// Semitones above the C of the same octave (from -2 for Cbb to 13 for B##).
    pub open spec fn pitch(self) -> int {
        self.raw_note.natural_offset() + self.modifier.offset()
    }

    /// The pitch class, in 0..=11.
    pub open spec fn pitch_class(self) -> int {
        self.pitch() % 12
    }

    /// Creates an octave-placed note using this note's raw note and modifier.
    pub fn at_octave(&self, octave: i32) -> (r: Note)
        ensures
            r.abstract_note() == *self,
            r.octave_spec() == octave,
    {
        Note::new(self.raw_note, octave, self.modifier)
    }

    /// Gets the abstract note's interval from C.
    pub fn interval_from_c(&self) -> (r: SimpleInterval)
        ensures
            r == decompose(self.pitch()).interval,
            r.semis() % 12 == self.pitch_class(),
    {
        let mut semitones_from_c: i32 = 0;
        let mut current_note = self.raw_note;
        while current_note != RawNote::C
            invariant
                semitones_from_c + current_note.natural_offset() == self.raw_note.natural_offset(),
                0 <= semitones_from_c <= 11,
            decreases current_note.index(),
        {
            let (prev_note, semitones_to_prev_note) = current_note.prev_note();
            current_note = prev_note;
            semitones_from_c = semitones_from_c + semitones_to_prev_note;
        }
        let r = SimpleInterval::from_semitones(semitones_from_c + self.modifier.semitones()).interval;
        proof {
            lemma_plain_class(self.pitch());
        }
        r
    }

    /// Spells the note `interval` above C, choosing sharps or flats for
    /// black keys as `modifier_preference` asks.
    pub fn from_interval_from_c(
        interval: SimpleInterval,
        modifier_preference: ModifierPreference,
    ) -> (r: Self)
        ensures
            r == spelled(interval.semis() % 12, modifier_preference),
            r.pitch() == interval.semis() % 12,
    {
        let mut current_semitones = interval.semitones();
        let mut note = RawNote::C;
        let mut modifier = NoteModifier::Natural;
        let ghost s = interval.semis();
        let ghost mut walked: int = 0;
        while current_semitones > 0
            invariant
                0 <= current_semitones <= 12,
                s == interval.semis(),
                0 <= s <= 12,
                modifier == NoteModifier::Natural ==> walked + current_semitones == s,
                modifier == NoteModifier::Natural ==> (walked == note.natural_offset() || (walked
                    == 12 && note == RawNote::C)),
                modifier != NoteModifier::Natural ==> current_semitones == 0 && (AbstractNote {
                    raw_note: note,
                    modifier,
                }) == spelled(s % 12, modifier_preference),
            decreases current_semitones,
        {
            let (next_note, semitones_to_next_note) = note.next_note();
            if current_semitones >= semitones_to_next_note {
                note = next_note;
                current_semitones = current_semitones - semitones_to_next_note;
                proof {
                    walked = walked + semitones_to_next_note;
                }
            } else {
                if modifier_preference == ModifierPreference::Sharp {
                    modifier = NoteModifier::Sharp;
                } else {
                    note = next_note;
                    modifier = NoteModifier::Flat;
                }
                current_semitones = 0;
            }
        }
        AbstractNote { raw_note: note, modifier }
    }
}

impl AbstractNote {
    /// The note `semitones` above (or below, when negative) this one, spelt
    /// with this note's modifier where a spelling with it exists.
    pub open spec fn shifted(self, semitones: int) -> AbstractNote {
        if semitones == 0 {
            self
        } else {
            note_biased(
                spelled((self.pitch() + semitones) % 12, preference_for(self.modifier)),
                self.modifier,
            )
        }
    }

    /// Moves the note by `interval`.
    pub fn add_interval(&self, interval: SimpleInterval) -> (r: Self)
        ensures
            r == self.shifted(interval.semis()),
            r.pitch_class() == (self.pitch() + interval.semis()) % 12,
    {
        self.add_semitones(interval.semitones())
    }

    /// Moves the note by a number of semitones, keeping its modifier when a
    /// spelling with it exists at the new pitch.
    pub fn add_semitones(&self, semitones: Semitone) -> (r: Self)
        ensures
            r == self.shifted(semitones as int),
            r.pitch_class() == (self.pitch() + semitones) % 12,
    {
        if semitones == 0 {
            return *self;
        }
        // Only the pitch class matters, so whole octaves are dropped first.
        let within_octave: Semitone = match semitones.checked_rem_euclid(12) {
            Some(m) => m,
            None => 0,
        };
        let from_c = self.interval_from_c();
        let new_interval = from_c.add_semitones(within_octave).interval;
        let spelling = Self::from_interval_from_c(new_interval, ModifierPreference::from(self.modifier));
        proof {
            lemma_plain_class(from_c.semis() + within_octave);
            lemma_shift_class(from_c.semis(), self.pitch(), within_octave as int);
            lemma_shift_class(within_octave as int, semitones as int, self.pitch());
        }
        bias_abstract_note_to_enharmonic_equivalent(&spelling, self.modifier)
    }
}

/// Adding the same amount to two numbers of one class modulo 12 gives two
/// numbers of one class.
pub proof fn lemma_shift_class(a: int, b: int, n: int)
    requires
        a % 12 == b % 12,
    ensures
        (a + n) % 12 == (b + n) % 12,
{
    vstd::arithmetic::div_mod::lemma_add_mod_noop(a, n, 12);
    vstd::arithmetic::div_mod::lemma_add_mod_noop(b, n, 12);
}

/// The interval chosen for a semitone count keeps its pitch class.
pub proof fn lemma_plain_class(semitones: int)
    ensures
        decompose(semitones).interval.semis() % 12 == semitones % 12,
{
    if semitones != 12 {
        let k = semitones % 12;
        assert(0 <= k < 12);
        assert(SimpleInterval::plain_for(k).semis() == k);
    }
}

/// Rewrites `note` to the enharmonic spelling that carries the modifier
/// `bias`, when some letter takes `bias` at the same pitch; otherwise
/// returns `note` unchanged. The search walks letter by letter, down when
/// the bias raises the modifier and up when it lowers it, until the
/// distance walked matches the change of modifier or overshoots it.
pub fn bias_abstract_note_to_enharmonic_equivalent(
    note: &AbstractNote,
    bias: NoteModifier,
) -> (r: AbstractNote)
    ensures
        r == note_biased(*note, bias),
        r.pitch_class() == note.pitch_class(),
        r == *note || r.modifier == bias,
{
    let shift: Semitone = bias.semitones() - note.modifier.semitones();
    let ghost l = note.raw_note.natural_offset();
    let ghost target = (note.pitch() - bias.offset()) % 12;
    let mut current_note = note.raw_note;
    let mut semitone_acc: Semitone = 0;
    if shift == 0 {
        proof {
            lemma_letter_facts(note.raw_note);
            assert(target == l % 12);
            assert(bias == note.modifier);
        }
        return *note;
    } else if shift > 0 {
        // A sharper modifier needs a lower letter.
        loop
            invariant
                shift == bias.offset() - note.modifier.offset(),
                l == note.raw_note.natural_offset(),
                0 < shift <= 4,
                0 <= semitone_acc < shift,
                current_note.natural_offset() == l - semitone_acc || current_note.natural_offset()
                    == l - semitone_acc + 12,
                target == (l - shift) % 12,
            decreases shift - semitone_acc,
        {
            let (prev_note, semitones_to_prev_note) = current_note.prev_note();
            let remaining: Semitone = semitone_acc + semitones_to_prev_note - shift;
            if remaining == 0 {
                proof {
                    lemma_letter_facts(prev_note);
                    assert((l - shift - prev_note.natural_offset()) % 12 == 0);
                    assert(target == prev_note.natural_offset());
                    let ghost x = note.pitch() - (prev_note.natural_offset() + bias.offset());
                    assert(x == l - shift - prev_note.natural_offset());
                    assert(x % 12 == 0);
                }
                return AbstractNote { raw_note: prev_note, modifier: bias };
            } else if remaining > 0 {
                proof {
                    lemma_letter_facts(current_note);
                    assert(target == (current_note.natural_offset() - 1) % 12);
                }
                return *note;
            }
            current_note = prev_note;
            semitone_acc = semitone_acc + semitones_to_prev_note;
        }
    } else {
        // A flatter modifier needs a higher letter.
        let lift: Semitone = -shift;
        loop
            invariant
                lift == note.modifier.offset() - bias.offset(),
                l == note.raw_note.natural_offset(),
                0 < lift <= 4,
                0 <= semitone_acc < lift,
                current_note.natural_offset() == l + semitone_acc || current_note.natural_offset()
                    == l + semitone_acc - 12,
                target == (l + lift) % 12,
            decreases lift - semitone_acc,
        {
            let (next_note, semitones_to_next_note) = current_note.next_note();
            let remaining: Semitone = semitone_acc + semitones_to_next_note - lift;
            if remaining == 0 {
                proof {
                    lemma_letter_facts(next_note);
                    assert((next_note.natural_offset() - l - lift) % 12 == 0);
                    assert(target == next_note.natural_offset());
                    let ghost x = note.pitch() - (next_note.natural_offset() + bias.offset());
                    assert(x == l - (next_note.natural_offset() - lift));
                    assert(x % 12 == 0);
                }
                return AbstractNote { raw_note: next_note, modifier: bias };
            } else if remaining > 0 {
                proof {
                    lemma_letter_facts(current_note);
                    assert(target == (current_note.natural_offset() + 1) % 12);
                }
                return *note;
            }
            current_note = next_note;
            semitone_acc = semitone_acc + semitones_to_next_note;
        }
    }
}

/// Each natural letter sits on its own pitch class, and the pitch class one
/// semitone beside a letter is natural exactly when the step to the
/// neighbouring letter on that side is a half step.
pub proof fn lemma_letter_facts(c: RawNote)
    ensures
        natural_letter(c.natural_offset()) == Some(c),
        0 <= c.natural_offset() < 12,
        (c.natural_offset() - letter_at(c.index() + 6).natural_offset()) % 12 == 2
            ==> natural_letter((c.natural_offset() - 1) % 12).is_none(),
        (letter_at(c.index() + 1).natural_offset() - c.natural_offset()) % 12 == 2
            ==> natural_letter((c.natural_offset() + 1) % 12).is_none(),
{
}

/// Each pitch class is spelt by a note sounding exactly that pitch.
pub proof fn lemma_spelled_pitch(pc: int, preference: ModifierPreference)
    requires
        0 <= pc < 12,
    ensures
        spelled(pc, preference).pitch() == pc,
{
    assert(pc == 0 || pc == 1 || pc == 2 || pc == 3 || pc == 4 || pc == 5 || pc == 6 || pc == 7
        || pc == 8 || pc == 9 || pc == 10 || pc == 11);
}

/// Biasing a note never changes its pitch class.
pub proof fn lemma_biased_class(note: AbstractNote, bias: NoteModifier)
    ensures
        note_biased(note, bias).pitch_class() == note.pitch_class(),
{
    let t = (note.pitch() - bias.offset()) % 12;
    if let Some(l) = natural_letter(t) {
        assert(l.natural_offset() == t);
        // (t + b) % 12 == ((p - b) % 12 + b) % 12 == (p - b + b) % 12
        vstd::arithmetic::div_mod::lemma_add_mod_noop(note.pitch() - bias.offset(), bias.offset(), 12);
        vstd::arithmetic::div_mod::lemma_add_mod_noop(t, bias.offset(), 12);
        vstd::arithmetic::div_mod::lemma_mod_twice(note.pitch() - bias.offset(), 12);
    }
}

/// Shifting a note by `n` semitones moves its pitch class by `n`.
pub proof fn lemma_shifted_class(a: AbstractNote, n: int)
    ensures
        a.shifted(n).pitch_class() == (a.pitch() + n) % 12,
{
    if n != 0 {
        let pc = (a.pitch() + n) % 12;
        let sp = spelled(pc, preference_for(a.modifier));
        lemma_spelled_pitch(pc, preference_for(a.modifier));
        lemma_biased_class(sp, a.modifier);
    } else {
    }
}

/// Moving a note by an interval and then measuring it from C lands on the
/// same pitch class, modulo the octave, as measuring the note from C and
/// then adding the interval.
pub proof fn lemma_interval_addition_commutes(a: AbstractNote, i: SimpleInterval)
    ensures
        decompose(a.shifted(i.semis()).pitch()).interval.semis() % 12 == biased(
            decompose(decompose(a.pitch()).interval.semis() + i.semis()).interval,
            decompose(a.pitch()).interval.qual(),
        ).semis() % 12,
{
    let from_c = decompose(a.pitch()).interval;
    let sum = decompose(from_c.semis() + i.semis()).interval;
    lemma_plain_class(a.shifted(i.semis()).pitch());
    lemma_shifted_class(a, i.semis());
    lemma_plain_class(a.pitch());
    lemma_plain_class(from_c.semis() + i.semis());
    lemma_shift_class(from_c.semis(), a.pitch(), i.semis());
    lemma_biased_interval_semis(sum, from_c.qual());
}

/// Re-spelling an interval keeps its semitone count.
pub proof fn lemma_biased_interval_semis(i: SimpleInterval, q: crate::interval::IntervalQuality)
    ensures
        biased(i, q).semis() == i.semis(),
{
}

impl Default for AbstractNote {
    fn default() -> (r: Self)
        ensures
            r == (AbstractNote { raw_note: RawNote::C, modifier: NoteModifier::Natural }),
    {
        AbstractNote { raw_note: RawNote::C, modifier: NoteModifier::Natural }
    }
}

impl core::ops::Add<Semitone> for AbstractNote {
    type Output = AbstractNote;

    fn add(self, rhs: Semitone) -> (r: AbstractNote) {
        self.add_semitones(rhs)
    }
}

impl vstd::std_specs::ops::AddSpecImpl<Semitone> for AbstractNote {
    open spec fn obeys_add_spec() -> bool {
        true
    }

    open spec fn add_req(self, rhs: Semitone) -> bool {
        true
    }

    open spec fn add_spec(self, rhs: Semitone) -> AbstractNote {
        self.shifted(rhs as int)
    }
}

impl core::ops::Add<SimpleInterval> for AbstractNote {
    type Output = AbstractNote;

    fn add(self, rhs: SimpleInterval) -> (r: AbstractNote) {
        self.add_interval(rhs)
    }
}

impl vstd::std_specs::ops::AddSpecImpl<SimpleInterval> for AbstractNote {
    open spec fn obeys_add_spec() -> bool {
        true
    }

    open spec fn add_req(self, rhs: SimpleInterval) -> bool {
        true
    }

    open spec fn add_spec(self, rhs: SimpleInterval) -> AbstractNote {
        self.shifted(rhs.semis())
    }
}

impl core::ops::Sub<Semitone> for AbstractNote {
    type Output = AbstractNote;

    fn sub(self, rhs: Semitone) -> (r: AbstractNote) {
        self.add_semitones(-rhs)
    }
}

impl vstd::std_specs::ops::SubSpecImpl<Semitone> for AbstractNote {
    open spec fn obeys_sub_spec() -> bool {
        true
    }

    open spec fn sub_req(self, rhs: Semitone) -> bool {
        rhs != i32::MIN
    }

    open spec fn sub_spec(self, rhs: Semitone) -> AbstractNote {
        self.shifted(-rhs)
    }
}

impl core::ops::Sub<SimpleInterval> for AbstractNote {
    type Output = AbstractNote;

    fn sub(self, rhs: SimpleInterval) -> (r: AbstractNote) {
        self.add_semitones(-rhs.semitones())
    }
}

impl vstd::std_specs::ops::SubSpecImpl<SimpleInterval> for AbstractNote {
    open spec fn obeys_sub_spec() -> bool {
        true
    }

    open spec fn sub_req(self, rhs: SimpleInterval) -> bool {
        true
    }

    open spec fn sub_spec(self, rhs: SimpleInterval) -> AbstractNote {
        self.shifted(-rhs.semis())
    }
}

impl core::ops::Add<NoteModifier> for AbstractNote {
    type Output = AbstractNote;

    /// Raises the note by the modifier's offset, spelt with the modifier's
    /// preference for sharps or flats.
    fn add(self, rhs: NoteModifier) -> (r: AbstractNote) {
        AbstractNote::from_interval_from_c(self.interval_from_c() + rhs.semitones(), ModifierPreference::from(rhs))
    }
}

impl vstd::std_specs::ops::AddSpecImpl<NoteModifier> for AbstractNote {
    open spec fn obeys_add_spec() -> bool {
        true
    }

    open spec fn add_req(self, rhs: NoteModifier) -> bool {
        true
    }

    open spec fn add_spec(self, rhs: NoteModifier) -> AbstractNote {
        let from_c = decompose(self.pitch()).interval;
        spelled(
            biased(decompose(from_c.semis() + rhs.offset()).interval, from_c.qual()).semis() % 12,
            preference_for(rhs),
        )
    }
}

impl core::ops::Sub<NoteModifier> for AbstractNote {
    type Output = AbstractNote;

    /// Lowers the note by the modifier's offset, spelt with the modifier's
    /// preference for sharps or flats.
    fn sub(self, rhs: NoteModifier) -> (r: AbstractNote) {
        AbstractNote::from_interval_from_c(self.interval_from_c() - rhs.semitones(), ModifierPreference::from(rhs))
    }
}

impl vstd::std_specs::ops::SubSpecImpl<NoteModifier> for AbstractNote {
    open spec fn obeys_sub_spec() -> bool {
        true
    }

    open spec fn sub_req(self, rhs: NoteModifier) -> bool {
        true
    }

    open spec fn sub_spec(self, rhs: NoteModifier) -> AbstractNote {
        let from_c = decompose(self.pitch()).interval;
        spelled(
            biased(decompose(from_c.semis() - rhs.offset()).interval, from_c.qual()).semis() % 12,
            preference_for(rhs),
        )
    }
}

impl From<RawNote> for AbstractNote {
    fn from(raw_note: RawNote) -> (r: Self) {
        AbstractNote { raw_note, modifier: NoteModifier::Natural }
    }
}

impl vstd::std_specs::convert::FromSpecImpl<RawNote> for AbstractNote {
    open spec fn obeys_from_spec() -> bool {
        true
    }

    open spec fn from_spec(raw_note: RawNote) -> AbstractNote {
        AbstractNote { raw_note, modifier: NoteModifier::Natural }
    }
}

impl From<(RawNote, NoteModifier)> for AbstractNote {
    fn from(pair: (RawNote, NoteModifier)) -> (r: Self) {
        AbstractNote { raw_note: pair.0, modifier: pair.1 }
    }
}

impl vstd::std_specs::convert::FromSpecImpl<(RawNote, NoteModifier)> for AbstractNote {
    open spec fn obeys_from_spec() -> bool {
        true
    }

    open spec fn from_spec(pair: (RawNote, NoteModifier)) -> AbstractNote {
        AbstractNote { raw_note: pair.0, modifier: pair.1 }
    }
}

impl From<(NoteModifier, RawNote)> for AbstractNote {
    fn from(pair: (NoteModifier, RawNote)) -> (r: Self) {
        AbstractNote { raw_note: pair.1, modifier: pair.0 }
    }
}

impl vstd::std_specs::convert::FromSpecImpl<(NoteModifier, RawNote)> for AbstractNote {
    open spec fn obeys_from_spec() -> bool {
        true
    }

    open spec fn from_spec(pair: (NoteModifier, RawNote)) -> AbstractNote {
        AbstractNote { raw_note: pair.1, modifier: pair.0 }
    }
}

impl From<Note> for AbstractNote {
    fn from(note: Note) -> (r: Self) {
        note.to_abstract_note()
    }
}

impl vstd::std_specs::convert::FromSpecImpl<Note> for AbstractNote {
    open spec fn obeys_from_spec() -> bool {
        true
    }

    open spec fn from_spec(note: Note) -> AbstractNote {
        note.abstract_note()
    }
}

impl core::ops::Add<NoteModifier> for RawNote {
    type Output = AbstractNote;

    /// The letter with the accidental.
    fn add(self, rhs: NoteModifier) -> (r: AbstractNote) {
        AbstractNote { raw_note: self, modifier: rhs }
    }
}

impl vstd::std_specs::ops::AddSpecImpl<NoteModifier> for RawNote {
    open spec fn obeys_add_spec() -> bool {
        true
    }

    open spec fn add_req(self, rhs: NoteModifier) -> bool {
        true
    }

    open spec fn add_spec(self, rhs: NoteModifier) -> AbstractNote {
        AbstractNote { raw_note: self, modifier: rhs }
    }
}

} // verus!
