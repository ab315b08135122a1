use vstd::multiset::Multiset;
use vstd::prelude::*;

use crate::interval::{
    biased, bias_simple_interval_quality, decompose, IntervalQuality, SimpleInterval,
    SimpleIntervalFromSemitones,
};
use crate::note_modifier::Semitone;

verus! {

broadcast use vstd::seq_lib::group_to_multiset_ensures;

/// Whether the intervals run from the largest down to the smallest.
pub open spec fn sorted_desc(s: Seq<SimpleInterval>) -> bool {
    forall|i: int, j: int| 0 <= i < j < s.len() ==> s[i].rank_spec() >= s[j].rank_spec()
}

/// Total semitones of a stack of intervals.
pub open spec fn stack_semis(s: Seq<SimpleInterval>) -> int
    decreases s.len(),
{
    if s.len() == 0 {
        0
    } else {
        stack_semis(s.drop_last()) + s.last().semis()
    }
}

/// Total diatonic steps of a stack of intervals: a unison adds none, a
/// second one, an octave seven.
pub open spec fn stack_steps(s: Seq<SimpleInterval>) -> int
    decreases s.len(),
{
    if s.len() == 0 {
        0
    } else {
        stack_steps(s.drop_last()) + s.last().number().ordinal() - 1
    }
}

proof fn lemma_stack_bounds(s: Seq<SimpleInterval>)
    ensures
        0 <= stack_semis(s) <= 12 * s.len(),
        0 <= stack_steps(s) <= 7 * s.len(),
    decreases s.len(),
{
    if s.len() > 0 {
        lemma_stack_bounds(s.drop_last());
    }
}

/// A prefix of a stack adds up to no more than the whole stack.
proof fn lemma_prefix_sums_le(s: Seq<SimpleInterval>, i: int)
    requires
        0 <= i <= s.len(),
    ensures
        stack_semis(s.subrange(0, i)) <= stack_semis(s),
        stack_steps(s.subrange(0, i)) <= stack_steps(s),
        0 <= stack_semis(s.subrange(0, i)),
        0 <= stack_steps(s.subrange(0, i)),
    decreases s.len(),
{
    lemma_stack_bounds(s.subrange(0, i));
    if i < s.len() {
        assert(s.drop_last().subrange(0, i) =~= s.subrange(0, i));
        lemma_prefix_sums_le(s.drop_last(), i);
        lemma_stack_bounds(s.drop_last());
    } else {
        assert(s.subrange(0, i) =~= s);
    }
}

/// Taking one interval out of a stack takes its share out of the sums.
proof fn lemma_stack_remove(s: Seq<SimpleInterval>, j: int)
    requires
        0 <= j < s.len(),
    ensures
        stack_semis(s) == stack_semis(s.remove(j)) + s[j].semis(),
        stack_steps(s) == stack_steps(s.remove(j)) + s[j].number().ordinal() - 1,
    decreases s.len(),
{
    if j == s.len() - 1 {
        assert(s.remove(j) =~= s.drop_last());
    } else {
        lemma_stack_remove(s.drop_last(), j);
        assert(s.remove(j).drop_last() =~= s.drop_last().remove(j));
        assert(s.remove(j).last() == s.last());
    }
}

/// Stacks holding the same intervals, in any order, have the same sums.
pub proof fn lemma_stack_sums_reorder(a: Seq<SimpleInterval>, b: Seq<SimpleInterval>)
    requires
        a.to_multiset() == b.to_multiset(),
    ensures
        stack_semis(a) == stack_semis(b),
        stack_steps(a) == stack_steps(b),
    decreases a.len(),
{
    if a.len() == 0 {
        assert(b.to_multiset().len() == 0);
        assert(b.len() == 0);
    } else {
        let x = a.last();
        assert(a.contains(x)) by {
            assert(a[a.len() - 1] == x);
        }
        assert(b.to_multiset().count(x) > 0);
        assert(b.contains(x));
        let j = choose|j: int| 0 <= j < b.len() && b[j] == x;
        lemma_stack_remove(b, j);
        assert(a.remove(a.len() - 1) =~= a.drop_last());
        assert(a.drop_last().to_multiset() =~= a.to_multiset().remove(x));
        assert(b.remove(j).to_multiset() =~= b.to_multiset().remove(x));
        lemma_stack_sums_reorder(a.drop_last(), b.remove(j));
    }
}

/// `n` perfect octaves.
pub open spec fn octave_run(n: nat) -> Seq<SimpleInterval> {
    Seq::new(n, |_k: int| SimpleInterval::PerfectOctave)
}

/// A run of `n` octaves spans `12 n` semitones and `7 n` steps.
proof fn lemma_octave_run(n: nat)
    ensures
        stack_semis(octave_run(n)) == 12 * n,
        stack_steps(octave_run(n)) == 7 * n,
    decreases n,
{
    if n > 0 {
        lemma_octave_run((n - 1) as nat);
        assert(octave_run(n).drop_last() =~= octave_run((n - 1) as nat));
    }
}

/// Splitting a count of at least zero semitones into octaves and a rest
/// gives a stack spanning exactly that count.
pub proof fn lemma_octaves_then_total(semitones: int)
    requires
        0 <= semitones <= i32::MAX,
    ensures
        stack_semis(octaves_then(decompose(semitones))) == semitones,
        1 + stack_steps(octaves_then(decompose(semitones))) <= i32::MAX,
{
    crate::interval::lemma_decompose_recombines(semitones);
    let split = decompose(semitones);
    assert(split.octave_overflow >= 0);
    let run = octave_run(split.octave_overflow as nat);
    lemma_octave_run(split.octave_overflow as nat);
    assert(octaves_then(split).drop_last() =~= run);
}

/// A stack of simple intervals with no common compound name, kept from the
/// largest interval down to the smallest.
#[derive(Debug, Clone, PartialEq, Eq)]
pub struct OtherCompoundInterval {
    interval_stack: Vec<SimpleInterval>,
}

impl OtherCompoundInterval {
    /// The stored intervals, largest first.
    pub closed spec fn stack(&self) -> Seq<SimpleInterval> {
        self.interval_stack@
    }

    /// Stores the intervals sorted from the largest down to the smallest.
    pub fn new(interval_stack: Vec<SimpleInterval>) -> (r: Self)
        ensures
            r.stack().to_multiset() == interval_stack@.to_multiset(),
            sorted_desc(r.stack()),
    {
        let ghost input = interval_stack@;
        let mut rest = interval_stack;
        let mut sorted: Vec<SimpleInterval> = Vec::new();
        while rest.len() > 0
            invariant
                sorted@.to_multiset().add(rest@.to_multiset()) =~= input.to_multiset(),
                sorted_desc(sorted@),
                forall|a: int, b: int|
                    0 <= a < sorted.len() && 0 <= b < rest.len() ==> sorted@[a].rank_spec()
                        >= rest@[b].rank_spec(),
            decreases rest.len(),
        {
            let mut best: usize = 0;
            let mut i: usize = 1;
            while i < rest.len()
                invariant
                    0 <= best < rest.len(),
                    1 <= i <= rest.len(),
                    forall|k: int| 0 <= k < i ==> rest@[best as int].rank_spec() >= rest@[k].rank_spec(),
                decreases rest.len() - i,
            {
                if rest[i].rank() > rest[best].rank() {
                    best = i;
                }
                i = i + 1;
            }
            let ghost before = rest@;
            let x = rest.remove(best);
            proof {
                assert(before.remove(best as int).to_multiset() =~= before.to_multiset().remove(x));
                assert(before.to_multiset().count(x) > 0);
                assert forall|b: int| 0 <= b < rest.len() implies x.rank_spec() >= rest@[b].rank_spec() by {
                    if b < best {
                        assert(rest@[b] == before[b]);
                    } else {
                        assert(rest@[b] == before[b + 1]);
                    }
                }
            }
            let ghost sorted_before = sorted@;
            sorted.push(x);
            proof {
                assert(sorted_before.push(x).to_multiset() =~= sorted_before.to_multiset().insert(x));
                assert forall|a: int, b: int|
                    0 <= a < sorted.len() && 0 <= b < rest.len() implies sorted@[a].rank_spec()
                        >= rest@[b].rank_spec() by {
                    if b < best {
                        assert(rest@[b] == before[b]);
                    } else {
                        assert(rest@[b] == before[b + 1]);
                    }
                }
            }
        }
        proof {
            assert(rest@.to_multiset() =~= Multiset::empty());
        }
        OtherCompoundInterval { interval_stack: sorted }
    }

    /// The top interval: the last of the stack, or a unison when the stack
    /// is empty.
    pub open spec fn top_spec(&self) -> SimpleInterval {
        if self.stack().len() == 0 {
            SimpleInterval::PerfectUnison
        } else {
            self.stack().last()
        }
    }

    /// The diatonic number of the whole stack: one more than the steps of
    /// its intervals added up (a unison is 1, not 0).
    pub fn diatonic_number(&self) -> (r: i32)
        requires
            1 + stack_steps(self.stack()) <= i32::MAX,
        ensures
            r == 1 + stack_steps(self.stack()),
    {
        let mut acc: i32 = 0;
        let mut i: usize = 0;
        while i < self.interval_stack.len()
            invariant
                i <= self.stack().len(),
                1 + stack_steps(self.stack()) <= i32::MAX,
                acc == stack_steps(self.stack().subrange(0, i as int)),
                0 <= acc,
            decreases self.stack().len() - i,
        {
            proof {
                assert(self.stack().subrange(0, i + 1).drop_last() =~= self.stack().subrange(0, i as int));
                lemma_prefix_sums_le(self.stack(), i + 1);
            }
            acc = acc + (self.interval_stack[i].interval_number().value() - 1);
            i = i + 1;
        }
        proof {
            assert(self.stack().subrange(0, i as int) =~= self.stack());
        }
        1 + acc
    }

    /// Gets the quality of the top interval of the stack, as supplied.
    pub fn quality(&self) -> (r: IntervalQuality)
        ensures
            r == self.top_spec().qual(),
    {
        self.top_interval().quality()
    }

    /// The last interval of the stack, as supplied, or a unison when the
    /// stack is empty.
    pub fn top_interval(&self) -> (r: SimpleInterval)
        ensures
            r == self.top_spec(),
    {
        let n = self.interval_stack.len();
        if n == 0 {
            SimpleInterval::PerfectUnison
        } else {
            self.interval_stack[n - 1]
        }
    }

    /// Total semitones of the stack.
    fn total_semitones(&self) -> (r: Semitone)
        requires
            stack_semis(self.stack()) <= i32::MAX,
        ensures
            r == stack_semis(self.stack()),
    {
        let mut acc: i32 = 0;
        let mut i: usize = 0;
        while i < self.interval_stack.len()
            invariant
                i <= self.stack().len(),
                stack_semis(self.stack()) <= i32::MAX,
                acc == stack_semis(self.stack().subrange(0, i as int)),
                0 <= acc,
            decreases self.stack().len() - i,
        {
            proof {
                assert(self.stack().subrange(0, i + 1).drop_last() =~= self.stack().subrange(0, i as int));
                lemma_prefix_sums_le(self.stack(), i + 1);
            }
            acc = acc + self.interval_stack[i].semitones();
            i = i + 1;
        }
        proof {
            assert(self.stack().subrange(0, i as int) =~= self.stack());
        }
        acc
    }

    /// The interval the whole stack spans once whole octaves are taken out,
    /// spelt with the top interval's quality where possible.
    pub fn simple_interval(&self) -> (r: SimpleInterval)
        requires
            stack_semis(self.stack()) <= i32::MAX,
        ensures
            r == (if stack_semis(self.stack()) == 0 {
                SimpleInterval::PerfectUnison
            } else {
                biased(decompose(stack_semis(self.stack())).interval, self.top_spec().qual())
            }),
    {
        let semitones = self.total_semitones();
        if semitones == 0 {
            return SimpleInterval::PerfectUnison;
        }
        let last_interval = self.top_interval();
        let computed = SimpleInterval::from_semitones(semitones).interval;
        bias_simple_interval_quality(computed, last_interval.quality())
    }

    /// The stack of a semitone split: one octave per whole octave of
    /// overflow, then the interval, sorted.
    pub fn from_split(split: SimpleIntervalFromSemitones) -> (r: Self)
        ensures
            r.stack().to_multiset() == octaves_then(split).to_multiset(),
            sorted_desc(r.stack()),
    {
        let mut interval_stack: Vec<SimpleInterval> = Vec::new();
        if split.octave_overflow > 0 {
            let mut i: i32 = 0;
            while i < split.octave_overflow
                invariant
                    0 <= i <= split.octave_overflow,
                    interval_stack@ =~= octave_run(i as nat),
                decreases split.octave_overflow - i,
            {
                interval_stack.push(SimpleInterval::PerfectOctave);
                i = i + 1;
            }
        }
        interval_stack.push(split.interval);
        proof {
            assert(interval_stack@ =~= octaves_then(split));
        }
        OtherCompoundInterval::new(interval_stack)
    }
}

/// One perfect octave per whole octave of overflow (none when it is not
/// positive), then the split's interval.
pub open spec fn octaves_then(split: SimpleIntervalFromSemitones) -> Seq<SimpleInterval> {
    let n: nat = if split.octave_overflow > 0 {
        split.octave_overflow as nat
    } else {
        0
    };
    octave_run(n).push(split.interval)
}

/// An interval wider than an octave: a named one up to two octaves and a
/// semitone, or a stack of simple intervals.
#[derive(Debug, Clone, PartialEq, Eq)]
pub enum CompoundInterval {
    DiminishedNinth,
    MinorNinth,
    AugmentedOctave,
    MajorNinth,
    DiminishedTenth,
    MinorTenth,
    AugmentedNinth,
    MajorTenth,
    DiminishedEleventh,
    PerfectEleventh,
    AugmentedTenth,
    DiminishedTweltfth,
    AuthmentedEleventh,
    PerfectTwelfth,
    DiminishedThirteenth,
    MinorThirteenth,
    AugmentedTwelfth,
    MajorThirteenth,
    DiminishedFourteenth,
    MinorFourteenth,
    AugmentedThirteenth,
    MajorFourteenth,
    DiminishedFifteenth,
    PerfectFifteenth,
    AugmentedFourteenth,
    AugmentedFifteenth,
    Other(OtherCompoundInterval),
}

/// The common name chosen for 13 to 25 semitones.
pub open spec fn named_for(semitones: int) -> CompoundInterval
    recommends
        13 <= semitones <= 25,
{
        if semitones == 13 {
            CompoundInterval::MinorNinth
        } else if semitones == 14 {
            CompoundInterval::MajorNinth
        } else if semitones == 15 {
            CompoundInterval::MinorTenth
        } else if semitones == 16 {
            CompoundInterval::MajorTenth
        } else if semitones == 17 {
            CompoundInterval::PerfectEleventh
        } else if semitones == 18 {
            CompoundInterval::DiminishedTweltfth
        } else if semitones == 19 {
            CompoundInterval::PerfectTwelfth
        } else if semitones == 20 {
            CompoundInterval::MinorThirteenth
        } else if semitones == 21 {
            CompoundInterval::MajorThirteenth
        } else if semitones == 22 {
            CompoundInterval::MinorFourteenth
        } else if semitones == 23 {
            CompoundInterval::MajorFourteenth
        } else if semitones == 24 {
            CompoundInterval::PerfectFifteenth
        } else if semitones == 25 {
            CompoundInterval::AugmentedFifteenth
        } else {
            CompoundInterval::AugmentedFifteenth
        }
}

impl CompoundInterval {
    /// Semitones the interval spans.
    pub open spec fn semis(&self) -> int {
        match self {
            CompoundInterval::DiminishedNinth => 12,
            CompoundInterval::MinorNinth => 13,
            CompoundInterval::AugmentedOctave => 13,
            CompoundInterval::MajorNinth => 14,
            CompoundInterval::DiminishedTenth => 14,
            CompoundInterval::MinorTenth => 15,
            CompoundInterval::AugmentedNinth => 15,
            CompoundInterval::MajorTenth => 16,
            CompoundInterval::DiminishedEleventh => 16,
            CompoundInterval::PerfectEleventh => 17,
            CompoundInterval::AugmentedTenth => 17,
            CompoundInterval::DiminishedTweltfth => 18,
            CompoundInterval::AuthmentedEleventh => 18,
            CompoundInterval::PerfectTwelfth => 19,
            CompoundInterval::DiminishedThirteenth => 19,
            CompoundInterval::MinorThirteenth => 20,
            CompoundInterval::AugmentedTwelfth => 20,
            CompoundInterval::MajorThirteenth => 21,
            CompoundInterval::DiminishedFourteenth => 21,
            CompoundInterval::MinorFourteenth => 22,
            CompoundInterval::AugmentedThirteenth => 22,
            CompoundInterval::MajorFourteenth => 23,
            CompoundInterval::DiminishedFifteenth => 23,
            CompoundInterval::PerfectFifteenth => 24,
            CompoundInterval::AugmentedFourteenth => 24,
            CompoundInterval::AugmentedFifteenth => 25,
            CompoundInterval::Other(other) => stack_semis(other.stack()),
        }
    }

    /// The interval left above the last whole octave.
    pub open spec fn simple_spec(&self) -> SimpleInterval {
        match self {
            CompoundInterval::DiminishedNinth => SimpleInterval::PerfectUnison,
            CompoundInterval::MinorNinth => SimpleInterval::MinorSecond,
            CompoundInterval::AugmentedOctave => SimpleInterval::AugmentedUnison,
            CompoundInterval::MajorNinth => SimpleInterval::MajorSecond,
            CompoundInterval::DiminishedTenth => SimpleInterval::DiminishedThird,
            CompoundInterval::MinorTenth => SimpleInterval::MinorThird,
            CompoundInterval::AugmentedNinth => SimpleInterval::AugmentedSecond,
            CompoundInterval::MajorTenth => SimpleInterval::MajorThird,
            CompoundInterval::DiminishedEleventh => SimpleInterval::DiminishedFourth,
            CompoundInterval::PerfectEleventh => SimpleInterval::PerfectFourth,
            CompoundInterval::AugmentedTenth => SimpleInterval::AugmentedThird,
            CompoundInterval::DiminishedTweltfth => SimpleInterval::DiminishedFifth,
            CompoundInterval::AuthmentedEleventh => SimpleInterval::AugmentedFourth,
            CompoundInterval::PerfectTwelfth => SimpleInterval::PerfectFifth,
            CompoundInterval::DiminishedThirteenth => SimpleInterval::DiminishedSixth,
            CompoundInterval::MinorThirteenth => SimpleInterval::MinorSixth,
            CompoundInterval::AugmentedTwelfth => SimpleInterval::AugmentedFifth,
            CompoundInterval::MajorThirteenth => SimpleInterval::MajorSixth,
            CompoundInterval::DiminishedFourteenth => SimpleInterval::DiminishedSeventh,
            CompoundInterval::MinorFourteenth => SimpleInterval::MinorSeventh,
            CompoundInterval::AugmentedThirteenth => SimpleInterval::AugmentedSixth,
            CompoundInterval::MajorFourteenth => SimpleInterval::MajorSeventh,
            CompoundInterval::DiminishedFifteenth => SimpleInterval::DiminishedOctave,
            CompoundInterval::PerfectFifteenth => SimpleInterval::PerfectOctave,
            CompoundInterval::AugmentedFourteenth => SimpleInterval::AugmentedSeventh,
            CompoundInterval::AugmentedFifteenth => SimpleInterval::AugmentedUnison,
            CompoundInterval::Other(other) => other.stack().last(),
        }
    }

    /// The stack's semitone total and diatonic number fit in `i32`.
    pub open spec fn fits(&self) -> bool {
        match self {
            CompoundInterval::Other(other) => stack_semis(other.stack()) <= i32::MAX && 1
                + stack_steps(other.stack()) <= i32::MAX,
            _ => true,
        }
    }

    /// The named interval for 13 to 25 semitones; any other count becomes a
    /// stack of octaves and the in-octave rest.
    pub fn from_semitones(semitones: Semitone) -> (r: CompoundInterval)
        ensures
            13 <= semitones <= 25 ==> r == named_for(semitones as int),
            semitones >= 0 ==> r.semis() == semitones && r.fits(),
            !(13 <= semitones <= 25) ==> (r matches CompoundInterval::Other(other)
                && other.stack().to_multiset() == octaves_then(decompose(semitones as int)).to_multiset()
                && sorted_desc(other.stack())),
    {
        match semitones {
            13 => CompoundInterval::MinorNinth,
            14 => CompoundInterval::MajorNinth,
            15 => CompoundInterval::MinorTenth,
            16 => CompoundInterval::MajorTenth,
            17 => CompoundInterval::PerfectEleventh,
            18 => CompoundInterval::DiminishedTweltfth,
            19 => CompoundInterval::PerfectTwelfth,
            20 => CompoundInterval::MinorThirteenth,
            21 => CompoundInterval::MajorThirteenth,
            22 => CompoundInterval::MinorFourteenth,
            23 => CompoundInterval::MajorFourteenth,
            24 => CompoundInterval::PerfectFifteenth,
            25 => CompoundInterval::AugmentedFifteenth,
            _ => {
                let other = OtherCompoundInterval::from_split(SimpleInterval::from_semitones(semitones));
                proof {
                    if semitones >= 0 {
                        lemma_octaves_then_total(semitones as int);
                        lemma_stack_sums_reorder(
                            other.stack(),
                            octaves_then(decompose(semitones as int)),
                        );
                    }
                }
                CompoundInterval::Other(other)
            },
        }
    }

    /// Semitones the interval spans.
    pub fn semitones(&self) -> (r: Semitone)
        requires
            self.fits(),
        ensures
            r == self.semis(),
    {
        match self {
            CompoundInterval::DiminishedNinth => 12,
            CompoundInterval::MinorNinth => 13,
            CompoundInterval::AugmentedOctave => 13,
            CompoundInterval::MajorNinth => 14,
            CompoundInterval::DiminishedTenth => 14,
            CompoundInterval::MinorTenth => 15,
            CompoundInterval::AugmentedNinth => 15,
            CompoundInterval::MajorTenth => 16,
            CompoundInterval::DiminishedEleventh => 16,
            CompoundInterval::PerfectEleventh => 17,
            CompoundInterval::AugmentedTenth => 17,
            CompoundInterval::DiminishedTweltfth => 18,
            CompoundInterval::AuthmentedEleventh => 18,
            CompoundInterval::PerfectTwelfth => 19,
            CompoundInterval::DiminishedThirteenth => 19,
            CompoundInterval::MinorThirteenth => 20,
            CompoundInterval::AugmentedTwelfth => 20,
            CompoundInterval::MajorThirteenth => 21,
            CompoundInterval::DiminishedFourteenth => 21,
            CompoundInterval::MinorFourteenth => 22,
            CompoundInterval::AugmentedThirteenth => 22,
            CompoundInterval::MajorFourteenth => 23,
            CompoundInterval::DiminishedFifteenth => 23,
            CompoundInterval::PerfectFifteenth => 24,
            CompoundInterval::AugmentedFourteenth => 24,
            CompoundInterval::AugmentedFifteenth => 25,
            CompoundInterval::Other(other) => other.total_semitones(),
        }
    }

    /// The simple interval at the top of this compound interval: a ninth
    /// gives a second.
    pub fn get_simple_interval(&self) -> (r: SimpleInterval)
        requires
            self matches CompoundInterval::Other(other) ==> other.stack().len() > 0,
        ensures
            r == self.simple_spec(),
    {
        match self {
            CompoundInterval::DiminishedNinth => SimpleInterval::PerfectUnison,
            CompoundInterval::MinorNinth => SimpleInterval::MinorSecond,
            CompoundInterval::AugmentedOctave => SimpleInterval::AugmentedUnison,
            CompoundInterval::MajorNinth => SimpleInterval::MajorSecond,
            CompoundInterval::DiminishedTenth => SimpleInterval::DiminishedThird,
            CompoundInterval::MinorTenth => SimpleInterval::MinorThird,
            CompoundInterval::AugmentedNinth => SimpleInterval::AugmentedSecond,
            CompoundInterval::MajorTenth => SimpleInterval::MajorThird,
            CompoundInterval::DiminishedEleventh => SimpleInterval::DiminishedFourth,
            CompoundInterval::PerfectEleventh => SimpleInterval::PerfectFourth,
            CompoundInterval::AugmentedTenth => SimpleInterval::AugmentedThird,
            CompoundInterval::DiminishedTweltfth => SimpleInterval::DiminishedFifth,
            CompoundInterval::AuthmentedEleventh => SimpleInterval::AugmentedFourth,
            CompoundInterval::PerfectTwelfth => SimpleInterval::PerfectFifth,
            CompoundInterval::DiminishedThirteenth => SimpleInterval::DiminishedSixth,
            CompoundInterval::MinorThirteenth => SimpleInterval::MinorSixth,
            CompoundInterval::AugmentedTwelfth => SimpleInterval::AugmentedFifth,
            CompoundInterval::MajorThirteenth => SimpleInterval::MajorSixth,
            CompoundInterval::DiminishedFourteenth => SimpleInterval::DiminishedSeventh,
            CompoundInterval::MinorFourteenth => SimpleInterval::MinorSeventh,
            CompoundInterval::AugmentedThirteenth => SimpleInterval::AugmentedSixth,
            CompoundInterval::MajorFourteenth => SimpleInterval::MajorSeventh,
            CompoundInterval::DiminishedFifteenth => SimpleInterval::DiminishedOctave,
            CompoundInterval::PerfectFifteenth => SimpleInterval::PerfectOctave,
            CompoundInterval::AugmentedFourteenth => SimpleInterval::AugmentedSeventh,
            CompoundInterval::AugmentedFifteenth => SimpleInterval::AugmentedUnison,
            CompoundInterval::Other(other) => other.top_interval(),
        }
    }
}

/// A named compound interval spans one octave plus its simple interval; the
/// augmented fifteenth spans two octaves plus an augmented unison.
pub proof fn lemma_named_compound_span(c: CompoundInterval)
    requires
        !(c is Other),
    ensures
        c != CompoundInterval::AugmentedFifteenth ==> c.semis() == 12 + c.simple_spec().semis(),
        c == CompoundInterval::AugmentedFifteenth ==> c.semis() == 24 + c.simple_spec().semis(),
{
}

/// A simple or a compound interval.
#[derive(Debug, Clone, PartialEq, Eq)]
pub enum Interval {
    /// An interval that fits within one octave.
    Simple(SimpleInterval),
    /// An interval that spans more than one octave.
    Compound(CompoundInterval),
}

impl Interval {
    /// A simple interval below 13 semitones, a compound one from there.
    pub fn from_semitones(semitones: Semitone) -> (r: Interval)
        ensures
            semitones < 13 ==> r == Interval::Simple(decompose(semitones as int).interval),
            13 <= semitones <= 25 ==> r == Interval::Compound(named_for(semitones as int)),
            semitones > 25 ==> (r matches Interval::Compound(CompoundInterval::Other(other))
                && other.stack().to_multiset() == octaves_then(decompose(semitones as int)).to_multiset()
                && sorted_desc(other.stack())),
    {
        if semitones < 13 {
            Interval::Simple(SimpleInterval::from_semitones(semitones).interval)
        } else {
            Interval::Compound(CompoundInterval::from_semitones(semitones))
        }
    }
}

} // verus!
