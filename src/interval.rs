use vstd::prelude::*;

use crate::note_modifier::Semitone;

verus! {

/// The quality of an interval.
#[derive(Debug, Clone, Copy, PartialEq, Eq, Structural, Hash)]
pub enum IntervalQuality {
    Perfect,
    Major,
    Minor,
    Augmented,
    Diminished,
}

/// The quality an interval takes when inverted.
pub open spec fn inverted_quality(q: IntervalQuality) -> IntervalQuality {
    match q {
        IntervalQuality::Perfect => IntervalQuality::Perfect,
        IntervalQuality::Major => IntervalQuality::Minor,
        IntervalQuality::Minor => IntervalQuality::Major,
        IntervalQuality::Augmented => IntervalQuality::Diminished,
        IntervalQuality::Diminished => IntervalQuality::Augmented,
    }
}

/// The diatonic number of an interval within one octave.
#[derive(Debug, Clone, Copy, PartialEq, Eq, Structural, PartialOrd, Ord, Hash)]
pub enum SimpleIntervalNumber {
    Unison,
    Second,
    Third,
    Fourth,
    Fifth,
    Sixth,
    Seventh,
    Octave,
}

impl SimpleIntervalNumber {
    /// The ordinal of the number: a unison is 1, an octave is 8.
    pub open spec fn ordinal(self) -> int {
        match self {
            SimpleIntervalNumber::Unison => 1,
            SimpleIntervalNumber::Second => 2,
            SimpleIntervalNumber::Third => 3,
            SimpleIntervalNumber::Fourth => 4,
            SimpleIntervalNumber::Fifth => 5,
            SimpleIntervalNumber::Sixth => 6,
            SimpleIntervalNumber::Seventh => 7,
            SimpleIntervalNumber::Octave => 8,
        }
    }

    /// Unisons, fourths, fifths and octaves take perfect qualities; the
    /// others take major and minor ones.
    pub open spec fn is_perfect_kind(self) -> bool {
        let n = self.ordinal();
        n == 1 || n == 4 || n == 5 || n == 8
    }

    /// The ordinal of the number: a unison is 1, an octave is 8.
    pub fn value(&self) -> (r: i32)
        ensures
            r == self.ordinal(),
    {
        match self {
            SimpleIntervalNumber::Unison => 1,
            SimpleIntervalNumber::Second => 2,
            SimpleIntervalNumber::Third => 3,
            SimpleIntervalNumber::Fourth => 4,
            SimpleIntervalNumber::Fifth => 5,
            SimpleIntervalNumber::Sixth => 6,
            SimpleIntervalNumber::Seventh => 7,
            SimpleIntervalNumber::Octave => 8,
        }
    }
}

/// Why a quality and a number make no interval.
#[derive(Debug, Clone, Copy, PartialEq, Eq, Structural)]
pub enum InvalidSimpleIntervalError {
    InvalidPerfectNumber,
    InvalidAugmentedNumber,
    InvalidDiminishedNumber,
    InvalidMajorNumber,
    InvalidMinorNumber,
}

/// Every spelling of an interval of at most one octave, listed in pairs of
/// enharmonic equivalents from the smallest to the largest.
#[derive(Debug, Clone, Copy, PartialEq, Eq, Structural, PartialOrd, Ord, Hash)]
pub enum SimpleInterval {
    PerfectUnison,
    DiminishedSecond,
    AugmentedUnison,
    MinorSecond,
    MajorSecond,
    DiminishedThird,
    AugmentedSecond,
    MinorThird,
    MajorThird,
    DiminishedFourth,
    AugmentedThird,
    PerfectFourth,
    DiminishedFifth,
    AugmentedFourth,
    PerfectFifth,
    DiminishedSixth,
    AugmentedFifth,
    MinorSixth,
    MajorSixth,
    DiminishedSeventh,
    AugmentedSixth,
    MinorSeventh,
    MajorSeventh,
    DiminishedOctave,
    AugmentedSeventh,
    PerfectOctave,
}

impl SimpleInterval {
    /// The number of semitones the interval spans.
    pub open spec fn semis(self) -> int {
        match self {
            SimpleInterval::PerfectUnison | SimpleInterval::DiminishedSecond => 0,
            SimpleInterval::MinorSecond | SimpleInterval::AugmentedUnison => 1,
            SimpleInterval::MajorSecond | SimpleInterval::DiminishedThird => 2,
            SimpleInterval::MinorThird | SimpleInterval::AugmentedSecond => 3,
            SimpleInterval::MajorThird | SimpleInterval::DiminishedFourth => 4,
            SimpleInterval::PerfectFourth | SimpleInterval::AugmentedThird => 5,
            SimpleInterval::AugmentedFourth | SimpleInterval::DiminishedFifth => 6,
            SimpleInterval::PerfectFifth | SimpleInterval::DiminishedSixth => 7,
            SimpleInterval::MinorSixth | SimpleInterval::AugmentedFifth => 8,
            SimpleInterval::MajorSixth | SimpleInterval::DiminishedSeventh => 9,
            SimpleInterval::MinorSeventh | SimpleInterval::AugmentedSixth => 10,
            SimpleInterval::MajorSeventh | SimpleInterval::DiminishedOctave => 11,
            SimpleInterval::PerfectOctave | SimpleInterval::AugmentedSeventh => 12,
        }
    }

    /// The diatonic number of the interval.
    pub open spec fn number(self) -> SimpleIntervalNumber {
        match self {
            SimpleInterval::PerfectUnison | SimpleInterval::AugmentedUnison => {
                SimpleIntervalNumber::Unison
            },
            SimpleInterval::DiminishedSecond
            | SimpleInterval::MinorSecond
            | SimpleInterval::MajorSecond
            | SimpleInterval::AugmentedSecond => SimpleIntervalNumber::Second,
            SimpleInterval::DiminishedThird
            | SimpleInterval::MinorThird
            | SimpleInterval::MajorThird
            | SimpleInterval::AugmentedThird => SimpleIntervalNumber::Third,
            SimpleInterval::DiminishedFourth
            | SimpleInterval::PerfectFourth
            | SimpleInterval::AugmentedFourth => SimpleIntervalNumber::Fourth,
            SimpleInterval::DiminishedFifth
            | SimpleInterval::PerfectFifth
            | SimpleInterval::AugmentedFifth => SimpleIntervalNumber::Fifth,
            SimpleInterval::DiminishedSixth
            | SimpleInterval::MinorSixth
            | SimpleInterval::MajorSixth
            | SimpleInterval::AugmentedSixth => SimpleIntervalNumber::Sixth,
            SimpleInterval::DiminishedSeventh
            | SimpleInterval::MinorSeventh
            | SimpleInterval::MajorSeventh
            | SimpleInterval::AugmentedSeventh => SimpleIntervalNumber::Seventh,
            SimpleInterval::DiminishedOctave | SimpleInterval::PerfectOctave => {
                SimpleIntervalNumber::Octave
            },
        }
    }

    /// The quality of the interval.
    pub open spec fn qual(self) -> IntervalQuality {
        match self {
            SimpleInterval::PerfectUnison
            | SimpleInterval::PerfectFourth
            | SimpleInterval::PerfectFifth
            | SimpleInterval::PerfectOctave => IntervalQuality::Perfect,
            SimpleInterval::MinorSecond
            | SimpleInterval::MinorThird
            | SimpleInterval::MinorSixth
            | SimpleInterval::MinorSeventh => IntervalQuality::Minor,
            SimpleInterval::MajorSecond
            | SimpleInterval::MajorThird
            | SimpleInterval::MajorSixth
            | SimpleInterval::MajorSeventh => IntervalQuality::Major,
            SimpleInterval::AugmentedUnison
            | SimpleInterval::AugmentedSecond
            | SimpleInterval::AugmentedThird
            | SimpleInterval::AugmentedFourth
            | SimpleInterval::AugmentedFifth
            | SimpleInterval::AugmentedSixth
            | SimpleInterval::AugmentedSeventh => IntervalQuality::Augmented,
            _ => IntervalQuality::Diminished,
        }
    }

    /// The spelling chosen for a count of 0 to 12 semitones: perfect, major
    /// or minor, and a diminished fifth for the tritone.
    pub open spec fn plain_for(semitones: int) -> SimpleInterval {
        if semitones <= 0 {
            SimpleInterval::PerfectUnison
        } else if semitones == 1 {
            SimpleInterval::MinorSecond
        } else if semitones == 2 {
            SimpleInterval::MajorSecond
        } else if semitones == 3 {
            SimpleInterval::MinorThird
        } else if semitones == 4 {
            SimpleInterval::MajorThird
        } else if semitones == 5 {
            SimpleInterval::PerfectFourth
        } else if semitones == 6 {
            SimpleInterval::DiminishedFifth
        } else if semitones == 7 {
            SimpleInterval::PerfectFifth
        } else if semitones == 8 {
            SimpleInterval::MinorSixth
        } else if semitones == 9 {
            SimpleInterval::MajorSixth
        } else if semitones == 10 {
            SimpleInterval::MinorSeventh
        } else if semitones == 11 {
            SimpleInterval::MajorSeventh
        } else {
            SimpleInterval::PerfectOctave
        }
    }

    /// Get the count of semitones this interval represents.
    pub fn semitones(&self) -> (r: Semitone)
        ensures
            r == self.semis(),
            0 <= r <= 12,
    {
        match self {
            SimpleInterval::PerfectUnison | SimpleInterval::DiminishedSecond => 0,
            SimpleInterval::MinorSecond | SimpleInterval::AugmentedUnison => 1,
            SimpleInterval::MajorSecond | SimpleInterval::DiminishedThird => 2,
            SimpleInterval::MinorThird | SimpleInterval::AugmentedSecond => 3,
            SimpleInterval::MajorThird | SimpleInterval::DiminishedFourth => 4,
            SimpleInterval::PerfectFourth | SimpleInterval::AugmentedThird => 5,
            SimpleInterval::AugmentedFourth | SimpleInterval::DiminishedFifth => 6,
            SimpleInterval::PerfectFifth | SimpleInterval::DiminishedSixth => 7,
            SimpleInterval::MinorSixth | SimpleInterval::AugmentedFifth => 8,
            SimpleInterval::MajorSixth | SimpleInterval::DiminishedSeventh => 9,
            SimpleInterval::MinorSeventh | SimpleInterval::AugmentedSixth => 10,
            SimpleInterval::MajorSeventh | SimpleInterval::DiminishedOctave => 11,
            SimpleInterval::PerfectOctave | SimpleInterval::AugmentedSeventh => 12,
        }
    }

    /// Returns the diatonic number of this interval.
    pub fn interval_number(&self) -> (r: SimpleIntervalNumber)
        ensures
            r == self.number(),
    {
        match self {
            SimpleInterval::PerfectUnison | SimpleInterval::AugmentedUnison => {
                SimpleIntervalNumber::Unison
            },
            SimpleInterval::DiminishedSecond
            | SimpleInterval::MinorSecond
            | SimpleInterval::MajorSecond
            | SimpleInterval::AugmentedSecond => SimpleIntervalNumber::Second,
            SimpleInterval::DiminishedThird
            | SimpleInterval::MinorThird
            | SimpleInterval::MajorThird
            | SimpleInterval::AugmentedThird => SimpleIntervalNumber::Third,
            SimpleInterval::DiminishedFourth
            | SimpleInterval::PerfectFourth
            | SimpleInterval::AugmentedFourth => SimpleIntervalNumber::Fourth,
            SimpleInterval::DiminishedFifth
            | SimpleInterval::PerfectFifth
            | SimpleInterval::AugmentedFifth => SimpleIntervalNumber::Fifth,
            SimpleInterval::DiminishedSixth
            | SimpleInterval::MinorSixth
            | SimpleInterval::MajorSixth
            | SimpleInterval::AugmentedSixth => SimpleIntervalNumber::Sixth,
            SimpleInterval::DiminishedSeventh
            | SimpleInterval::MinorSeventh
            | SimpleInterval::MajorSeventh
            | SimpleInterval::AugmentedSeventh => SimpleIntervalNumber::Seventh,
            SimpleInterval::DiminishedOctave | SimpleInterval::PerfectOctave => {
                SimpleIntervalNumber::Octave
            },
        }
    }

    /// Returns the quality of this interval.
    pub fn quality(&self) -> (r: IntervalQuality)
        ensures
            r == self.qual(),
    {
        match self {
            SimpleInterval::PerfectUnison
            | SimpleInterval::PerfectFourth
            | SimpleInterval::PerfectFifth
            | SimpleInterval::PerfectOctave => IntervalQuality::Perfect,
            SimpleInterval::MinorSecond
            | SimpleInterval::MinorThird
            | SimpleInterval::MinorSixth
            | SimpleInterval::MinorSeventh => IntervalQuality::Minor,
            SimpleInterval::MajorSecond
            | SimpleInterval::MajorThird
            | SimpleInterval::MajorSixth
            | SimpleInterval::MajorSeventh => IntervalQuality::Major,
            SimpleInterval::AugmentedUnison
            | SimpleInterval::AugmentedSecond
            | SimpleInterval::AugmentedThird
            | SimpleInterval::AugmentedFourth
            | SimpleInterval::AugmentedFifth
            | SimpleInterval::AugmentedSixth
            | SimpleInterval::AugmentedSeventh => IntervalQuality::Augmented,
            SimpleInterval::DiminishedSecond
            | SimpleInterval::DiminishedThird
            | SimpleInterval::DiminishedFourth
            | SimpleInterval::DiminishedFifth
            | SimpleInterval::DiminishedSixth
            | SimpleInterval::DiminishedSeventh
            | SimpleInterval::DiminishedOctave => IntervalQuality::Diminished,
        }
    }

    /// The inversion of the interval: numbers add up to nine, major and
    /// minor swap, augmented and diminished swap, perfect stays perfect.
    pub open spec fn inverted(self) -> SimpleInterval {
        match self {
            SimpleInterval::PerfectUnison => SimpleInterval::PerfectOctave,
            SimpleInterval::MinorSecond => SimpleInterval::MajorSeventh,
            SimpleInterval::MajorSecond => SimpleInterval::MinorSeventh,
            SimpleInterval::MinorThird => SimpleInterval::MajorSixth,
            SimpleInterval::MajorThird => SimpleInterval::MinorSixth,
            SimpleInterval::PerfectFourth => SimpleInterval::PerfectFifth,
            SimpleInterval::AugmentedFourth => SimpleInterval::DiminishedFifth,
            SimpleInterval::DiminishedFifth => SimpleInterval::AugmentedFourth,
            SimpleInterval::PerfectFifth => SimpleInterval::PerfectFourth,
            SimpleInterval::MinorSixth => SimpleInterval::MajorThird,
            SimpleInterval::MajorSixth => SimpleInterval::MinorThird,
            SimpleInterval::MinorSeventh => SimpleInterval::MajorSecond,
            SimpleInterval::MajorSeventh => SimpleInterval::MinorSecond,
            SimpleInterval::PerfectOctave => SimpleInterval::PerfectUnison,
            SimpleInterval::DiminishedSecond => SimpleInterval::AugmentedSeventh,
            SimpleInterval::AugmentedUnison => SimpleInterval::DiminishedOctave,
            SimpleInterval::DiminishedThird => SimpleInterval::AugmentedSixth,
            SimpleInterval::AugmentedSecond => SimpleInterval::DiminishedSeventh,
            SimpleInterval::DiminishedFourth => SimpleInterval::AugmentedFifth,
            SimpleInterval::AugmentedThird => SimpleInterval::DiminishedSixth,
            SimpleInterval::DiminishedSixth => SimpleInterval::AugmentedThird,
            SimpleInterval::AugmentedFifth => SimpleInterval::DiminishedFourth,
            SimpleInterval::DiminishedSeventh => SimpleInterval::AugmentedSecond,
            SimpleInterval::AugmentedSixth => SimpleInterval::DiminishedThird,
            SimpleInterval::DiminishedOctave => SimpleInterval::AugmentedUnison,
            SimpleInterval::AugmentedSeventh => SimpleInterval::DiminishedSecond,
        }
    }

    /// Returns the inverse of this interval.
    pub fn inverse(&self) -> (r: SimpleInterval)
        ensures
            r == self.inverted(),
            r.number().ordinal() == 9 - self.number().ordinal(),
            r.qual() == inverted_quality(self.qual()),
            r.semis() == 12 - self.semis(),
    {
        match self {
            SimpleInterval::PerfectUnison => SimpleInterval::PerfectOctave,
            SimpleInterval::MinorSecond => SimpleInterval::MajorSeventh,
            SimpleInterval::MajorSecond => SimpleInterval::MinorSeventh,
            SimpleInterval::MinorThird => SimpleInterval::MajorSixth,
            SimpleInterval::MajorThird => SimpleInterval::MinorSixth,
            SimpleInterval::PerfectFourth => SimpleInterval::PerfectFifth,
            SimpleInterval::AugmentedFourth => SimpleInterval::DiminishedFifth,
            SimpleInterval::DiminishedFifth => SimpleInterval::AugmentedFourth,
            SimpleInterval::PerfectFifth => SimpleInterval::PerfectFourth,
            SimpleInterval::MinorSixth => SimpleInterval::MajorThird,
            SimpleInterval::MajorSixth => SimpleInterval::MinorThird,
            SimpleInterval::MinorSeventh => SimpleInterval::MajorSecond,
            SimpleInterval::MajorSeventh => SimpleInterval::MinorSecond,
            SimpleInterval::PerfectOctave => SimpleInterval::PerfectUnison,
            SimpleInterval::DiminishedSecond => SimpleInterval::AugmentedSeventh,
            SimpleInterval::AugmentedUnison => SimpleInterval::DiminishedOctave,
            SimpleInterval::DiminishedThird => SimpleInterval::AugmentedSixth,
            SimpleInterval::AugmentedSecond => SimpleInterval::DiminishedSeventh,
            SimpleInterval::DiminishedFourth => SimpleInterval::AugmentedFifth,
            SimpleInterval::AugmentedThird => SimpleInterval::DiminishedSixth,
            SimpleInterval::DiminishedSixth => SimpleInterval::AugmentedThird,
            SimpleInterval::AugmentedFifth => SimpleInterval::DiminishedFourth,
            SimpleInterval::DiminishedSeventh => SimpleInterval::AugmentedSecond,
            SimpleInterval::AugmentedSixth => SimpleInterval::DiminishedThird,
            SimpleInterval::DiminishedOctave => SimpleInterval::AugmentedUnison,
            SimpleInterval::AugmentedSeventh => SimpleInterval::DiminishedSecond,
        }
    }

    /// Matches an interval number and a quality to the interval they name.
    pub fn from_quality_and_number(
        quality: IntervalQuality,
        interval_number: SimpleIntervalNumber,
    ) -> (r: Result<SimpleInterval, InvalidSimpleIntervalError>)
        ensures
            match r {
                Ok(i) => quality_number_error(quality, interval_number).is_none() && i.qual()
                    == quality && i.number() == interval_number,
                Err(e) => quality_number_error(quality, interval_number) == Some(e),
            },
    {
        match (interval_number, quality) {
            (SimpleIntervalNumber::Unison, IntervalQuality::Perfect) => {
                Ok(SimpleInterval::PerfectUnison)
            },
            (SimpleIntervalNumber::Unison, IntervalQuality::Major) => {
                Err(InvalidSimpleIntervalError::InvalidMajorNumber)
            },
            (SimpleIntervalNumber::Unison, IntervalQuality::Minor) => {
                Err(InvalidSimpleIntervalError::InvalidMinorNumber)
            },
            (SimpleIntervalNumber::Unison, IntervalQuality::Augmented) => {
                Ok(SimpleInterval::AugmentedUnison)
            },
            (SimpleIntervalNumber::Unison, IntervalQuality::Diminished) => {
                Err(InvalidSimpleIntervalError::InvalidDiminishedNumber)
            },
            (SimpleIntervalNumber::Second, IntervalQuality::Perfect) => {
                Err(InvalidSimpleIntervalError::InvalidPerfectNumber)
            },
            (SimpleIntervalNumber::Second, IntervalQuality::Major) => {
                Ok(SimpleInterval::MajorSecond)
            },
            (SimpleIntervalNumber::Second, IntervalQuality::Minor) => {
                Ok(SimpleInterval::MinorSecond)
            },
            (SimpleIntervalNumber::Second, IntervalQuality::Augmented) => {
                Ok(SimpleInterval::AugmentedSecond)
            },
            (SimpleIntervalNumber::Second, IntervalQuality::Diminished) => {
                Ok(SimpleInterval::DiminishedSecond)
            },
            (SimpleIntervalNumber::Third, IntervalQuality::Perfect) => {
                Err(InvalidSimpleIntervalError::InvalidPerfectNumber)
            },
            (SimpleIntervalNumber::Third, IntervalQuality::Major) => Ok(SimpleInterval::MajorThird),
            (SimpleIntervalNumber::Third, IntervalQuality::Minor) => Ok(SimpleInterval::MinorThird),
            (SimpleIntervalNumber::Third, IntervalQuality::Augmented) => {
                Ok(SimpleInterval::AugmentedThird)
            },
            (SimpleIntervalNumber::Third, IntervalQuality::Diminished) => {
                Ok(SimpleInterval::DiminishedThird)
            },
            (SimpleIntervalNumber::Fourth, IntervalQuality::Perfect) => {
                Ok(SimpleInterval::PerfectFourth)
            },
            (SimpleIntervalNumber::Fourth, IntervalQuality::Major) => {
                Err(InvalidSimpleIntervalError::InvalidMajorNumber)
            },
            (SimpleIntervalNumber::Fourth, IntervalQuality::Minor) => {
                Err(InvalidSimpleIntervalError::InvalidMinorNumber)
            },
            (SimpleIntervalNumber::Fourth, IntervalQuality::Augmented) => {
                Ok(SimpleInterval::AugmentedFourth)
            },
            (SimpleIntervalNumber::Fourth, IntervalQuality::Diminished) => {
                Ok(SimpleInterval::DiminishedFourth)
            },
            (SimpleIntervalNumber::Fifth, IntervalQuality::Perfect) => {
                Ok(SimpleInterval::PerfectFifth)
            },
            (SimpleIntervalNumber::Fifth, IntervalQuality::Major) => {
                Err(InvalidSimpleIntervalError::InvalidMajorNumber)
            },
            (SimpleIntervalNumber::Fifth, IntervalQuality::Minor) => {
                Err(InvalidSimpleIntervalError::InvalidMinorNumber)
            },
            (SimpleIntervalNumber::Fifth, IntervalQuality::Augmented) => {
                Ok(SimpleInterval::AugmentedFifth)
            },
            (SimpleIntervalNumber::Fifth, IntervalQuality::Diminished) => {
                Ok(SimpleInterval::DiminishedFifth)
            },
            (SimpleIntervalNumber::Sixth, IntervalQuality::Perfect) => {
                Err(InvalidSimpleIntervalError::InvalidPerfectNumber)
            },
            (SimpleIntervalNumber::Sixth, IntervalQuality::Major) => Ok(SimpleInterval::MajorSixth),
            (SimpleIntervalNumber::Sixth, IntervalQuality::Minor) => Ok(SimpleInterval::MinorSixth),
            (SimpleIntervalNumber::Sixth, IntervalQuality::Augmented) => {
                Ok(SimpleInterval::AugmentedSixth)
            },
            (SimpleIntervalNumber::Sixth, IntervalQuality::Diminished) => {
                Ok(SimpleInterval::DiminishedSixth)
            },
            (SimpleIntervalNumber::Seventh, IntervalQuality::Perfect) => {
                Err(InvalidSimpleIntervalError::InvalidPerfectNumber)
            },
            (SimpleIntervalNumber::Seventh, IntervalQuality::Major) => {
                Ok(SimpleInterval::MajorSeventh)
            },
            (SimpleIntervalNumber::Seventh, IntervalQuality::Minor) => {
                Ok(SimpleInterval::MinorSeventh)
            },
            (SimpleIntervalNumber::Seventh, IntervalQuality::Augmented) => {
                Ok(SimpleInterval::AugmentedSeventh)
            },
            (SimpleIntervalNumber::Seventh, IntervalQuality::Diminished) => {
                Ok(SimpleInterval::DiminishedSeventh)
            },
            (SimpleIntervalNumber::Octave, IntervalQuality::Perfect) => {
                Ok(SimpleInterval::PerfectOctave)
            },
            (SimpleIntervalNumber::Octave, IntervalQuality::Major) => {
                Err(InvalidSimpleIntervalError::InvalidMajorNumber)
            },
            (SimpleIntervalNumber::Octave, IntervalQuality::Minor) => {
                Err(InvalidSimpleIntervalError::InvalidMinorNumber)
            },
            (SimpleIntervalNumber::Octave, IntervalQuality::Augmented) => {
                Err(InvalidSimpleIntervalError::InvalidAugmentedNumber)
            },
            (SimpleIntervalNumber::Octave, IntervalQuality::Diminished) => {
                Ok(SimpleInterval::DiminishedOctave)
            },
        }
    }

    /// Splits a semitone count into an interval and a count of octaves.
    pub fn from_semitones(semitones: Semitone) -> (r: SimpleIntervalFromSemitones)
        ensures
            r == decompose(semitones as int),
    {
        SimpleIntervalFromSemitones::new(semitones)
    }

    /// This interval's semitones plus `semitones`, split into an interval
    /// and a count of octaves.
    pub fn add_semitones(&self, semitones: Semitone) -> (r: SimpleIntervalFromSemitones)
        requires
            self.semis() + semitones <= i32::MAX,
        ensures
            r == decompose(self.semis() + semitones),
    {
        SimpleIntervalFromSemitones::new(self.semitones()).add_semitones(semitones)
    }
}

/// Why `quality` and `number` name no interval, if they name one.
pub open spec fn quality_number_error(
    quality: IntervalQuality,
    number: SimpleIntervalNumber,
) -> Option<InvalidSimpleIntervalError> {
    match quality {
        IntervalQuality::Perfect => if number.is_perfect_kind() {
            None
        } else {
            Some(InvalidSimpleIntervalError::InvalidPerfectNumber)
        },
        IntervalQuality::Major => if number.is_perfect_kind() {
            Some(InvalidSimpleIntervalError::InvalidMajorNumber)
        } else {
            None
        },
        IntervalQuality::Minor => if number.is_perfect_kind() {
            Some(InvalidSimpleIntervalError::InvalidMinorNumber)
        } else {
            None
        },
        IntervalQuality::Augmented => if number == SimpleIntervalNumber::Octave {
            Some(InvalidSimpleIntervalError::InvalidAugmentedNumber)
        } else {
            None
        },
        IntervalQuality::Diminished => if number == SimpleIntervalNumber::Unison {
            Some(InvalidSimpleIntervalError::InvalidDiminishedNumber)
        } else {
            None
        },
    }
}

/// An arbitrary semitone count as an interval of at most one octave plus a
/// signed count of whole octaves.
#[derive(Debug, Clone, Copy, PartialEq, Eq, Structural)]
pub struct SimpleIntervalFromSemitones {
    /// How many whole octaves the count spans beyond the interval.
    pub octave_overflow: i32,
    pub interval: SimpleInterval,
}

/// The in-octave part of a semitone count: 12 stays an octave, every other
/// count is taken modulo 12 into 0..=11 (rounding down for negatives).
pub open spec fn simple_rem(semitones: int) -> int {
    if semitones == 12 {
        12
    } else {
        semitones % 12
    }
}

/// The whole octaves of a semitone count that `simple_rem` leaves out.
pub open spec fn simple_overflow(semitones: int) -> int {
    if semitones == 12 {
        0
    } else {
        semitones / 12
    }
}

/// The canonical split of a semitone count.
pub open spec fn decompose(semitones: int) -> SimpleIntervalFromSemitones {
    SimpleIntervalFromSemitones {
        octave_overflow: simple_overflow(semitones) as i32,
        interval: SimpleInterval::plain_for(simple_rem(semitones)),
    }
}

impl SimpleIntervalFromSemitones {
    /// The semitone count this split stands for.
    pub open spec fn total(self) -> int {
        self.octave_overflow * 12 + self.interval.semis()
    }

    /// Splits `semitones` into an interval and whole octaves.
    pub fn new(semitones: Semitone) -> (r: Self)
        ensures
            r == decompose(semitones as int),
            r.octave_overflow == simple_overflow(semitones as int),
            r.total() == semitones,
    {
        if semitones == 0 {
            return SimpleIntervalFromSemitones {
                interval: SimpleInterval::PerfectUnison,
                octave_overflow: 0,
            };
        }
        if semitones == 12 {
            return SimpleIntervalFromSemitones {
                interval: SimpleInterval::PerfectOctave,
                octave_overflow: 0,
            };
        }
        let octaves: i32 = match semitones.checked_div_euclid(12) {
            Some(o) => o,
            None => 0,
        };
        let remaining: i32 = match semitones.checked_rem_euclid(12) {
            Some(m) => m,
            None => 0,
        };
        let interval = match remaining {
            0 => SimpleInterval::PerfectUnison,
            1 => SimpleInterval::MinorSecond,
            2 => SimpleInterval::MajorSecond,
            3 => SimpleInterval::MinorThird,
            4 => SimpleInterval::MajorThird,
            5 => SimpleInterval::PerfectFourth,
            6 => SimpleInterval::DiminishedFifth,
            7 => SimpleInterval::PerfectFifth,
            8 => SimpleInterval::MinorSixth,
            9 => SimpleInterval::MajorSixth,
            10 => SimpleInterval::MinorSeventh,
            11 => SimpleInterval::MajorSeventh,
            _ => SimpleInterval::PerfectOctave,
        };
        SimpleIntervalFromSemitones { interval, octave_overflow: octaves }
    }

    /// Adds `semitones` to the interval part and splits the sum again,
    /// accumulating the octaves.
    pub fn add_semitones(&self, semitones: Semitone) -> (r: Self)
        requires
            self.interval.semis() + semitones <= i32::MAX,
            i32::MIN <= self.octave_overflow + simple_overflow(self.interval.semis() + semitones)
                <= i32::MAX,
        ensures
            r.interval == decompose(self.interval.semis() + semitones).interval,
            r.octave_overflow == self.octave_overflow + simple_overflow(
                self.interval.semis() + semitones,
            ),
            r.total() == self.total() + semitones,
    {
        let sum: i32 = self.interval.semitones() + semitones;
        let split = Self::new(sum);
        SimpleIntervalFromSemitones {
            interval: split.interval,
            octave_overflow: self.octave_overflow + split.octave_overflow,
        }
    }

    /// The semitone count this split stands for.
    pub fn semitones(&self) -> (r: Semitone)
        requires
            i32::MIN <= self.total() <= i32::MAX,
        ensures
            r == self.total(),
    {
        let wide: i64 = self.interval.semitones() as i64 + self.octave_overflow as i64 * 12;
        wide as i32
    }
}

/// Splitting any semitone count and recombining the parts gives the count
/// back.
pub proof fn lemma_decompose_recombines(semitones: int)
    requires
        i32::MIN <= semitones <= i32::MAX,
    ensures
        decompose(semitones).total() == semitones,
        0 <= decompose(semitones).interval.semis() <= 12,
{
    if semitones != 12 {
        assert(semitones == (semitones / 12) * 12 + semitones % 12);
    }
}

/// Inverting twice gives the interval back, and an interval's number and
/// its inversion's number add up to nine.
pub proof fn lemma_inversion_involutive(x: SimpleInterval)
    ensures
        x.inverted().inverted() == x,
        x.number().ordinal() + x.inverted().number().ordinal() == 9,
        x.inverted().qual() == inverted_quality(x.qual()),
{
}

/// Two spellings of one semitone count never share a quality.
pub proof fn lemma_spelling_unique(j: SimpleInterval, k: SimpleInterval)
    requires
        j.semis() == k.semis(),
        j.qual() == k.qual(),
    ensures
        j == k,
{
}

/// The spelling of `i`'s semitone count with quality `q`, or `i` itself
/// when no such spelling exists.
pub open spec fn biased(i: SimpleInterval, q: IntervalQuality) -> SimpleInterval {
    if exists|j: SimpleInterval| j.semis() == i.semis() && j.qual() == q {
        choose|j: SimpleInterval| j.semis() == i.semis() && j.qual() == q
    } else {
        i
    }
}

/// Given an input interval, returns its enharmonic equivalent of quality
/// `bias_quality` if there is one, and the input unchanged otherwise.
pub fn bias_simple_interval_quality(
    input_interval: SimpleInterval,
    bias_quality: IntervalQuality,
) -> (r: SimpleInterval)
    ensures
        r == biased(input_interval, bias_quality),
        r.semis() == input_interval.semis(),
        r.qual() == bias_quality || r == input_interval,
        r.qual() != bias_quality ==> forall|j: SimpleInterval|
            j.semis() == input_interval.semis() ==> j.qual() != bias_quality,
{
    let r = bias_table(input_interval, bias_quality);
    proof {
        if exists|j: SimpleInterval| j.semis() == input_interval.semis() && j.qual() == bias_quality {
            let j = choose|j: SimpleInterval| j.semis() == input_interval.semis() && j.qual() == bias_quality;
            lemma_spelling_unique(j, r);
        }
    }
    r
}

fn bias_table(input_interval: SimpleInterval, bias_quality: IntervalQuality) -> (r: SimpleInterval)
    ensures
        r.semis() == input_interval.semis(),
        r.qual() == bias_quality || r == input_interval,
        r.qual() != bias_quality ==> forall|j: SimpleInterval|
            j.semis() == input_interval.semis() ==> j.qual() != bias_quality,
{
    if input_interval.quality() == bias_quality {
        return input_interval;
    }
    match bias_quality {
        IntervalQuality::Perfect => match input_interval {
            SimpleInterval::DiminishedSecond => SimpleInterval::PerfectUnison,
            SimpleInterval::AugmentedThird => SimpleInterval::PerfectFourth,
            SimpleInterval::DiminishedSixth => SimpleInterval::PerfectFifth,
            SimpleInterval::AugmentedSeventh => SimpleInterval::PerfectOctave,
            _ => input_interval,
        },
        IntervalQuality::Major => match input_interval {
            SimpleInterval::DiminishedThird => SimpleInterval::MajorSecond,
            SimpleInterval::DiminishedFourth => SimpleInterval::MajorThird,
            SimpleInterval::DiminishedSeventh => SimpleInterval::MajorSixth,
            SimpleInterval::DiminishedOctave => SimpleInterval::MajorSeventh,
            _ => input_interval,
        },
        IntervalQuality::Minor => match input_interval {
            SimpleInterval::AugmentedUnison => SimpleInterval::MinorSecond,
            SimpleInterval::AugmentedSecond => SimpleInterval::MinorThird,
            SimpleInterval::AugmentedFifth => SimpleInterval::MinorSixth,
            SimpleInterval::AugmentedSixth => SimpleInterval::MinorSeventh,
            _ => input_interval,
        },
        IntervalQuality::Augmented => match input_interval {
            SimpleInterval::MinorSecond => SimpleInterval::AugmentedUnison,
            SimpleInterval::MinorThird => SimpleInterval::AugmentedSecond,
            SimpleInterval::PerfectFourth => SimpleInterval::AugmentedThird,
            SimpleInterval::DiminishedFifth => SimpleInterval::AugmentedFourth,
            SimpleInterval::MinorSixth => SimpleInterval::AugmentedFifth,
            SimpleInterval::MinorSeventh => SimpleInterval::AugmentedSixth,
            SimpleInterval::PerfectOctave => SimpleInterval::AugmentedSeventh,
            _ => input_interval,
        },
        IntervalQuality::Diminished => match input_interval {
            SimpleInterval::PerfectUnison => SimpleInterval::DiminishedSecond,
            SimpleInterval::MajorSecond => SimpleInterval::DiminishedThird,
            SimpleInterval::MajorThird => SimpleInterval::DiminishedFourth,
            SimpleInterval::AugmentedFourth => SimpleInterval::DiminishedFifth,
            SimpleInterval::PerfectFifth => SimpleInterval::DiminishedSixth,
            SimpleInterval::MajorSixth => SimpleInterval::DiminishedSeventh,
            SimpleInterval::MajorSeventh => SimpleInterval::DiminishedOctave,
            _ => input_interval,
        },
    }
}

impl core::ops::Add<Semitone> for SimpleInterval {
    type Output = SimpleInterval;

    /// Adds semitones and spells the result with this interval's quality
    /// where possible.
    fn add(self, rhs: Semitone) -> (r: SimpleInterval) {
        bias_simple_interval_quality(self.add_semitones(rhs).interval, self.quality())
    }
}

impl vstd::std_specs::ops::AddSpecImpl<Semitone> for SimpleInterval {
    open spec fn obeys_add_spec() -> bool {
        true
    }

    open spec fn add_req(self, rhs: Semitone) -> bool {
        self.semis() + rhs <= i32::MAX
    }

    open spec fn add_spec(self, rhs: Semitone) -> SimpleInterval {
        biased(decompose(self.semis() + rhs).interval, self.qual())
    }
}

impl core::ops::Add<SimpleInterval> for SimpleInterval {
    type Output = SimpleInterval;

    /// Stacks two intervals, keeping the left one's quality where possible.
    fn add(self, rhs: SimpleInterval) -> (r: SimpleInterval) {
        bias_simple_interval_quality(self.add_semitones(rhs.semitones()).interval, self.quality())
    }
}

impl vstd::std_specs::ops::AddSpecImpl<SimpleInterval> for SimpleInterval {
    open spec fn obeys_add_spec() -> bool {
        true
    }

    open spec fn add_req(self, rhs: SimpleInterval) -> bool {
        true
    }

    open spec fn add_spec(self, rhs: SimpleInterval) -> SimpleInterval {
        biased(decompose(self.semis() + rhs.semis()).interval, self.qual())
    }
}

impl core::ops::Sub<Semitone> for SimpleInterval {
    type Output = SimpleInterval;

    /// Takes semitones away, keeping this interval's quality where possible.
    fn sub(self, rhs: Semitone) -> (r: SimpleInterval) {
        bias_simple_interval_quality(self.add_semitones(-rhs).interval, self.quality())
    }
}

impl vstd::std_specs::ops::SubSpecImpl<Semitone> for SimpleInterval {
    open spec fn obeys_sub_spec() -> bool {
        true
    }

    open spec fn sub_req(self, rhs: Semitone) -> bool {
        rhs > i32::MIN && self.semis() - rhs <= i32::MAX
    }

    open spec fn sub_spec(self, rhs: Semitone) -> SimpleInterval {
        biased(decompose(self.semis() - rhs).interval, self.qual())
    }
}

impl core::ops::Sub<SimpleInterval> for SimpleInterval {
    type Output = SimpleInterval;

    /// Takes one interval from another, keeping the left one's quality
    /// where possible.
    fn sub(self, rhs: SimpleInterval) -> (r: SimpleInterval) {
        bias_simple_interval_quality(self.add_semitones(-rhs.semitones()).interval, self.quality())
    }
}

impl vstd::std_specs::ops::SubSpecImpl<SimpleInterval> for SimpleInterval {
    open spec fn obeys_sub_spec() -> bool {
        true
    }

    open spec fn sub_req(self, rhs: SimpleInterval) -> bool {
        true
    }

    open spec fn sub_spec(self, rhs: SimpleInterval) -> SimpleInterval {
        biased(decompose(self.semis() - rhs.semis()).interval, self.qual())
    }
}

impl SimpleInterval {
    /// Position in the listing order, smallest first (0 to 25).
    pub open spec fn rank_spec(self) -> int {
        match self {
            SimpleInterval::PerfectUnison => 0,
            SimpleInterval::DiminishedSecond => 1,
            SimpleInterval::AugmentedUnison => 2,
            SimpleInterval::MinorSecond => 3,
            SimpleInterval::MajorSecond => 4,
            SimpleInterval::DiminishedThird => 5,
            SimpleInterval::AugmentedSecond => 6,
            SimpleInterval::MinorThird => 7,
            SimpleInterval::MajorThird => 8,
            SimpleInterval::DiminishedFourth => 9,
            SimpleInterval::AugmentedThird => 10,
            SimpleInterval::PerfectFourth => 11,
            SimpleInterval::DiminishedFifth => 12,
            SimpleInterval::AugmentedFourth => 13,
            SimpleInterval::PerfectFifth => 14,
            SimpleInterval::DiminishedSixth => 15,
            SimpleInterval::AugmentedFifth => 16,
            SimpleInterval::MinorSixth => 17,
            SimpleInterval::MajorSixth => 18,
            SimpleInterval::DiminishedSeventh => 19,
            SimpleInterval::AugmentedSixth => 20,
            SimpleInterval::MinorSeventh => 21,
            SimpleInterval::MajorSeventh => 22,
            SimpleInterval::DiminishedOctave => 23,
            SimpleInterval::AugmentedSeventh => 24,
            SimpleInterval::PerfectOctave => 25,
        }
    }

    /// Position in the listing order, smallest first (0 to 25).
    pub fn rank(&self) -> (r: u8)
        ensures
            r == self.rank_spec(),
    {
        match self {
            SimpleInterval::PerfectUnison => 0,
            SimpleInterval::DiminishedSecond => 1,
            SimpleInterval::AugmentedUnison => 2,
            SimpleInterval::MinorSecond => 3,
            SimpleInterval::MajorSecond => 4,
            SimpleInterval::DiminishedThird => 5,
            SimpleInterval::AugmentedSecond => 6,
            SimpleInterval::MinorThird => 7,
            SimpleInterval::MajorThird => 8,
            SimpleInterval::DiminishedFourth => 9,
            SimpleInterval::AugmentedThird => 10,
            SimpleInterval::PerfectFourth => 11,
            SimpleInterval::DiminishedFifth => 12,
            SimpleInterval::AugmentedFourth => 13,
            SimpleInterval::PerfectFifth => 14,
            SimpleInterval::DiminishedSixth => 15,
            SimpleInterval::AugmentedFifth => 16,
            SimpleInterval::MinorSixth => 17,
            SimpleInterval::MajorSixth => 18,
            SimpleInterval::DiminishedSeventh => 19,
            SimpleInterval::AugmentedSixth => 20,
            SimpleInterval::MinorSeventh => 21,
            SimpleInterval::MajorSeventh => 22,
            SimpleInterval::DiminishedOctave => 23,
            SimpleInterval::AugmentedSeventh => 24,
            SimpleInterval::PerfectOctave => 25,
        }
    }
}

/// Two intervals with one rank are one interval.
pub proof fn lemma_rank_injective(j: SimpleInterval, k: SimpleInterval)
    requires
        j.rank_spec() == k.rank_spec(),
    ensures
        j == k,
{
}

/// Qualities ordered by how wide they make an interval of one number:
/// diminished, minor, major, augmented for seconds, thirds, sixths and
/// sevenths; diminished, perfect, augmented for the others. Perfect and
/// major or minor never share a number, so they do not compare.
pub open spec fn quality_order(a: IntervalQuality, b: IntervalQuality) -> Option<core::cmp::Ordering> {
    if a == b {
        Some(core::cmp::Ordering::Equal)
    } else if (a == IntervalQuality::Perfect && (b == IntervalQuality::Major || b
        == IntervalQuality::Minor)) || (b == IntervalQuality::Perfect && (a == IntervalQuality::Major
        || a == IntervalQuality::Minor)) {
        None
    } else if quality_width(a) < quality_width(b) {
        Some(core::cmp::Ordering::Less)
    } else {
        Some(core::cmp::Ordering::Greater)
    }
}

/// Width of a quality: diminished 0, minor 1, perfect 2, major 3, augmented 4.
pub open spec fn quality_width(q: IntervalQuality) -> int {
    match q {
        IntervalQuality::Diminished => 0,
        IntervalQuality::Minor => 1,
        IntervalQuality::Perfect => 2,
        IntervalQuality::Major => 3,
        IntervalQuality::Augmented => 4,
    }
}

impl PartialOrd for IntervalQuality {
    fn partial_cmp(&self, other: &Self) -> (r: Option<core::cmp::Ordering>) {
        match self {
            IntervalQuality::Perfect => match other {
                IntervalQuality::Perfect => Some(core::cmp::Ordering::Equal),
                IntervalQuality::Major | IntervalQuality::Minor => None,
                IntervalQuality::Augmented => Some(core::cmp::Ordering::Less),
                IntervalQuality::Diminished => Some(core::cmp::Ordering::Greater),
            },
            IntervalQuality::Major => match other {
                IntervalQuality::Major => Some(core::cmp::Ordering::Equal),
                IntervalQuality::Perfect => None,
                IntervalQuality::Minor | IntervalQuality::Diminished => {
                    Some(core::cmp::Ordering::Greater)
                },
                IntervalQuality::Augmented => Some(core::cmp::Ordering::Less),
            },
            IntervalQuality::Minor => match other {
                IntervalQuality::Minor => Some(core::cmp::Ordering::Equal),
                IntervalQuality::Perfect => None,
                IntervalQuality::Major | IntervalQuality::Augmented => {
                    Some(core::cmp::Ordering::Less)
                },
                IntervalQuality::Diminished => Some(core::cmp::Ordering::Greater),
            },
            IntervalQuality::Augmented => match other {
                IntervalQuality::Augmented => Some(core::cmp::Ordering::Equal),
                _ => Some(core::cmp::Ordering::Greater),
            },
            IntervalQuality::Diminished => match other {
                IntervalQuality::Diminished => Some(core::cmp::Ordering::Equal),
                _ => Some(core::cmp::Ordering::Less),
            },
        }
    }
}

impl vstd::std_specs::cmp::PartialOrdSpecImpl for IntervalQuality {
    open spec fn obeys_partial_cmp_spec() -> bool {
        true
    }

    open spec fn partial_cmp_spec(&self, other: &IntervalQuality) -> Option<core::cmp::Ordering> {
        quality_order(*self, *other)
    }
}

impl From<SimpleInterval> for Semitone {
    fn from(value: SimpleInterval) -> (r: Semitone) {
        value.semitones()
    }
}

impl vstd::std_specs::convert::FromSpecImpl<SimpleInterval> for Semitone {
    open spec fn obeys_from_spec() -> bool {
        true
    }

    open spec fn from_spec(value: SimpleInterval) -> Semitone {
        value.semis() as i32
    }
}

} // verus!
