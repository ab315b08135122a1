use vstd::prelude::*;
use vstd::string::StringExecFns;

use crate::abstract_note::AbstractNote;
use crate::chord_context::ChordContext;
use crate::compound_interval::{stack_steps, CompoundInterval, Interval, OtherCompoundInterval};
use crate::interval::{IntervalQuality, SimpleInterval, SimpleIntervalNumber};
use crate::note::Note;

verus! {

/// The decimal digits of `n`, with a leading '-' when negative.
pub open spec fn decimal(n: int) -> Seq<char>
    decreases (if n < 0 { -n + 1 } else { n }),
{
    if n < 0 {
        seq!['-'] + decimal(-n)
    } else if n < 10 {
        seq![digit_char(n)]
    } else {
        decimal(n / 10) + seq![digit_char(n % 10)]
    }
}

pub open spec fn digit_char(d: int) -> char {
    if d == 0 { '0' } else if d == 1 { '1' } else if d == 2 { '2' } else if d == 3 { '3' }
    else if d == 4 { '4' } else if d == 5 { '5' } else if d == 6 { '6' } else if d == 7 { '7' }
    else if d == 8 { '8' } else { '9' }
}

fn digit_str(d: u32) -> (r: &'static str)
    requires
        d < 10,
    ensures
        r@ == seq![digit_char(d as int)],
{
    let r = match d {
        0 => "0",
        1 => "1",
        2 => "2",
        3 => "3",
        4 => "4",
        5 => "5",
        6 => "6",
        7 => "7",
        8 => "8",
        9 => "9",
        _ => "9",
    };
    proof {
        reveal_strlit("0");
        reveal_strlit("1");
        reveal_strlit("2");
        reveal_strlit("3");
        reveal_strlit("4");
        reveal_strlit("5");
        reveal_strlit("6");
        reveal_strlit("7");
        reveal_strlit("8");
        reveal_strlit("9");
    }
    r
}

fn natural_decimal(n: u32) -> (r: String)
    ensures
        r@ == decimal(n as int),
    decreases n,
{
    if n < 10 {
        String::from_str(digit_str(n))
    } else {
        let mut head = natural_decimal(n / 10);
        head.append(digit_str(n % 10));
        head
    }
}

/// `n` written in decimal.
pub fn decimal_string(n: i32) -> (r: String)
    ensures
        r@ == decimal(n as int),
{
    if n < 0 {
        let magnitude: u32 = if n == i32::MIN {
            2147483648u32
        } else {
            (-n) as u32
        };
        let mut s = String::from_str("-");
        let digits = natural_decimal(magnitude);
        proof {
            reveal_strlit("-");
        }
        s.append(digits.as_str());
        s
    } else {
        natural_decimal(n as u32)
    }
}

impl SimpleInterval {
    pub open spec fn short_name_spec(self) -> &'static str {
        match self {
            SimpleInterval::PerfectUnison => "PU",
            SimpleInterval::DiminishedSecond => "d2",
            SimpleInterval::AugmentedUnison => "A1",
            SimpleInterval::MinorSecond => "m2",
            SimpleInterval::MajorSecond => "M2",
            SimpleInterval::DiminishedThird => "d3",
            SimpleInterval::AugmentedSecond => "A2",
            SimpleInterval::MinorThird => "m3",
            SimpleInterval::MajorThird => "M3",
            SimpleInterval::DiminishedFourth => "d4",
            SimpleInterval::AugmentedThird => "A3",
            SimpleInterval::PerfectFourth => "P4",
            SimpleInterval::DiminishedFifth => "d5",
            SimpleInterval::AugmentedFourth => "A4",
            SimpleInterval::PerfectFifth => "P5",
            SimpleInterval::DiminishedSixth => "d6",
            SimpleInterval::AugmentedFifth => "A5",
            SimpleInterval::MinorSixth => "m6",
            SimpleInterval::MajorSixth => "M6",
            SimpleInterval::DiminishedSeventh => "d7",
            SimpleInterval::AugmentedSixth => "A6",
            SimpleInterval::MinorSeventh => "m7",
            SimpleInterval::MajorSeventh => "M7",
            SimpleInterval::DiminishedOctave => "d8",
            SimpleInterval::AugmentedSeventh => "A7",
            SimpleInterval::PerfectOctave => "P8",
        }
    }

    pub open spec fn long_name_spec(self) -> &'static str {
        match self {
            SimpleInterval::PerfectUnison => "Perfect Unison",
            SimpleInterval::DiminishedSecond => "Diminished Second",
            SimpleInterval::AugmentedUnison => "Augmented Unison",
            SimpleInterval::MinorSecond => "Minor Second",
            SimpleInterval::MajorSecond => "Major Second",
            SimpleInterval::DiminishedThird => "Diminished Third",
            SimpleInterval::AugmentedSecond => "Augmented Second",
            SimpleInterval::MinorThird => "Minor Third",
            SimpleInterval::MajorThird => "Major Third",
            SimpleInterval::DiminishedFourth => "Diminished Fourth",
            SimpleInterval::AugmentedThird => "Augmented Third",
            SimpleInterval::PerfectFourth => "Perfect Fourth",
            SimpleInterval::DiminishedFifth => "Diminished Fifth",
            SimpleInterval::AugmentedFourth => "Augmented Fourth",
            SimpleInterval::PerfectFifth => "Perfect Fifth",
            SimpleInterval::DiminishedSixth => "Diminished Sixth",
            SimpleInterval::AugmentedFifth => "Augmented Fifth",
            SimpleInterval::MinorSixth => "Minor Sixth",
            SimpleInterval::MajorSixth => "Major Sixth",
            SimpleInterval::DiminishedSeventh => "Diminished Seventh",
            SimpleInterval::AugmentedSixth => "Augmented Sixth",
            SimpleInterval::MinorSeventh => "Minor Seventh",
            SimpleInterval::MajorSeventh => "Major Seventh",
            SimpleInterval::DiminishedOctave => "Diminished Octave",
            SimpleInterval::AugmentedSeventh => "Augmented Seventh",
            SimpleInterval::PerfectOctave => "Perfect Octave",
        }
    }

    /// The symbol of the interval ("m3", "P5", "PU").
    pub fn short_name(&self) -> (r: &'static str)
        ensures
            r == self.short_name_spec(),
    {
        match self {
            SimpleInterval::PerfectUnison => "PU",
            SimpleInterval::DiminishedSecond => "d2",
            SimpleInterval::AugmentedUnison => "A1",
            SimpleInterval::MinorSecond => "m2",
            SimpleInterval::MajorSecond => "M2",
            SimpleInterval::DiminishedThird => "d3",
            SimpleInterval::AugmentedSecond => "A2",
            SimpleInterval::MinorThird => "m3",
            SimpleInterval::MajorThird => "M3",
            SimpleInterval::DiminishedFourth => "d4",
            SimpleInterval::AugmentedThird => "A3",
            SimpleInterval::PerfectFourth => "P4",
            SimpleInterval::DiminishedFifth => "d5",
            SimpleInterval::AugmentedFourth => "A4",
            SimpleInterval::PerfectFifth => "P5",
            SimpleInterval::DiminishedSixth => "d6",
            SimpleInterval::AugmentedFifth => "A5",
            SimpleInterval::MinorSixth => "m6",
            SimpleInterval::MajorSixth => "M6",
            SimpleInterval::DiminishedSeventh => "d7",
            SimpleInterval::AugmentedSixth => "A6",
            SimpleInterval::MinorSeventh => "m7",
            SimpleInterval::MajorSeventh => "M7",
            SimpleInterval::DiminishedOctave => "d8",
            SimpleInterval::AugmentedSeventh => "A7",
            SimpleInterval::PerfectOctave => "P8",
        }
    }

    /// The name of the interval ("Minor Third").
    pub fn long_name(&self) -> (r: &'static str)
        ensures
            r == self.long_name_spec(),
    {
        match self {
            SimpleInterval::PerfectUnison => "Perfect Unison",
            SimpleInterval::DiminishedSecond => "Diminished Second",
            SimpleInterval::AugmentedUnison => "Augmented Unison",
            SimpleInterval::MinorSecond => "Minor Second",
            SimpleInterval::MajorSecond => "Major Second",
            SimpleInterval::DiminishedThird => "Diminished Third",
            SimpleInterval::AugmentedSecond => "Augmented Second",
            SimpleInterval::MinorThird => "Minor Third",
            SimpleInterval::MajorThird => "Major Third",
            SimpleInterval::DiminishedFourth => "Diminished Fourth",
            SimpleInterval::AugmentedThird => "Augmented Third",
            SimpleInterval::PerfectFourth => "Perfect Fourth",
            SimpleInterval::DiminishedFifth => "Diminished Fifth",
            SimpleInterval::AugmentedFourth => "Augmented Fourth",
            SimpleInterval::PerfectFifth => "Perfect Fifth",
            SimpleInterval::DiminishedSixth => "Diminished Sixth",
            SimpleInterval::AugmentedFifth => "Augmented Fifth",
            SimpleInterval::MinorSixth => "Minor Sixth",
            SimpleInterval::MajorSixth => "Major Sixth",
            SimpleInterval::DiminishedSeventh => "Diminished Seventh",
            SimpleInterval::AugmentedSixth => "Augmented Sixth",
            SimpleInterval::MinorSeventh => "Minor Seventh",
            SimpleInterval::MajorSeventh => "Major Seventh",
            SimpleInterval::DiminishedOctave => "Diminished Octave",
            SimpleInterval::AugmentedSeventh => "Augmented Seventh",
            SimpleInterval::PerfectOctave => "Perfect Octave",
        }
    }
}

impl IntervalQuality {
    pub open spec fn symbol_spec(self) -> &'static str {
        match self {
            IntervalQuality::Perfect => "P",
            IntervalQuality::Major => "M",
            IntervalQuality::Minor => "m",
            IntervalQuality::Augmented => "A",
            IntervalQuality::Diminished => "d",
        }
    }

    pub open spec fn name_spec(self) -> &'static str {
        match self {
            IntervalQuality::Perfect => "Perfect",
            IntervalQuality::Major => "Major",
            IntervalQuality::Minor => "Minor",
            IntervalQuality::Augmented => "Augmented",
            IntervalQuality::Diminished => "Diminished",
        }
    }

    /// The quality's letter ("P", "M", "m", "A", "d").
    pub fn symbol(&self) -> (r: &'static str)
        ensures
            r == self.symbol_spec(),
    {
        match self {
            IntervalQuality::Perfect => "P",
            IntervalQuality::Major => "M",
            IntervalQuality::Minor => "m",
            IntervalQuality::Augmented => "A",
            IntervalQuality::Diminished => "d",
        }
    }

    /// The quality's name ("Perfect", "Major", ...).
    pub fn name(&self) -> (r: &'static str)
        ensures
            r == self.name_spec(),
    {
        match self {
            IntervalQuality::Perfect => "Perfect",
            IntervalQuality::Major => "Major",
            IntervalQuality::Minor => "Minor",
            IntervalQuality::Augmented => "Augmented",
            IntervalQuality::Diminished => "Diminished",
        }
    }
}

impl SimpleIntervalNumber {
    pub open spec fn name_spec(self) -> &'static str {
        match self {
            SimpleIntervalNumber::Unison => "Unison",
            SimpleIntervalNumber::Second => "Second",
            SimpleIntervalNumber::Third => "Third",
            SimpleIntervalNumber::Fourth => "Fourth",
            SimpleIntervalNumber::Fifth => "Fifth",
            SimpleIntervalNumber::Sixth => "Sixth",
            SimpleIntervalNumber::Seventh => "Seventh",
            SimpleIntervalNumber::Octave => "Octave",
        }
    }

    /// The number's name ("Unison" .. "Octave").
    pub fn name(&self) -> (r: &'static str)
        ensures
            r == self.name_spec(),
    {
        match self {
            SimpleIntervalNumber::Unison => "Unison",
            SimpleIntervalNumber::Second => "Second",
            SimpleIntervalNumber::Third => "Third",
            SimpleIntervalNumber::Fourth => "Fourth",
            SimpleIntervalNumber::Fifth => "Fifth",
            SimpleIntervalNumber::Sixth => "Sixth",
            SimpleIntervalNumber::Seventh => "Seventh",
            SimpleIntervalNumber::Octave => "Octave",
        }
    }
}

impl OtherCompoundInterval {
    /// The quality letter of the top interval followed by the diatonic
    /// number, as in "M10".
    pub fn notation(&self) -> (r: String)
        requires
            1 + stack_steps(self.stack()) <= i32::MAX,
        ensures
            r@ == self.top_spec().qual().symbol_spec()@ + decimal(1 + stack_steps(self.stack())),
    {
        let mut s = String::from_str(self.quality().symbol());
        let number = decimal_string(self.diatonic_number());
        s.append(number.as_str());
        s
    }
}

impl CompoundInterval {
    /// The fixed name of a named compound interval, short or verbose.
    pub open spec fn fixed_name(&self, verbose: bool) -> Option<&'static str> {
        match self {
            CompoundInterval::DiminishedNinth => Some(if verbose { "Diminished Ninth" } else { "d9" }),
            CompoundInterval::MinorNinth => Some(if verbose { "Minor Ninth" } else { "m9" }),
            CompoundInterval::AugmentedOctave => Some(if verbose { "Augmented Octave" } else { "A8" }),
            CompoundInterval::MajorNinth => Some(if verbose { "Major Ninth" } else { "M9" }),
            CompoundInterval::DiminishedTenth => Some(if verbose { "Diminished Tenth" } else { "d10" }),
            CompoundInterval::MinorTenth => Some(if verbose { "Minor Tenth" } else { "m10" }),
            CompoundInterval::AugmentedNinth => Some(if verbose { "Augmented Ninth" } else { "A9" }),
            CompoundInterval::MajorTenth => Some(if verbose { "Major Tenth" } else { "M10" }),
            CompoundInterval::DiminishedEleventh => Some(if verbose { "Diminished Eleventh" } else { "d11" }),
            CompoundInterval::PerfectEleventh => Some(if verbose { "Perfect Eleventh" } else { "P11" }),
            CompoundInterval::AugmentedTenth => Some(if verbose { "Augmented Tenth" } else { "A10" }),
            CompoundInterval::DiminishedTweltfth => Some(if verbose { "Diminished Twelfth" } else { "d12" }),
            CompoundInterval::AuthmentedEleventh => Some(if verbose { "Augmented Eleventh" } else { "A11" }),
            CompoundInterval::PerfectTwelfth => Some(if verbose { "Perfect Twelfth" } else { "P12" }),
            CompoundInterval::DiminishedThirteenth => Some(if verbose { "Diminished Thirteenth" } else { "d13" }),
            CompoundInterval::MinorThirteenth => Some(if verbose { "Minor Thirteenth" } else { "m13" }),
            CompoundInterval::AugmentedTwelfth => Some(if verbose { "Augmented Twelfth" } else { "A12" }),
            CompoundInterval::MajorThirteenth => Some(if verbose { "Major Thirteenth" } else { "M13" }),
            CompoundInterval::DiminishedFourteenth => Some(if verbose { "Diminished Fourteenth" } else { "d14" }),
            CompoundInterval::MinorFourteenth => Some(if verbose { "Minor Fourteenth" } else { "m14" }),
            CompoundInterval::AugmentedThirteenth => Some(if verbose { "Augmented Thirteenth" } else { "A13" }),
            CompoundInterval::MajorFourteenth => Some(if verbose { "Major Fourteenth" } else { "M14" }),
            CompoundInterval::DiminishedFifteenth => Some(if verbose { "Diminished Fifteenth" } else { "d15" }),
            CompoundInterval::PerfectFifteenth => Some(if verbose { "Perfect Fifteenth" } else { "P15" }),
            CompoundInterval::AugmentedFourteenth => Some(if verbose { "Augmented Fourteenth" } else { "A14" }),
            CompoundInterval::AugmentedFifteenth => Some(if verbose { "Augmented Fifteenth" } else { "A15" }),
            CompoundInterval::Other(_) => None,
        }
    }

    /// The symbol ("m9") or, when `verbose`, the name ("Minor Ninth"); a
    /// stack without a name reads as its top quality and diatonic number in
    /// both forms.
    pub fn notation(&self, verbose: bool) -> (r: String)
        requires
            self.fits(),
        ensures
            self.fixed_name(verbose) matches Some(name) ==> r@ == name@,
            self matches CompoundInterval::Other(other) ==> r@ == other.top_spec().qual().symbol_spec()@
                + decimal(1 + stack_steps(other.stack())),
    {
        let fixed: Option<&'static str> = match self {
            CompoundInterval::DiminishedNinth => Some(if verbose { "Diminished Ninth" } else { "d9" }),
            CompoundInterval::MinorNinth => Some(if verbose { "Minor Ninth" } else { "m9" }),
            CompoundInterval::AugmentedOctave => Some(if verbose { "Augmented Octave" } else { "A8" }),
            CompoundInterval::MajorNinth => Some(if verbose { "Major Ninth" } else { "M9" }),
            CompoundInterval::DiminishedTenth => Some(if verbose { "Diminished Tenth" } else { "d10" }),
            CompoundInterval::MinorTenth => Some(if verbose { "Minor Tenth" } else { "m10" }),
            CompoundInterval::AugmentedNinth => Some(if verbose { "Augmented Ninth" } else { "A9" }),
            CompoundInterval::MajorTenth => Some(if verbose { "Major Tenth" } else { "M10" }),
            CompoundInterval::DiminishedEleventh => Some(if verbose { "Diminished Eleventh" } else { "d11" }),
            CompoundInterval::PerfectEleventh => Some(if verbose { "Perfect Eleventh" } else { "P11" }),
            CompoundInterval::AugmentedTenth => Some(if verbose { "Augmented Tenth" } else { "A10" }),
            CompoundInterval::DiminishedTweltfth => Some(if verbose { "Diminished Twelfth" } else { "d12" }),
            CompoundInterval::AuthmentedEleventh => Some(if verbose { "Augmented Eleventh" } else { "A11" }),
            CompoundInterval::PerfectTwelfth => Some(if verbose { "Perfect Twelfth" } else { "P12" }),
            CompoundInterval::DiminishedThirteenth => Some(if verbose { "Diminished Thirteenth" } else { "d13" }),
            CompoundInterval::MinorThirteenth => Some(if verbose { "Minor Thirteenth" } else { "m13" }),
            CompoundInterval::AugmentedTwelfth => Some(if verbose { "Augmented Twelfth" } else { "A12" }),
            CompoundInterval::MajorThirteenth => Some(if verbose { "Major Thirteenth" } else { "M13" }),
            CompoundInterval::DiminishedFourteenth => Some(if verbose { "Diminished Fourteenth" } else { "d14" }),
            CompoundInterval::MinorFourteenth => Some(if verbose { "Minor Fourteenth" } else { "m14" }),
            CompoundInterval::AugmentedThirteenth => Some(if verbose { "Augmented Thirteenth" } else { "A13" }),
            CompoundInterval::MajorFourteenth => Some(if verbose { "Major Fourteenth" } else { "M14" }),
            CompoundInterval::DiminishedFifteenth => Some(if verbose { "Diminished Fifteenth" } else { "d15" }),
            CompoundInterval::PerfectFifteenth => Some(if verbose { "Perfect Fifteenth" } else { "P15" }),
            CompoundInterval::AugmentedFourteenth => Some(if verbose { "Augmented Fourteenth" } else { "A14" }),
            CompoundInterval::AugmentedFifteenth => Some(if verbose { "Augmented Fifteenth" } else { "A15" }),
            CompoundInterval::Other(_) => None,
        };
        match fixed {
            Some(name) => String::from_str(name),
            None => match self {
                CompoundInterval::Other(other) => other.notation(),
                _ => String::new(),
            },
        }
    }
}

impl Interval {
    /// The interval's notation; the verbose form is prefixed with "Simple "
    /// or "Compound ".
    pub fn notation(&self, verbose: bool) -> (r: String)
        requires
            self matches Interval::Compound(c) ==> c.fits(),
        ensures
            self matches Interval::Simple(i) ==> r@ == (if verbose {
                "Simple "@ + i.long_name_spec()@
            } else {
                i.short_name_spec()@
            }),
            self matches Interval::Compound(c) ==> (c.fixed_name(verbose) matches Some(name) ==> r@
                == (if verbose { "Compound "@ + name@ } else { name@ })),
    {
        match self {
            Interval::Simple(i) => {
                if verbose {
                    let mut s = String::from_str("Simple ");
                    s.append(i.long_name());
                    s
                } else {
                    String::from_str(i.short_name())
                }
            },
            Interval::Compound(c) => {
                if verbose {
                    let mut s = String::from_str("Compound ");
                    let name = c.notation(true);
                    s.append(name.as_str());
                    s
                } else {
                    c.notation(false)
                }
            },
        }
    }
}

impl AbstractNote {
    /// The letter followed by the accidental, as in "C#" or "Bbb".
    pub fn notation(&self) -> (r: String)
        ensures
            r@ == self.raw_note.basic_notation()@ + self.modifier.symbol_spec()@,
    {
        let mut s = String::from_str(self.raw_note.to_basic_notation());
        s.append(self.modifier.symbol());
        s
    }
}

impl Note {
    /// The spelling followed by the octave, as in "C#4".
    pub fn notation(&self) -> (r: String)
        ensures
            r@ == self.abstract_note().raw_note.basic_notation()@
                + self.abstract_note().modifier.symbol_spec()@ + decimal(self.octave_spec()),
    {
        let mut s = self.to_abstract_note().notation();
        let octave = decimal_string(self.octave());
        s.append(octave.as_str());
        s
    }
}

impl ChordContext {
    /// The root's notation and the quality's symbol, as in "C4 maj".
    pub fn label(&self) -> (r: String)
        ensures
            r@ == self.root_spec().abstract_note().raw_note.basic_notation()@
                + self.root_spec().abstract_note().modifier.symbol_spec()@ + decimal(
                self.root_spec().octave_spec(),
            ) + " "@ + self.quality_spec().short_name_spec()@,
    {
        let mut s = self.get_root().notation();
        s.append(" ");
        s.append(self.get_quality().short_name());
        s
    }
}

} // verus!
