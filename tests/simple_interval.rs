use note_lib::{
    bias_simple_interval_quality, CompoundInterval, Interval, IntervalQuality,
    InvalidSimpleIntervalError, OtherCompoundInterval, SimpleInterval, SimpleIntervalFromSemitones,
    SimpleIntervalNumber,
};

const ALL: [SimpleInterval; 26] = [
    SimpleInterval::PerfectUnison,
    SimpleInterval::DiminishedSecond,
    SimpleInterval::AugmentedUnison,
    SimpleInterval::MinorSecond,
    SimpleInterval::MajorSecond,
    SimpleInterval::DiminishedThird,
    SimpleInterval::AugmentedSecond,
    SimpleInterval::MinorThird,
    SimpleInterval::MajorThird,
    SimpleInterval::DiminishedFourth,
    SimpleInterval::AugmentedThird,
    SimpleInterval::PerfectFourth,
    SimpleInterval::DiminishedFifth,
    SimpleInterval::AugmentedFourth,
    SimpleInterval::PerfectFifth,
    SimpleInterval::DiminishedSixth,
    SimpleInterval::AugmentedFifth,
    SimpleInterval::MinorSixth,
    SimpleInterval::MajorSixth,
    SimpleInterval::DiminishedSeventh,
    SimpleInterval::AugmentedSixth,
    SimpleInterval::MinorSeventh,
    SimpleInterval::MajorSeventh,
    SimpleInterval::DiminishedOctave,
    SimpleInterval::AugmentedSeventh,
    SimpleInterval::PerfectOctave,
];

const QUALITIES: [IntervalQuality; 5] = [
    IntervalQuality::Perfect,
    IntervalQuality::Major,
    IntervalQuality::Minor,
    IntervalQuality::Augmented,
    IntervalQuality::Diminished,
];

#[test]
fn simple_interval_from_semitones() {
    let minor_second_semitones = SimpleInterval::MinorSecond.semitones();
    assert_eq!(minor_second_semitones, 1);
    let minor_second_result = SimpleInterval::from_semitones(minor_second_semitones);
    assert_eq!(minor_second_result.interval, SimpleInterval::MinorSecond);
    assert_eq!(minor_second_result.octave_overflow, 0);

    let octave_semitones = SimpleInterval::PerfectOctave.semitones();
    assert_eq!(octave_semitones, 12);
    let octave_result = SimpleInterval::from_semitones(octave_semitones);
    assert_eq!(octave_result.interval, SimpleInterval::PerfectOctave);
    assert_eq!(octave_result.octave_overflow, 0);

    let octave_plus_minor_second_semitones =
        SimpleInterval::PerfectOctave.semitones() + SimpleInterval::MinorSecond.semitones();
    assert_eq!(octave_plus_minor_second_semitones, 13);
    let octave_plus_minor_second_result =
        SimpleInterval::from_semitones(octave_plus_minor_second_semitones);
    assert_eq!(
        octave_plus_minor_second_result.interval,
        SimpleInterval::MinorSecond
    );
    assert_eq!(octave_plus_minor_second_result.octave_overflow, 1);
}

#[test]
fn interval_from_semitones() {
    let minor_second_semitones = SimpleInterval::MinorSecond.semitones();
    assert_eq!(minor_second_semitones, 1);
    let minor_second_result = SimpleIntervalFromSemitones::new(minor_second_semitones);
    assert_eq!(minor_second_result.interval, SimpleInterval::MinorSecond);
    assert_eq!(minor_second_result.octave_overflow, 0);

    let octave_semitones = SimpleInterval::PerfectOctave.semitones();
    assert_eq!(octave_semitones, 12);
    let octave_result = SimpleIntervalFromSemitones::new(octave_semitones);
    assert_eq!(octave_result.interval, SimpleInterval::PerfectOctave);
    assert_eq!(octave_result.octave_overflow, 0);

    let octave_plus_minor_second_semitones =
        SimpleInterval::PerfectOctave.semitones() + SimpleInterval::MinorSecond.semitones();
    assert_eq!(octave_plus_minor_second_semitones, 13);
    let octave_plus_minor_second_result =
        SimpleIntervalFromSemitones::new(octave_plus_minor_second_semitones);
    assert_eq!(
        octave_plus_minor_second_result.interval,
        SimpleInterval::MinorSecond
    );
    assert_eq!(octave_plus_minor_second_result.octave_overflow, 1);
}

#[test]
fn inverses_are_correct() {
    for interval in ALL {
        let interval_quality = interval.quality();
        let interval_number = interval.interval_number();

        let inverted = interval.inverse();
        let inverted_quality = inverted.quality();
        let inverted_number = inverted.interval_number();

        assert_eq!(interval, inverted.inverse());
        assert_eq!(interval_number.value() + inverted_number.value(), 9);

        match interval_quality {
            IntervalQuality::Perfect => assert_eq!(inverted_quality, IntervalQuality::Perfect),
            IntervalQuality::Major => assert_eq!(inverted_quality, IntervalQuality::Minor),
            IntervalQuality::Minor => assert_eq!(inverted_quality, IntervalQuality::Major),
            IntervalQuality::Augmented => {
                assert_eq!(inverted_quality, IntervalQuality::Diminished)
            }
            IntervalQuality::Diminished => {
                assert_eq!(inverted_quality, IntervalQuality::Augmented)
            }
        }
    }
}

#[test]
fn bias_interval_to_enharmonic_equivalent() {
    let input = SimpleInterval::PerfectUnison;
    assert_eq!(
        bias_simple_interval_quality(input, IntervalQuality::Diminished),
        SimpleInterval::DiminishedSecond
    );
    assert_eq!(
        bias_simple_interval_quality(input, IntervalQuality::Major),
        SimpleInterval::PerfectUnison
    );
    assert_eq!(
        bias_simple_interval_quality(input, IntervalQuality::Minor),
        SimpleInterval::PerfectUnison
    );
    assert_eq!(
        bias_simple_interval_quality(input, IntervalQuality::Augmented),
        SimpleInterval::PerfectUnison
    );
    assert_eq!(
        bias_simple_interval_quality(input, IntervalQuality::Perfect),
        SimpleInterval::PerfectUnison
    );

    let input = SimpleInterval::PerfectFourth;
    assert_eq!(
        bias_simple_interval_quality(input, IntervalQuality::Diminished),
        SimpleInterval::PerfectFourth
    );
    assert_eq!(
        bias_simple_interval_quality(input, IntervalQuality::Major),
        SimpleInterval::PerfectFourth
    );
    assert_eq!(
        bias_simple_interval_quality(input, IntervalQuality::Minor),
        SimpleInterval::PerfectFourth
    );
    assert_eq!(
        bias_simple_interval_quality(input, IntervalQuality::Augmented),
        SimpleInterval::AugmentedThird
    );
    assert_eq!(
        bias_simple_interval_quality(input, IntervalQuality::Perfect),
        SimpleInterval::PerfectFourth
    );

    let input = SimpleInterval::MajorThird;
    assert_eq!(
        bias_simple_interval_quality(input, IntervalQuality::Diminished),
        SimpleInterval::DiminishedFourth
    );
    assert_eq!(
        bias_simple_interval_quality(input, IntervalQuality::Major),
        SimpleInterval::MajorThird
    );
    assert_eq!(
        bias_simple_interval_quality(input, IntervalQuality::Minor),
        SimpleInterval::MajorThird
    );
    assert_eq!(
        bias_simple_interval_quality(input, IntervalQuality::Augmented),
        SimpleInterval::MajorThird
    );
    assert_eq!(
        bias_simple_interval_quality(input, IntervalQuality::Perfect),
        SimpleInterval::MajorThird
    );
}

#[test]
fn bias_keeps_pitch_for_every_pair() {
    for interval in ALL {
        for quality in QUALITIES {
            let biased = bias_simple_interval_quality(interval, quality);
            assert_eq!(biased.semitones(), interval.semitones());
            assert!(biased == interval || biased.quality() == quality);
        }
    }
}

#[test]
fn bias_spells_the_tritone_both_ways() {
    assert_eq!(
        bias_simple_interval_quality(SimpleInterval::DiminishedFifth, IntervalQuality::Augmented),
        SimpleInterval::AugmentedFourth
    );
    assert_eq!(
        bias_simple_interval_quality(SimpleInterval::AugmentedFourth, IntervalQuality::Diminished),
        SimpleInterval::DiminishedFifth
    );
    assert_eq!(
        bias_simple_interval_quality(SimpleInterval::DiminishedThird, IntervalQuality::Major),
        SimpleInterval::MajorSecond
    );
}

#[test]
fn decomposition_recombines() {
    for s in [-25, -13, -12, -5, -2, -1, 0, 1, 5, 11, 12, 13, 24, 25, 100, i32::MAX, i32::MIN] {
        let split = SimpleIntervalFromSemitones::new(s);
        let total = split.octave_overflow as i64 * 12 + split.interval.semitones() as i64;
        assert_eq!(total, s as i64);
        assert!(split.interval.semitones() >= 0 && split.interval.semitones() <= 12);
    }
}

#[test]
fn negative_counts_round_down() {
    let result = SimpleInterval::from_semitones(-5);
    assert_eq!(result.octave_overflow, -1);
    assert_eq!(result.interval, SimpleInterval::PerfectFifth);
    assert_eq!(result.interval.inverse(), SimpleInterval::PerfectFourth);

    let result = SimpleInterval::from_semitones(-2);
    assert_eq!(result.octave_overflow, -1);
    assert_eq!(result.interval, SimpleInterval::MinorSeventh);

    let result = SimpleInterval::from_semitones(24);
    assert_eq!(result.octave_overflow, 2);
    assert_eq!(result.interval, SimpleInterval::PerfectUnison);
}

#[test]
fn split_add_semitones_accumulates_octaves() {
    let split = SimpleIntervalFromSemitones::new(15);
    let moved = split.add_semitones(11);
    assert_eq!(moved.interval, SimpleInterval::MajorSecond);
    assert_eq!(moved.octave_overflow, 2);
    assert_eq!(moved.semitones(), 26);
}

#[test]
fn interval_add_semitones() {
    let result = SimpleInterval::MajorThird.add_semitones(1);
    assert_eq!(result.octave_overflow, 0);
    assert_eq!(result.interval, SimpleInterval::PerfectFourth);

    let result = SimpleInterval::MajorThird.add_semitones(12);
    assert_eq!(result.octave_overflow, 1);
    assert_eq!(result.interval, SimpleInterval::MajorThird);

    let result = SimpleInterval::MajorThird.add_semitones(-2);
    assert_eq!(result.octave_overflow, 0);
    assert_eq!(result.interval, SimpleInterval::MajorSecond);
}

#[test]
fn interval_arithmetic_keeps_left_quality() {
    assert_eq!(
        SimpleInterval::MajorThird + SimpleInterval::MinorSecond,
        SimpleInterval::PerfectFourth
    );
    assert_eq!(SimpleInterval::AugmentedSecond + 5, SimpleInterval::AugmentedFifth);
    assert_eq!(SimpleInterval::PerfectFifth - 2, SimpleInterval::PerfectFourth);
    assert_eq!(
        SimpleInterval::DiminishedSixth - SimpleInterval::MinorSecond,
        SimpleInterval::DiminishedFifth
    );
}

#[test]
fn quality_and_number_lookup() {
    assert_eq!(
        SimpleInterval::from_quality_and_number(IntervalQuality::Major, SimpleIntervalNumber::Third),
        Ok(SimpleInterval::MajorThird)
    );
    assert_eq!(
        SimpleInterval::from_quality_and_number(
            IntervalQuality::Perfect,
            SimpleIntervalNumber::Third
        ),
        Err(InvalidSimpleIntervalError::InvalidPerfectNumber)
    );
    assert_eq!(
        SimpleInterval::from_quality_and_number(IntervalQuality::Major, SimpleIntervalNumber::Fifth),
        Err(InvalidSimpleIntervalError::InvalidMajorNumber)
    );
    assert_eq!(
        SimpleInterval::from_quality_and_number(
            IntervalQuality::Minor,
            SimpleIntervalNumber::Unison
        ),
        Err(InvalidSimpleIntervalError::InvalidMinorNumber)
    );
    assert_eq!(
        SimpleInterval::from_quality_and_number(
            IntervalQuality::Augmented,
            SimpleIntervalNumber::Octave
        ),
        Err(InvalidSimpleIntervalError::InvalidAugmentedNumber)
    );
    assert_eq!(
        SimpleInterval::from_quality_and_number(
            IntervalQuality::Diminished,
            SimpleIntervalNumber::Unison
        ),
        Err(InvalidSimpleIntervalError::InvalidDiminishedNumber)
    );
    for interval in ALL {
        assert_eq!(
            SimpleInterval::from_quality_and_number(interval.quality(), interval.interval_number()),
            Ok(interval)
        );
    }
}

#[test]
fn interval_names() {
    assert_eq!(SimpleInterval::MinorThird.short_name(), "m3");
    assert_eq!(SimpleInterval::MinorThird.long_name(), "Minor Third");
    assert_eq!(SimpleInterval::PerfectUnison.short_name(), "PU");
    assert_eq!(IntervalQuality::Diminished.symbol(), "d");
    assert_eq!(IntervalQuality::Augmented.name(), "Augmented");
    assert_eq!(SimpleIntervalNumber::Seventh.name(), "Seventh");
}

#[test]
fn compound_intervals_by_name() {
    let aug_fifteenth = CompoundInterval::from_semitones(25);
    assert_eq!(aug_fifteenth, CompoundInterval::AugmentedFifteenth);
    assert_eq!(aug_fifteenth.notation(false), "A15");
    assert_eq!(aug_fifteenth.notation(true), "Augmented Fifteenth");
    assert_eq!(aug_fifteenth.get_simple_interval(), SimpleInterval::AugmentedUnison);
    assert_eq!(CompoundInterval::from_semitones(14), CompoundInterval::MajorNinth);
    assert_eq!(CompoundInterval::MajorNinth.semitones(), 14);
}

#[test]
fn compound_interval_stack_beyond_the_names() {
    let other = CompoundInterval::from_semitones(32);
    match &other {
        CompoundInterval::Other(stack) => {
            assert_eq!(stack.diatonic_number(), 20);
            assert_eq!(stack.top_interval(), SimpleInterval::MinorSixth);
            assert_eq!(stack.quality(), IntervalQuality::Minor);
            assert_eq!(stack.simple_interval(), SimpleInterval::MinorSixth);
        }
        _ => panic!("expected a stack"),
    }
    assert_eq!(other.semitones(), 32);
    assert_eq!(other.notation(false), "m20");
}

#[test]
fn compound_stack_sorts_largest_first() {
    let stack = OtherCompoundInterval::new(vec![
        SimpleInterval::MajorThird,
        SimpleInterval::PerfectFifth,
        SimpleInterval::PerfectFifth,
    ]);
    assert_eq!(stack.top_interval(), SimpleInterval::MajorThird);
    assert_eq!(stack.diatonic_number(), 11);
    assert_eq!(stack.simple_interval(), SimpleInterval::DiminishedFifth);
}

#[test]
fn empty_stack_is_a_unison() {
    let stack = OtherCompoundInterval::new(vec![]);
    assert_eq!(stack.top_interval(), SimpleInterval::PerfectUnison);
    assert_eq!(stack.diatonic_number(), 1);
    assert_eq!(stack.simple_interval(), SimpleInterval::PerfectUnison);
}

#[test]
fn general_interval_from_semitones() {
    assert_eq!(
        Interval::from_semitones(7),
        Interval::Simple(SimpleInterval::PerfectFifth)
    );
    assert_eq!(
        Interval::from_semitones(12),
        Interval::Simple(SimpleInterval::PerfectOctave)
    );
    assert_eq!(
        Interval::from_semitones(13),
        Interval::Compound(CompoundInterval::MinorNinth)
    );
    assert_eq!(Interval::from_semitones(3).notation(true), "Simple Minor Third");
    assert_eq!(Interval::from_semitones(17).notation(true), "Compound Perfect Eleventh");
}

#[test]
fn qualities_order_by_width() {
    assert!(IntervalQuality::Diminished < IntervalQuality::Minor);
    assert!(IntervalQuality::Major > IntervalQuality::Minor);
    assert!(IntervalQuality::Augmented > IntervalQuality::Perfect);
    assert_eq!(
        IntervalQuality::Perfect.partial_cmp(&IntervalQuality::Major),
        None
    );
    assert_eq!(
        IntervalQuality::Minor.partial_cmp(&IntervalQuality::Minor),
        Some(std::cmp::Ordering::Equal)
    );
}

#[test]
fn diminished_compound_intervals_span_octave_plus_simple() {
    let named = [
        CompoundInterval::DiminishedNinth,
        CompoundInterval::MinorNinth,
        CompoundInterval::AugmentedOctave,
        CompoundInterval::MajorNinth,
        CompoundInterval::DiminishedTenth,
        CompoundInterval::DiminishedThirteenth,
        CompoundInterval::DiminishedFourteenth,
        CompoundInterval::DiminishedFifteenth,
        CompoundInterval::PerfectFifteenth,
        CompoundInterval::AugmentedFourteenth,
    ];
    for c in named {
        assert_eq!(c.semitones(), 12 + c.get_simple_interval().semitones());
    }
    assert_eq!(CompoundInterval::DiminishedNinth.semitones(), 12);
    assert_eq!(CompoundInterval::DiminishedThirteenth.semitones(), 19);
    assert_eq!(CompoundInterval::DiminishedFourteenth.semitones(), 21);
    assert_eq!(CompoundInterval::DiminishedFifteenth.semitones(), 23);
    assert_eq!(CompoundInterval::AugmentedFifteenth.semitones(), 25);
}

#[test]
fn compound_from_semitones_keeps_the_count() {
    for s in [0, 1, 5, 12, 13, 18, 25, 26, 40, 1000, 123_457] {
        assert_eq!(CompoundInterval::from_semitones(s).semitones(), s);
    }
}
