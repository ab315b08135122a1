use note_lib::{AbstractNote, ScaleDegree, ScaleMode, ScaleNoteIter, SimpleInterval};

fn parse(s: &str) -> AbstractNote {
    AbstractNote::try_from(s).unwrap()
}

#[test]
fn scale_mode_mode_gives_interval_at_degree() {
    let mode = ScaleMode::Ionian;
    assert_eq!(
        mode.interval_at_degree(ScaleDegree::First),
        SimpleInterval::PerfectUnison
    );
    assert_eq!(
        mode.interval_at_degree(ScaleDegree::Seventh),
        SimpleInterval::MajorSeventh
    );
}

#[test]
fn scale_mode_mode_gives_note_at_degree() {
    let mode = ScaleMode::Ionian;
    let root = parse("C");
    assert_eq!(mode.note_at_degree(root, ScaleDegree::First), parse("C"));
    assert_eq!(mode.note_at_degree(root, ScaleDegree::Seventh), parse("B"));
    assert_eq!(mode.note_at_degree(root, ScaleDegree::Octave), parse("C"));

    let mode = ScaleMode::Ionian;
    let root = parse("B#");
    assert_eq!(mode.note_at_degree(root, ScaleDegree::First), parse("B#"));
    assert_eq!(mode.note_at_degree(root, ScaleDegree::Seventh), parse("B"));
}

#[test]
fn scale_mode_iterates() {
    let root = parse("C");
    let mode = ScaleMode::Ionian;
    let mut scale_mode_iter = ScaleNoteIter::new(root, mode);
    let scale: Vec<AbstractNote> = scale_mode_iter.take_notes(8);
    assert_eq!(
        scale,
        vec![
            parse("C"),
            parse("D"),
            parse("E"),
            parse("F"),
            parse("G"),
            parse("A"),
            parse("B"),
            parse("C"),
        ]
    );
}

#[test]
fn scale_iterator_stops_after_the_octave() {
    let mut iter = ScaleNoteIter::new(parse("D"), ScaleMode::Dorian);
    let notes = iter.take_notes(20);
    assert_eq!(notes.len(), 8);
    assert_eq!(iter.next(), None);
    assert_eq!(notes[2], parse("F"));
    assert_eq!(notes[6], parse("C"));
}

#[test]
fn scale_iterator_restarts_fresh() {
    let mut first = ScaleNoteIter::new(parse("A"), ScaleMode::Aeolian);
    let mut second = ScaleNoteIter::new(parse("A"), ScaleMode::Aeolian);
    assert_eq!(first.take_notes(3), second.take_notes(3));
    assert_eq!(first.next(), Some(parse("D")));
}

#[test]
fn locrian_on_b_uses_only_naturals() {
    let mut iter = ScaleNoteIter::new(parse("B"), ScaleMode::Locrian);
    let notes = iter.take_notes(8);
    let letters: Vec<String> = notes.iter().map(|n| n.notation()).collect();
    assert_eq!(letters, vec!["B", "C", "D", "E", "F", "G", "A", "B"]);
}

#[test]
fn scale_mode_assert_ionian_intervals() {
    let mode = ScaleMode::Ionian;
    assert_eq!(mode.interval_at_degree(ScaleDegree::First), SimpleInterval::PerfectUnison);
    assert_eq!(mode.interval_at_degree(ScaleDegree::Second), SimpleInterval::MajorSecond);
    assert_eq!(mode.interval_at_degree(ScaleDegree::Third), SimpleInterval::MajorThird);
    assert_eq!(mode.interval_at_degree(ScaleDegree::Fourth), SimpleInterval::PerfectFourth);
    assert_eq!(mode.interval_at_degree(ScaleDegree::Fifth), SimpleInterval::PerfectFifth);
    assert_eq!(mode.interval_at_degree(ScaleDegree::Sixth), SimpleInterval::MajorSixth);
    assert_eq!(mode.interval_at_degree(ScaleDegree::Seventh), SimpleInterval::MajorSeventh);
    assert_eq!(mode.interval_at_degree(ScaleDegree::Octave), SimpleInterval::PerfectOctave);
}

#[test]
fn scale_mode_assert_dorian_intervals() {
    let mode = ScaleMode::Dorian;
    assert_eq!(mode.interval_at_degree(ScaleDegree::First), SimpleInterval::PerfectUnison);
    assert_eq!(mode.interval_at_degree(ScaleDegree::Second), SimpleInterval::MajorSecond);
    assert_eq!(mode.interval_at_degree(ScaleDegree::Third), SimpleInterval::MinorThird);
    assert_eq!(mode.interval_at_degree(ScaleDegree::Fourth), SimpleInterval::PerfectFourth);
    assert_eq!(mode.interval_at_degree(ScaleDegree::Fifth), SimpleInterval::PerfectFifth);
    assert_eq!(mode.interval_at_degree(ScaleDegree::Sixth), SimpleInterval::MajorSixth);
    assert_eq!(mode.interval_at_degree(ScaleDegree::Seventh), SimpleInterval::MinorSeventh);
    assert_eq!(mode.interval_at_degree(ScaleDegree::Octave), SimpleInterval::PerfectOctave);
}

#[test]
fn scale_mode_assert_phrygian_intervals() {
    let mode = ScaleMode::Phrygian;
    assert_eq!(mode.interval_at_degree(ScaleDegree::First), SimpleInterval::PerfectUnison);
    assert_eq!(mode.interval_at_degree(ScaleDegree::Second), SimpleInterval::MinorSecond);
    assert_eq!(mode.interval_at_degree(ScaleDegree::Third), SimpleInterval::MinorThird);
    assert_eq!(mode.interval_at_degree(ScaleDegree::Fourth), SimpleInterval::PerfectFourth);
    assert_eq!(mode.interval_at_degree(ScaleDegree::Fifth), SimpleInterval::PerfectFifth);
    assert_eq!(mode.interval_at_degree(ScaleDegree::Sixth), SimpleInterval::MinorSixth);
    assert_eq!(mode.interval_at_degree(ScaleDegree::Seventh), SimpleInterval::MinorSeventh);
    assert_eq!(mode.interval_at_degree(ScaleDegree::Octave), SimpleInterval::PerfectOctave);
}

#[test]
fn scale_mode_assert_lydian_intervals() {
    let mode = ScaleMode::Lydian;
    assert_eq!(mode.interval_at_degree(ScaleDegree::First), SimpleInterval::PerfectUnison);
    assert_eq!(mode.interval_at_degree(ScaleDegree::Second), SimpleInterval::MajorSecond);
    assert_eq!(mode.interval_at_degree(ScaleDegree::Third), SimpleInterval::MajorThird);
    assert_eq!(mode.interval_at_degree(ScaleDegree::Fourth), SimpleInterval::AugmentedFourth);
    assert_eq!(mode.interval_at_degree(ScaleDegree::Fifth), SimpleInterval::PerfectFifth);
    assert_eq!(mode.interval_at_degree(ScaleDegree::Sixth), SimpleInterval::MajorSixth);
    assert_eq!(mode.interval_at_degree(ScaleDegree::Seventh), SimpleInterval::MajorSeventh);
    assert_eq!(mode.interval_at_degree(ScaleDegree::Octave), SimpleInterval::PerfectOctave);
}

#[test]
fn scale_mode_assert_mixolydian_intervals() {
    let mode = ScaleMode::Mixolydian;
    assert_eq!(mode.interval_at_degree(ScaleDegree::First), SimpleInterval::PerfectUnison);
    assert_eq!(mode.interval_at_degree(ScaleDegree::Second), SimpleInterval::MajorSecond);
    assert_eq!(mode.interval_at_degree(ScaleDegree::Third), SimpleInterval::MajorThird);
    assert_eq!(mode.interval_at_degree(ScaleDegree::Fourth), SimpleInterval::PerfectFourth);
    assert_eq!(mode.interval_at_degree(ScaleDegree::Fifth), SimpleInterval::PerfectFifth);
    assert_eq!(mode.interval_at_degree(ScaleDegree::Sixth), SimpleInterval::MajorSixth);
    assert_eq!(mode.interval_at_degree(ScaleDegree::Seventh), SimpleInterval::MinorSeventh);
    assert_eq!(mode.interval_at_degree(ScaleDegree::Octave), SimpleInterval::PerfectOctave);
}

#[test]
fn scale_mode_assert_aeolian_intervals() {
    let mode = ScaleMode::Aeolian;
    assert_eq!(mode.interval_at_degree(ScaleDegree::First), SimpleInterval::PerfectUnison);
    assert_eq!(mode.interval_at_degree(ScaleDegree::Second), SimpleInterval::MajorSecond);
    assert_eq!(mode.interval_at_degree(ScaleDegree::Third), SimpleInterval::MinorThird);
    assert_eq!(mode.interval_at_degree(ScaleDegree::Fourth), SimpleInterval::PerfectFourth);
    assert_eq!(mode.interval_at_degree(ScaleDegree::Fifth), SimpleInterval::PerfectFifth);
    assert_eq!(mode.interval_at_degree(ScaleDegree::Sixth), SimpleInterval::MinorSixth);
    assert_eq!(mode.interval_at_degree(ScaleDegree::Seventh), SimpleInterval::MinorSeventh);
    assert_eq!(mode.interval_at_degree(ScaleDegree::Octave), SimpleInterval::PerfectOctave);
}

#[test]
fn scale_mode_assert_locrian_intervals() {
    let mode = ScaleMode::Locrian;
    assert_eq!(mode.interval_at_degree(ScaleDegree::First), SimpleInterval::PerfectUnison);
    assert_eq!(mode.interval_at_degree(ScaleDegree::Second), SimpleInterval::MinorSecond);
    assert_eq!(mode.interval_at_degree(ScaleDegree::Third), SimpleInterval::MinorThird);
    assert_eq!(mode.interval_at_degree(ScaleDegree::Fourth), SimpleInterval::PerfectFourth);
    assert_eq!(mode.interval_at_degree(ScaleDegree::Fifth), SimpleInterval::DiminishedFifth);
    assert_eq!(mode.interval_at_degree(ScaleDegree::Sixth), SimpleInterval::MinorSixth);
    assert_eq!(mode.interval_at_degree(ScaleDegree::Seventh), SimpleInterval::MinorSeventh);
    assert_eq!(mode.interval_at_degree(ScaleDegree::Octave), SimpleInterval::PerfectOctave);
}
