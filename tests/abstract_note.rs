use note_lib::{
    bias_abstract_note_to_enharmonic_equivalent, AbstractNote, AbstractNoteParseError,
    IntoRawNoteError, ModifierPreference, Note, NoteModifier, RawNote, SimpleInterval,
};

const LETTERS: [RawNote; 7] = [
    RawNote::C,
    RawNote::D,
    RawNote::E,
    RawNote::F,
    RawNote::G,
    RawNote::A,
    RawNote::B,
];

const MODIFIERS: [NoteModifier; 5] = [
    NoteModifier::DoubleFlat,
    NoteModifier::Flat,
    NoteModifier::Natural,
    NoteModifier::Sharp,
    NoteModifier::DoubleSharp,
];

fn note(raw_note: RawNote, modifier: NoteModifier) -> AbstractNote {
    AbstractNote { raw_note, modifier }
}

#[test]
fn abstract_note_should_create() {
    let note = AbstractNote {
        raw_note: RawNote::C,
        modifier: NoteModifier::Natural,
    };
    assert_eq!(note.raw_note, RawNote::C);
    assert_eq!(note.modifier, NoteModifier::Natural);
}

#[test]
fn abstract_note_should_create_from_note() {
    let note = Note::new(RawNote::C, 4, NoteModifier::Natural);
    let abstract_note: AbstractNote = note.into();
    assert_eq!(abstract_note.raw_note, RawNote::C);
    assert_eq!(abstract_note.modifier, NoteModifier::Natural);
}

#[test]
fn abstract_note_should_create_from_raw_note() {
    let note = RawNote::C;
    let abstract_note: AbstractNote = note.into();
    assert_eq!(abstract_note.raw_note, RawNote::C);
    assert_eq!(abstract_note.modifier, NoteModifier::Natural);
}

#[test]
fn abstract_note_should_add_interval() {
    let note = AbstractNote {
        raw_note: RawNote::C,
        modifier: NoteModifier::Natural,
    };
    let note = note + SimpleInterval::MajorSecond;
    assert_eq!(note.raw_note, RawNote::D);
    assert_eq!(note.modifier, NoteModifier::Natural);

    let note = note + SimpleInterval::MinorSecond;
    assert_eq!(note.raw_note, RawNote::D);
    assert_eq!(note.modifier, NoteModifier::Sharp);

    let note = note + SimpleInterval::PerfectOctave;
    assert_eq!(note.raw_note, RawNote::D);
    assert_eq!(note.modifier, NoteModifier::Sharp);
}

#[test]
fn abstract_note_should_add_semitones() {
    let note = AbstractNote {
        raw_note: RawNote::C,
        modifier: NoteModifier::Natural,
    };
    let note = note + 2;
    assert_eq!(note.raw_note, RawNote::D);
    assert_eq!(note.modifier, NoteModifier::Natural);
}

#[test]
fn abstract_note_to_and_from_semitones() {
    let abstract_notes = vec![
        note(RawNote::C, NoteModifier::Natural),
        note(RawNote::C, NoteModifier::Sharp),
        note(RawNote::C, NoteModifier::Flat),
    ];

    for abstract_note in abstract_notes {
        let interval = abstract_note.interval_from_c();
        let semitones = interval.semitones();
        let new_abstract_note = AbstractNote::from_interval_from_c(
            abstract_note.interval_from_c(),
            abstract_note.modifier.into(),
        );
        assert_eq!(new_abstract_note.interval_from_c().semitones(), semitones);
    }
}

#[test]
fn add_intervals() {
    let n = note(RawNote::C, NoteModifier::Natural);
    let n = n + SimpleInterval::MajorSecond + SimpleInterval::MinorSecond;
    assert_eq!(n.raw_note, RawNote::D);
    assert_eq!(n.modifier, NoteModifier::Sharp);

    let n = note(RawNote::C, NoteModifier::Sharp);
    let n = n + SimpleInterval::MajorSecond + SimpleInterval::MinorSecond;
    assert_eq!(n.raw_note, RawNote::E);
    assert_eq!(n.modifier, NoteModifier::Natural);

    let n = note(RawNote::C, NoteModifier::Flat);
    let n = n + SimpleInterval::MajorSecond + SimpleInterval::MinorSecond;
    assert_eq!(n.raw_note, RawNote::D);
    assert_eq!(n.modifier, NoteModifier::Natural);

    let n = note(RawNote::C, NoteModifier::Sharp);
    let n = n + SimpleInterval::MajorSecond + SimpleInterval::MajorSecond;
    assert_eq!(n.raw_note, RawNote::E);
    assert_eq!(n.modifier, NoteModifier::Sharp);
}

#[test]
fn enharmonic_modifier_bias() {
    assert_eq!(
        bias_abstract_note_to_enharmonic_equivalent(
            &note(RawNote::F, NoteModifier::DoubleFlat),
            NoteModifier::Sharp
        ),
        note(RawNote::D, NoteModifier::Sharp)
    );
    assert_eq!(
        bias_abstract_note_to_enharmonic_equivalent(
            &note(RawNote::F, NoteModifier::Flat),
            NoteModifier::Natural
        ),
        note(RawNote::E, NoteModifier::Natural)
    );
    assert_eq!(
        bias_abstract_note_to_enharmonic_equivalent(
            &note(RawNote::D, NoteModifier::Sharp),
            NoteModifier::Flat
        ),
        note(RawNote::E, NoteModifier::Flat)
    );

    for letter in LETTERS {
        for modifier in MODIFIERS {
            let n = note(letter, modifier);
            for modifier_bias in MODIFIERS {
                let biased_note = bias_abstract_note_to_enharmonic_equivalent(&n, modifier_bias);
                let note_interval = n.interval_from_c();
                let biased_note_interval = biased_note.interval_from_c();
                let similar_interval = match note_interval {
                    SimpleInterval::PerfectUnison | SimpleInterval::PerfectOctave => matches!(
                        biased_note_interval,
                        SimpleInterval::PerfectUnison | SimpleInterval::PerfectOctave
                    ),
                    _ => note_interval == biased_note_interval,
                };
                assert!(similar_interval);
            }
        }
    }
}

#[test]
fn bias_without_an_equivalent_keeps_the_note() {
    let c_sharp = note(RawNote::C, NoteModifier::Sharp);
    assert_eq!(
        bias_abstract_note_to_enharmonic_equivalent(&c_sharp, NoteModifier::DoubleFlat),
        c_sharp
    );
    let e = note(RawNote::E, NoteModifier::Natural);
    assert_eq!(
        bias_abstract_note_to_enharmonic_equivalent(&e, NoteModifier::Sharp),
        e
    );
}

#[test]
fn bias_walks_more_than_one_letter_up() {
    assert_eq!(
        bias_abstract_note_to_enharmonic_equivalent(
            &note(RawNote::B, NoteModifier::DoubleSharp),
            NoteModifier::Flat
        ),
        note(RawNote::D, NoteModifier::Flat)
    );
    assert_eq!(
        bias_abstract_note_to_enharmonic_equivalent(
            &note(RawNote::E, NoteModifier::Sharp),
            NoteModifier::Natural
        ),
        note(RawNote::F, NoteModifier::Natural)
    );
}

#[test]
fn interval_from_c_wraps_below_and_above() {
    assert_eq!(
        note(RawNote::C, NoteModifier::Flat).interval_from_c(),
        SimpleInterval::MajorSeventh
    );
    assert_eq!(
        note(RawNote::B, NoteModifier::Sharp).interval_from_c(),
        SimpleInterval::PerfectOctave
    );
    assert_eq!(
        note(RawNote::A, NoteModifier::Natural).interval_from_c(),
        SimpleInterval::MajorSixth
    );
}

#[test]
fn spelling_from_interval_follows_preference() {
    assert_eq!(
        AbstractNote::from_interval_from_c(SimpleInterval::MinorSecond, ModifierPreference::Sharp),
        note(RawNote::C, NoteModifier::Sharp)
    );
    assert_eq!(
        AbstractNote::from_interval_from_c(SimpleInterval::MinorSecond, ModifierPreference::Flat),
        note(RawNote::D, NoteModifier::Flat)
    );
    assert_eq!(
        AbstractNote::from_interval_from_c(SimpleInterval::PerfectOctave, ModifierPreference::Flat),
        note(RawNote::C, NoteModifier::Natural)
    );
}

#[test]
fn adding_then_measuring_matches_measuring_then_adding() {
    let intervals = [
        SimpleInterval::MinorSecond,
        SimpleInterval::MajorThird,
        SimpleInterval::AugmentedFourth,
        SimpleInterval::PerfectOctave,
    ];
    for letter in LETTERS {
        for modifier in MODIFIERS {
            let a = note(letter, modifier);
            for i in intervals {
                let left = (a + i).interval_from_c().semitones() % 12;
                let right = (a.interval_from_c() + i).semitones() % 12;
                assert_eq!(left, right);
            }
        }
    }
}

#[test]
fn modifier_arithmetic() {
    assert_eq!(
        note(RawNote::C, NoteModifier::Natural) + NoteModifier::Sharp,
        note(RawNote::C, NoteModifier::Sharp)
    );
    assert_eq!(
        note(RawNote::E, NoteModifier::Natural) - NoteModifier::Flat,
        note(RawNote::F, NoteModifier::Natural)
    );
    assert_eq!(
        note(RawNote::D, NoteModifier::Natural) - 2,
        note(RawNote::C, NoteModifier::Natural)
    );
}

#[test]
fn parses_note_names() {
    assert_eq!(AbstractNote::try_from("C"), Ok(note(RawNote::C, NoteModifier::Natural)));
    assert_eq!(AbstractNote::try_from(" c# "), Ok(note(RawNote::C, NoteModifier::Sharp)));
    assert_eq!(AbstractNote::try_from("Bbb"), Ok(note(RawNote::B, NoteModifier::DoubleFlat)));
    assert_eq!(AbstractNote::try_from("Fx"), Ok(note(RawNote::F, NoteModifier::DoubleSharp)));
    assert_eq!(AbstractNote::try_from("G##"), Ok(note(RawNote::G, NoteModifier::DoubleSharp)));
    assert_eq!(
        AbstractNote::try_from(String::from("Eb")),
        Ok(note(RawNote::E, NoteModifier::Flat))
    );
}

#[test]
fn parse_errors() {
    assert_eq!(AbstractNote::try_from(""), Err(AbstractNoteParseError::EmptyInput));
    assert_eq!(AbstractNote::try_from("C###"), Err(AbstractNoteParseError::InputTooLong));
    assert_eq!(AbstractNote::try_from("H"), Err(AbstractNoteParseError::InvalidNote));
    assert_eq!(AbstractNote::try_from("C?"), Err(AbstractNoteParseError::InvalidModifier));
    assert_eq!(AbstractNote::try_from("C\u{266f}"), Err(AbstractNoteParseError::InputTooLong));
}

#[test]
fn parse_trimmed_reads_characters() {
    assert_eq!(
        AbstractNote::parse_trimmed(&['a', 'b']),
        Ok(note(RawNote::A, NoteModifier::Flat))
    );
    assert_eq!(
        AbstractNote::parse_trimmed(&[' ', 'C']),
        Err(AbstractNoteParseError::InvalidNote)
    );
    assert_eq!(AbstractNote::parse_trimmed(&[]), Err(AbstractNoteParseError::EmptyInput));
}

#[test]
fn raw_note_from_char() {
    assert_eq!(RawNote::try_from('g'), Ok(RawNote::G));
    assert_eq!(RawNote::try_from('H'), Err(IntoRawNoteError::InvalidNoteChar('H')));
    assert_eq!(RawNote::B.next_note(), (RawNote::C, 1));
    assert_eq!(RawNote::F.prev_note(), (RawNote::E, 1));
    assert_eq!(RawNote::A.next_note(), (RawNote::B, 2));
}

#[test]
fn note_names() {
    assert_eq!(note(RawNote::C, NoteModifier::Sharp).notation(), "C#");
    assert_eq!(note(RawNote::B, NoteModifier::DoubleFlat).notation(), "Bbb");
    assert_eq!(Note::new(RawNote::E, 4, NoteModifier::Flat).notation(), "Eb4");
    assert_eq!(Note::new(RawNote::A, -1, NoteModifier::Natural).notation(), "A-1");
    assert_eq!(ModifierPreference::from(NoteModifier::DoubleFlat), ModifierPreference::Flat);
    assert_eq!(ModifierPreference::from(NoteModifier::Natural), ModifierPreference::Sharp);
}

#[test]
fn large_shifts_use_the_pitch_class() {
    let c = note(RawNote::C, NoteModifier::Natural);
    assert_eq!(c + i32::MAX, note(RawNote::G, NoteModifier::Natural));
    assert_eq!(c.add_semitones(i32::MIN), note(RawNote::E, NoteModifier::Natural));
    assert_eq!(c + 24, c);
}

#[test]
fn letter_plus_accidental() {
    assert_eq!(RawNote::B + NoteModifier::Flat, note(RawNote::B, NoteModifier::Flat));
}
