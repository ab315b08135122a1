use note_lib::{decimal_string, ModifierPreference, Note, NoteModifier, NoteRangeError, RawNote};

#[test]
fn note_should_create() {
    let note = Note::new(RawNote::C, 4, NoteModifier::Natural);
    assert_eq!(note.raw_note(), RawNote::C);
    assert_eq!(note.octave(), 4);
    assert_eq!(note.modifier(), NoteModifier::Natural);
}

#[test]
fn should_create_from_semitones() {
    let note = Note::from_semitones_from_c0(12, ModifierPreference::Sharp);
    assert_eq!(note.raw_note(), RawNote::C);
    assert_eq!(note.octave(), 1);
    assert_eq!(note.modifier(), NoteModifier::Natural);

    let note = Note::from_semitones_from_c0(12, ModifierPreference::Flat);
    assert_eq!(note.raw_note(), RawNote::C);
    assert_eq!(note.octave(), 1);
    assert_eq!(note.modifier(), NoteModifier::Natural);

    let note = Note::from_semitones_from_c0(13, ModifierPreference::Sharp);
    assert_eq!(note.raw_note(), RawNote::C);
    assert_eq!(note.octave(), 1);
    assert_eq!(note.modifier(), NoteModifier::Sharp);

    let note = Note::from_semitones_from_c0(13, ModifierPreference::Flat);
    assert_eq!(note.raw_note(), RawNote::D);
    assert_eq!(note.octave(), 1);
    assert_eq!(note.modifier(), NoteModifier::Flat);

    let note = Note::from_semitones_from_c0(14, ModifierPreference::Flat);
    assert_eq!(note.raw_note(), RawNote::D);
    assert_eq!(note.octave(), 1);
    assert_eq!(note.modifier(), NoteModifier::Natural);
}

#[test]
fn should_get_semitones() {
    let note = Note::new(RawNote::C, 4, NoteModifier::Natural);
    assert_eq!(note.to_semitones_from_c0(), 48);

    let note = Note::new(RawNote::C, 4, NoteModifier::Sharp);
    assert_eq!(note.to_semitones_from_c0(), 49);

    let note = Note::new(RawNote::C, 4, NoteModifier::Flat);
    assert_eq!(note.to_semitones_from_c0(), 47);
}

#[test]
fn adding_below_c0_is_an_error() {
    let c0 = Note::new(RawNote::C, 0, NoteModifier::Natural);
    assert_eq!(c0.add_semitones(-1), Err(NoteRangeError::BelowLowestC));
    assert_eq!(c0.add_semitones(0), Ok(c0));
}

#[test]
fn adding_semitones_keeps_the_flat_preference() {
    let e_flat = Note::new(RawNote::E, 4, NoteModifier::Flat);
    assert_eq!(
        e_flat.add_semitones(3),
        Ok(Note::new(RawNote::G, 4, NoteModifier::Flat))
    );
    let b3 = Note::new(RawNote::B, 3, NoteModifier::Natural);
    assert_eq!(
        b3.add_semitones(2),
        Ok(Note::new(RawNote::C, 4, NoteModifier::Sharp))
    );
}

#[test]
fn semitone_round_trip_keeps_pitch() {
    let notes = [
        Note::new(RawNote::B, 3, NoteModifier::Sharp),
        Note::new(RawNote::C, 5, NoteModifier::DoubleFlat),
        Note::new(RawNote::G, 2, NoteModifier::Sharp),
        Note::new(RawNote::F, 0, NoteModifier::Flat),
    ];
    for note in notes {
        for preference in [ModifierPreference::Sharp, ModifierPreference::Flat] {
            let semitones = note.to_semitones_from_c0();
            let back = Note::from_semitones_from_c0(semitones, preference);
            assert_eq!(back.to_semitones_from_c0(), semitones);
        }
    }
}

#[test]
fn negative_octaves_count_down() {
    let note = Note::new(RawNote::A, -1, NoteModifier::Natural);
    assert_eq!(note.to_semitones_from_c0(), -3);
    let placed = Note::from_semitones_from_c0(-3, ModifierPreference::Sharp);
    assert_eq!(placed, note);
}

#[test]
fn decimal_strings() {
    assert_eq!(decimal_string(0), "0");
    assert_eq!(decimal_string(-45), "-45");
    assert_eq!(decimal_string(i32::MIN), "-2147483648");
    assert_eq!(decimal_string(1203), "1203");
}

#[test]
fn semitone_conversions() {
    assert_eq!(i32::from(NoteModifier::DoubleFlat), -2);
    assert_eq!(i32::from(note_lib::SimpleInterval::MajorSixth), 9);
    let sharp: i32 = NoteModifier::Sharp.into();
    assert_eq!(sharp, 1);
}
