//! Pitch algebra for twelve-tone equal temperament: notes, intervals,
//! chords and scale modes, with the conversions between semitone counts,
//! in-octave intervals and spelled notes.

pub mod abstract_note;
pub mod chord;
pub mod chord_builder;
pub mod chord_context;
pub mod chord_quality;
pub mod compound_interval;
pub mod interval;
pub mod notation;
pub mod note;
pub mod note_modifier;
pub mod parse;
pub mod raw_note;
pub mod scale;

pub use abstract_note::{bias_abstract_note_to_enharmonic_equivalent, AbstractNote};
pub use chord::Chord;
pub use chord_builder::ChordBuilder;
pub use chord_context::{ChordContext, ChordEditAction};
pub use chord_quality::ChordQuality;
pub use compound_interval::{CompoundInterval, Interval, OtherCompoundInterval};
pub use interval::{
    bias_simple_interval_quality, IntervalQuality, InvalidSimpleIntervalError, SimpleInterval,
    SimpleIntervalFromSemitones, SimpleIntervalNumber,
};
pub use notation::decimal_string;
pub use note::{Note, NoteRangeError, Octave};
pub use note_modifier::{ModifierPreference, NoteModifier, Semitone};
pub use parse::AbstractNoteParseError;
pub use raw_note::{IntoRawNoteError, RawNote, A, B, C, D, E, F, G};
pub use scale::{ScaleDegree, ScaleMode, ScaleNoteIter};
