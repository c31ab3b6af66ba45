//! Western music notation with correct enharmonic spelling, and a keyboard
//! diagram layout engine.
//!
//! The core is the note/interval arithmetic: applying an interval to a note
//! advances the note letter first and only then chooses the accidental, so
//! that derived notes are spelled the way music theory demands (a minor third
//! above D flat is F flat, never E). A secondary component lays out piano-key
//! rectangles for a run of notes, in integer coordinates measured in
//! thousandths of a pixel.

pub mod interval;
pub mod note;
pub mod piano;
pub mod scale;
