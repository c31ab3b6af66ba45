use clavier::interval::perf1;
use clavier::note::{Note, NoteAccidental, NoteLetter};
use clavier::scale::{altered, chromatic, mixo, mixo_flat13, mixo_flat9};

// A generated scale has one note per interval, and opens with the root
// itself via the unison.
#[test]
fn scale_length_and_root() {
    let root = Note::new(NoteLetter::G, NoteAccidental::Natural);
    for scale in [chromatic(), mixo(), mixo_flat9(), mixo_flat13(), altered()] {
        let notes = root.ascending_scale(&scale);
        assert_eq!(notes.len(), scale.ascending.len());
        assert_eq!(notes[0], root.apply_interval(&perf1()));
        assert_eq!(notes[0], root);
    }
}

// The chromatic scale from C walks every semitone with flat spellings.
#[test]
fn chromatic_scale_from_c() {
    let c4 = Note::new(NoteLetter::C, NoteAccidental::Natural);
    let notes = c4.ascending_scale(&chromatic());
    let spelled: Vec<String> = notes.iter().map(|n| n.to_string()).collect();
    assert_eq!(
        spelled,
        vec![
            "C4", "Db4", "D4", "Eb4", "E4", "F4", "Gb4", "G4", "Ab4", "A4", "Bb4", "B4"
        ]
    );
}

// The Mixolydian mode from F: a major scale shape with a lowered seventh.
#[test]
fn mixolydian_from_f() {
    let f4 = Note::new(NoteLetter::F, NoteAccidental::Natural);
    let notes = f4.ascending_scale(&mixo());
    let spelled: Vec<String> = notes.iter().map(|n| n.to_string()).collect();
    assert_eq!(spelled, vec!["F4", "G4", "A4", "Bb4", "C5", "D5", "Eb5"]);
}

// The altered scale from G, spelled by letter distance.
#[test]
fn altered_from_g() {
    let g4 = Note::new(NoteLetter::G, NoteAccidental::Natural);
    let notes = g4.ascending_scale(&altered());
    let spelled: Vec<String> = notes.iter().map(|n| n.to_string()).collect();
    assert_eq!(spelled, vec!["G4", "Ab4", "A#4", "B4", "Db5", "Eb5", "F5"]);
}

// Every catalog scale mirrors its ascent when descending.
#[test]
fn catalog_scales_descend_as_they_ascend() {
    for scale in [chromatic(), mixo(), mixo_flat9(), mixo_flat13(), altered()] {
        assert!(scale.descending.is_none());
    }
}
