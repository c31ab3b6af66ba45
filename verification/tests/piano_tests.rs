use clavier::note::{KeyColor, Note, NoteAccidental, NoteLetter};
use clavier::piano::{
    black_layer, keyboard_notes, layout_keys, note_render_metadata, white_layer, HighlightColor,
    HighlightedNote, Piano, PianoError,
};

// Key colors cover all twelve intra-octave values: seven white, five black.
#[test]
fn key_colors_cover_the_octave() {
    let c4 = Note::new(NoteLetter::C, NoteAccidental::Natural);
    let notes = keyboard_notes(1);
    assert_eq!(notes.len(), 12);
    let mut whites: usize = 0;
    let mut blacks: usize = 0;
    for (i, n) in notes.iter().enumerate() {
        assert_eq!(n.intra_octave_semitone_value() as usize, i);
        match n.key_color() {
            KeyColor::White => whites += 1,
            KeyColor::Black => blacks += 1,
        }
    }
    assert_eq!(whites, 7);
    assert_eq!(blacks, 5);
    assert_eq!(c4.key_color(), KeyColor::White);
    // A note spelled below the octave's floor still classifies: C flat sits
    // on the B key, a white one.
    let cb = Note::new(NoteLetter::C, NoteAccidental::Flat);
    assert_eq!(cb.intra_octave_semitone_value(), 11);
    assert_eq!(cb.key_color(), KeyColor::White);
}

// One octave at width 84000: seven white keys tile the span exactly, and
// each of the five black keys strictly overlaps its two neighbors.
#[test]
fn single_octave_layout_geometry() {
    let width: u64 = 84000;
    let padding: u64 = 10000;
    let notes = keyboard_notes(1);
    let highlighted: Vec<HighlightedNote> = Vec::new();
    let keys = layout_keys(&notes, &highlighted, width, 60000, padding, 5000, 1);
    assert_eq!(keys.len(), 12);

    let whites = white_layer(&keys);
    let blacks = black_layer(&keys);
    assert_eq!(whites.len(), 7);
    assert_eq!(blacks.len(), 5);

    // White keys abut and their widths sum to the full width.
    let white_width = width / 7;
    let mut total: u64 = 0;
    for (j, k) in whites.iter().enumerate() {
        assert_eq!(k.width, white_width);
        assert_eq!(k.x, (padding + white_width * j as u64) as i64);
        total += k.width;
    }
    assert_eq!(total, width);

    // Each black key starts strictly inside the white key to its left and
    // ends strictly inside the one to its right.
    let anchors = [1usize, 2, 4, 5, 6];
    for (j, b) in blacks.iter().enumerate() {
        let left = &whites[anchors[j] - 1];
        let right = &whites[anchors[j]];
        assert!(left.x < b.x);
        assert!(b.x < left.x + left.width as i64);
        assert!(right.x < b.x + b.width as i64);
        assert!(b.x + (b.width as i64) < right.x + right.width as i64);
    }
}

// The exact metadata numbers for the default two-octave piano.
#[test]
fn render_metadata_numbers() {
    let highlighted: Vec<HighlightedNote> = Vec::new();
    let width: u64 = 256000;
    let height: u64 = 112256;

    let c4 = Note::new(NoteLetter::C, NoteAccidental::Natural);
    let md = note_render_metadata(&c4, &highlighted, width, height, 2);
    assert_eq!(md.width, 256000 / 14);
    assert_eq!(md.height, height);
    assert_eq!(md.x_shift, 0);
    assert_eq!(md.visual_spec, "white");

    let db4 = Note::new(NoteLetter::D, NoteAccidental::Flat);
    let md = note_render_metadata(&db4, &highlighted, width, height, 2);
    assert_eq!(md.width, 256000 / 24);
    assert_eq!(md.height, 112256 * 689 / 1000);
    assert_eq!(md.x_shift, 128000 * 518 / 10000);
    assert_eq!(md.visual_spec, "black");
}

// Highlight matching goes by sounding pitch, not by spelling, and the
// first matching highlight wins.
#[test]
fn highlight_matches_enharmonically() {
    let cs4 = Note::new(NoteLetter::C, NoteAccidental::Sharp);
    let db4 = Note::new(NoteLetter::D, NoteAccidental::Flat);
    let highlighted = vec![
        HighlightedNote {
            note: cs4,
            color: HighlightColor::Green,
        },
        HighlightedNote {
            note: db4,
            color: HighlightColor::Red,
        },
    ];
    let md = note_render_metadata(&db4, &highlighted, 256000, 112256, 2);
    assert_eq!(md.visual_spec, "#2ecc71");

    let c5 = Note {
        letter: NoteLetter::C,
        accidental: NoteAccidental::Sharp,
        octave: 5,
    };
    let md = note_render_metadata(&c5, &highlighted, 256000, 112256, 2);
    assert_eq!(md.visual_spec, "black");
}

// The stock highlight colors write their fixed hex codes; a custom color
// writes itself.
#[test]
fn highlight_hex_codes() {
    let n = Note::new(NoteLetter::C, NoteAccidental::Natural);
    let red = HighlightedNote {
        note: n,
        color: HighlightColor::Red,
    };
    assert_eq!(red.to_hex(), "#e74c3c");
    let green = HighlightedNote {
        note: n,
        color: HighlightColor::Green,
    };
    assert_eq!(green.to_hex(), "#2ecc71");
    let custom = HighlightedNote {
        note: n,
        color: HighlightColor::Custom("#123456".to_string()),
    };
    assert_eq!(custom.to_hex(), "#123456");
}

// A full two-octave piano renders 24 keys; highlighting "C" colors the C4
// key red and leaves C5 alone.
#[test]
fn default_piano_render() {
    let mut piano = Piano::new();
    assert!(piano.is_well_formed());
    piano.highlight_note("C", HighlightColor::Red).unwrap();
    let keys = piano.render_keys();
    assert_eq!(keys.len(), 24);
    assert_eq!(keys[0].fill, "#e74c3c");
    assert_eq!(keys[12].fill, "white");
    assert_eq!(white_layer(&keys).len(), 14);
    assert_eq!(black_layer(&keys).len(), 10);
    assert_eq!(keys[0].y, 20000);
}

// Text that is not a note is rejected and leaves the piano unchanged.
#[test]
fn highlight_rejects_bad_note() {
    let mut piano = Piano::new();
    let r = piano.highlight_note("H#", HighlightColor::Red);
    assert_eq!(r, Err(PianoError::InvalidNoteString));
    let keys = piano.render_keys();
    assert_eq!(keys[0].fill, "white");
}
