use clavier::interval::{maj2, maj3, min3, min6, min7, oct1, perf1, perf4, perf5};
use clavier::note::{
    Note, NoteAccidental, NoteAccidentalParseError, NoteLetter, NoteLetterParseError,
    NoteParseError,
};

// Test that we can create notes, stringify them, and apply intervals correctly, and
// generate a scale.

#[test]
fn test_notes_stringify() {
    let c4 = Note::new(NoteLetter::C, NoteAccidental::Natural);
    assert_eq!(c4.to_string(), "C4");

    let fbb = Note::new(NoteLetter::F, NoteAccidental::DoubleFlat);
    assert_eq!(fbb.to_string(), "Fbb4")
}

#[test]
fn test_intervals() {
    let db = Note::new(NoteLetter::D, NoteAccidental::Flat);
    assert_eq!(db.apply_interval(&min3()).to_string(), "Fb4");

    let cs = Note::new(NoteLetter::C, NoteAccidental::Sharp);
    assert_eq!(cs.apply_interval(&min3()).to_string(), "E4");

    let f = Note::new(NoteLetter::F, NoteAccidental::Natural);

    // Use a scale to test: this is Mixob13
    assert_eq!(f.apply_interval(&perf1()).to_string(), "F4");
    assert_eq!(f.apply_interval(&maj2()).to_string(), "G4");
    assert_eq!(f.apply_interval(&maj3()).to_string(), "A4");
    assert_eq!(f.apply_interval(&perf4()).to_string(), "Bb4");
    assert_eq!(f.apply_interval(&perf5()).to_string(), "C5");
    assert_eq!(f.apply_interval(&min6()).to_string(), "Db5");
    assert_eq!(f.apply_interval(&min7()).to_string(), "Eb5");
    assert_eq!(f.apply_interval(&oct1()).to_string(), "F5");
}

#[test]
fn str_to_note() {
    // Note, no accidentals
    let c = "C";
    let d = "D";

    assert_eq!(
        Note::from_str(c).unwrap(),
        Note {
            letter: NoteLetter::C,
            accidental: NoteAccidental::Natural,
            octave: 4
        }
    );

    assert_eq!(
        Note::from_str(d).unwrap(),
        Note {
            letter: NoteLetter::D,
            accidental: NoteAccidental::Natural,
            octave: 4,
        }
    );

    // Note, accidental
    let eb = "Eb";
    let fb = "F♭";
    let gs = "G#";
    let ash = "A♯";

    assert_eq!(
        Note::from_str(eb).unwrap(),
        Note {
            letter: NoteLetter::E,
            accidental: NoteAccidental::Flat,
            octave: 4,
        }
    );

    assert_eq!(
        Note::from_str(fb).unwrap(),
        Note {
            letter: NoteLetter::F,
            accidental: NoteAccidental::Flat,
            octave: 4,
        }
    );

    assert_eq!(
        Note::from_str(gs).unwrap(),
        Note {
            letter: NoteLetter::G,
            accidental: NoteAccidental::Sharp,
            octave: 4,
        }
    );

    assert_eq!(
        Note::from_str(ash).unwrap(),
        Note {
            letter: NoteLetter::A,
            accidental: NoteAccidental::Sharp,
            octave: 4,
        }
    );

    // Note, double accidental
    let gbb = "Gbb";
    let bss = "B##";
    let bssx = "B×";
    let css = "C♯♯";

    assert_eq!(
        Note::from_str(gbb).unwrap(),
        Note {
            letter: NoteLetter::G,
            accidental: NoteAccidental::DoubleFlat,
            octave: 4,
        }
    );

    assert_eq!(
        Note::from_str(bss).unwrap(),
        Note {
            letter: NoteLetter::B,
            accidental: NoteAccidental::DoubleSharp,
            octave: 4,
        }
    );

    assert_eq!(
        Note::from_str(bssx).unwrap(),
        Note {
            letter: NoteLetter::B,
            accidental: NoteAccidental::DoubleSharp,
            octave: 4,
        }
    );

    assert_eq!(
        Note::from_str(css).unwrap(),
        Note {
            letter: NoteLetter::C,
            accidental: NoteAccidental::DoubleSharp,
            octave: 4,
        }
    );

    // Note octave
    let a0 = "A0";
    let c1 = "C1";
    let b7 = "B7";

    assert_eq!(
        Note::from_str(a0).unwrap(),
        Note {
            letter: NoteLetter::A,
            accidental: NoteAccidental::Natural,
            octave: 0,
        }
    );

    assert_eq!(
        Note::from_str(c1).unwrap(),
        Note {
            letter: NoteLetter::C,
            accidental: NoteAccidental::Natural,
            octave: 1,
        }
    );

    assert_eq!(
        Note::from_str(b7).unwrap(),
        Note {
            letter: NoteLetter::B,
            accidental: NoteAccidental::Natural,
            octave: 7,
        }
    );

    // Note, accidental, octave
    let as_4 = "A#4";
    let bb_7 = "B♭7";

    assert_eq!(
        Note::from_str(as_4).unwrap(),
        Note {
            letter: NoteLetter::A,
            accidental: NoteAccidental::Sharp,
            octave: 4,
        }
    );

    assert_eq!(
        Note::from_str(bb_7).unwrap(),
        Note {
            letter: NoteLetter::B,
            accidental: NoteAccidental::Flat,
            octave: 7,
        }
    );

    // Note, double accidental, octave
    let fbb2 = "Fbb2";
    let bss7 = "B##7";

    assert_eq!(
        Note::from_str(fbb2).unwrap(),
        Note {
            letter: NoteLetter::F,
            accidental: NoteAccidental::DoubleFlat,
            octave: 2,
        }
    );

    assert_eq!(
        Note::from_str(bss7).unwrap(),
        Note {
            letter: NoteLetter::B,
            accidental: NoteAccidental::DoubleSharp,
            octave: 7,
        }
    );
}

#[test]
fn invalid_str_to_note() {
    let hs = "H#";
    assert_eq!(Note::from_str(hs), Err(NoteParseError::InvalidFormat))
}

fn all_letters() -> Vec<NoteLetter> {
    vec![
        NoteLetter::C,
        NoteLetter::D,
        NoteLetter::E,
        NoteLetter::F,
        NoteLetter::G,
        NoteLetter::A,
        NoteLetter::B,
    ]
}

fn all_accidentals() -> Vec<NoteAccidental> {
    vec![
        NoteAccidental::Natural,
        NoteAccidental::Flat,
        NoteAccidental::Sharp,
        NoteAccidental::DoubleFlat,
        NoteAccidental::DoubleSharp,
    ]
}

// Applying a unison returns a structurally equal note, for every spelling.
#[test]
fn unison_is_identity() {
    for letter in all_letters() {
        for accidental in all_accidentals() {
            let n = Note {
                letter,
                accidental,
                octave: 3,
            };
            assert_eq!(n.apply_interval(&perf1()), n);
        }
    }
}

// Applying an octave raises the absolute semitone value by exactly 12.
#[test]
fn octave_adds_twelve_semitones() {
    for letter in all_letters() {
        for accidental in all_accidentals() {
            let n = Note {
                letter,
                accidental,
                octave: 2,
            };
            let up = n.apply_interval(&oct1());
            assert_eq!(
                up.inter_octave_semitone_value(),
                n.inter_octave_semitone_value() + 12
            );
            assert_eq!(up.letter, n.letter);
            assert_eq!(up.accidental, n.accidental);
        }
    }
}

// A minor third above D flat keeps the F letter: F flat, never E.
#[test]
fn minor_third_above_d_flat_is_f_flat() {
    let db = Note::new(NoteLetter::D, NoteAccidental::Flat);
    let third = db.apply_interval(&min3());
    assert_eq!(third.letter, NoteLetter::F);
    assert_eq!(third.accidental, NoteAccidental::Flat);
    assert_eq!(third.to_string(), "Fb4");
}

// A minor third above C sharp needs no accidental: plain E.
#[test]
fn minor_third_above_c_sharp_is_e() {
    let cs = Note::new(NoteLetter::C, NoteAccidental::Sharp);
    let third = cs.apply_interval(&min3());
    assert_eq!(third.letter, NoteLetter::E);
    assert_eq!(third.accidental, NoteAccidental::Natural);
    assert_eq!(third.to_string(), "E4");
}

// Every note the parser can produce reads back from its own text unchanged.
#[test]
fn parse_stringify_round_trip() {
    for letter in all_letters() {
        for accidental in all_accidentals() {
            for octave in 0i8..=8i8 {
                let n = Note {
                    letter,
                    accidental,
                    octave,
                };
                assert_eq!(Note::from_str(&n.to_string()), Ok(n));
            }
        }
    }
}

// Semitone values: C4 is 48, and accidentals shift by their offsets.
#[test]
fn semitone_values() {
    let c4 = Note::new(NoteLetter::C, NoteAccidental::Natural);
    assert_eq!(c4.inter_octave_semitone_value(), 48);
    let cb4 = Note::new(NoteLetter::C, NoteAccidental::Flat);
    assert_eq!(cb4.inter_octave_semitone_value(), 47);
    let bs3 = Note {
        letter: NoteLetter::B,
        accidental: NoteAccidental::Sharp,
        octave: 3,
    };
    assert_eq!(bs3.inter_octave_semitone_value(), 48);
    assert_eq!(cb4.intra_octave_semitone_value(), 11);
    assert_eq!(bs3.intra_octave_semitone_value(), 0);
}

// Enharmonic identity differs from structural equality: C sharp and D flat
// sound the same but are spelled apart.
#[test]
fn enharmonic_versus_structural() {
    let cs = Note::new(NoteLetter::C, NoteAccidental::Sharp);
    let db = Note::new(NoteLetter::D, NoteAccidental::Flat);
    assert!(cs.enharmonic_eq(&db));
    assert_ne!(cs, db);
    let cs5 = Note {
        letter: NoteLetter::C,
        accidental: NoteAccidental::Sharp,
        octave: 5,
    };
    assert!(!cs.enharmonic_eq(&cs5));
}

// An unspellable application is reported, not forced: a double-flat root
// pushed down a minor third would need a triple flat.
#[test]
fn unspellable_interval_is_none() {
    let cbb = Note::new(NoteLetter::C, NoteAccidental::DoubleFlat);
    assert_eq!(cbb.checked_apply_interval(&min3()), None);
    let c = Note::new(NoteLetter::C, NoteAccidental::Natural);
    let eb = Note::new(NoteLetter::E, NoteAccidental::Flat);
    assert_eq!(c.checked_apply_interval(&min3()), Some(eb));
}

// Letter and accidental parsers accept their alphabets and nothing else.
#[test]
fn letter_and_accidental_parsers() {
    assert_eq!(NoteLetter::from_str("G"), Ok(NoteLetter::G));
    assert_eq!(
        NoteLetter::from_str("H"),
        Err(NoteLetterParseError::ProvideCapitalLetterAThroughG)
    );
    assert!(NoteLetter::from_str("c").is_err());
    assert!(NoteLetter::from_str("").is_err());
    assert_eq!(
        NoteAccidental::from_str(""),
        Ok(NoteAccidental::Natural)
    );
    assert_eq!(
        NoteAccidental::from_str("♭♭"),
        Ok(NoteAccidental::DoubleFlat)
    );
    assert_eq!(
        NoteAccidental::from_str("×"),
        Ok(NoteAccidental::DoubleSharp)
    );
    assert_eq!(
        NoteAccidental::from_str("b#"),
        Err(NoteAccidentalParseError::InvalidAccidental)
    );
    assert!(NoteAccidental::from_str("bbb").is_err());
}

// Malformed notes the parser must reject, never partially accept.
#[test]
fn parser_rejects_malformed() {
    for bad in ["", "H", "c4", "C9", "Cb9", "C#b", "C##5x", "4", "C44", "♭"] {
        assert_eq!(Note::from_str(bad), Err(NoteParseError::InvalidFormat));
    }
}
