//! The note model: a pitch spelled as (letter, accidental, octave).
//!
//! Equality of notes is structural and spelling-sensitive: C sharp 4 and
//! D flat 4 are different notes even though they sound the same. Enharmonic
//! identity (same sounding pitch) is a separate, named comparison over
//! semitone values. Interval application advances the note letter first and
//! only then picks the accidental that lands on the demanded semitone
//! distance, which is what keeps derived notes correctly spelled.

use vstd::prelude::*;
use vstd::string::StrSliceExecFns;
use vstd::string::StringExecFns;

use crate::interval::{interval_wf, Interval};
use crate::scale::Scale;

verus! {

/// One of the 7 note letters, cyclic: past B the cycle wraps to C and the
/// octave carries.
#[derive(Clone, Copy, PartialEq, Eq, Structural, Debug)]
pub enum NoteLetter {
    C,
    D,
    E,
    F,
    G,
    A,
    B,
}

/// An accidental: a semitone adjustment of -2..=2 applied to a letter.
#[derive(Clone, Copy, PartialEq, Eq, Structural, Debug)]
pub enum NoteAccidental {
    Natural,
    Flat,
    Sharp,
    DoubleFlat,
    DoubleSharp,
}

/// The color of the physical piano key a note falls on.
#[derive(Clone, Copy, PartialEq, Eq, Structural, Debug)]
pub enum KeyColor {
    White,
    Black,
}

/// A pitch: letter, accidental, and octave. Structurally equal notes are
/// identically spelled; see [`Note::enharmonic_eq`] for pitch identity.
#[derive(Clone, Copy, PartialEq, Eq, Structural, Debug)]
pub struct Note {
    pub letter: NoteLetter,
    pub accidental: NoteAccidental,
    /// The octave number; the parser produces 0 through 8.
    pub octave: i8,
}

/// Position of a letter in the C-rooted cycle: C is 0, B is 6.
pub open spec fn letter_index(l: NoteLetter) -> int {
    match l {
        NoteLetter::C => 0,
        NoteLetter::D => 1,
        NoteLetter::E => 2,
        NoteLetter::F => 3,
        NoteLetter::G => 4,
        NoteLetter::A => 5,
        NoteLetter::B => 6,
    }
}

/// The letter at a cycle position, inverse of [`letter_index`] on 0..=6.
pub open spec fn letter_of_index(i: int) -> NoteLetter {
    if i == 0 {
        NoteLetter::C
    } else if i == 1 {
        NoteLetter::D
    } else if i == 2 {
        NoteLetter::E
    } else if i == 3 {
        NoteLetter::F
    } else if i == 4 {
        NoteLetter::G
    } else if i == 5 {
        NoteLetter::A
    } else {
        NoteLetter::B
    }
}

/// Fixed semitone offset of each letter within an octave.
pub open spec fn letter_semitones(l: NoteLetter) -> int {
    match l {
        NoteLetter::C => 0,
        NoteLetter::D => 2,
        NoteLetter::E => 4,
        NoteLetter::F => 5,
        NoteLetter::G => 7,
        NoteLetter::A => 9,
        NoteLetter::B => 11,
    }
}

/// Semitone offset contributed by an accidental.
pub open spec fn accidental_semitones(a: NoteAccidental) -> int {
    match a {
        NoteAccidental::Natural => 0,
        NoteAccidental::Flat => -1,
        NoteAccidental::Sharp => 1,
        NoteAccidental::DoubleFlat => -2,
        NoteAccidental::DoubleSharp => 2,
    }
}

/// Octaves for which every semitone value fits in the `i8` the note carries.
pub open spec fn octave_in_range(o: int) -> bool {
    -10 <= o <= 9
}

/// Absolute semitone value: spans octaves, orders notes by sounding pitch.
pub open spec fn spec_semitone_value(n: Note) -> int {
    12 * (n.octave as int) + letter_semitones(n.letter) + accidental_semitones(n.accidental)
}

/// Pitch position within a single octave, in 0..=11 whatever the spelling.
pub open spec fn spec_intra_octave_value(n: Note) -> int {
    (letter_semitones(n.letter) + accidental_semitones(n.accidental)) % 12
}

/// White keys sit on the intra-octave values {0,2,4,5,7,9,11}; the other
/// five values are black keys.
pub open spec fn spec_key_color(n: Note) -> KeyColor {
    let v = spec_intra_octave_value(n);
    if v == 0 || v == 2 || v == 4 || v == 5 || v == 7 || v == 9 || v == 11 {
        KeyColor::White
    } else {
        KeyColor::Black
    }
}

impl NoteLetter {
    /// Cycle position of this letter, C first.
    pub fn ordinal(&self) -> (r: i8)
        ensures
            r as int == letter_index(*self),
    {
        match self {
            NoteLetter::C => 0,
            NoteLetter::D => 1,
            NoteLetter::E => 2,
            NoteLetter::F => 3,
            NoteLetter::G => 4,
            NoteLetter::A => 5,
            NoteLetter::B => 6,
        }
    }

    /// The letter at a cycle position.
    pub fn of_ordinal(i: i8) -> (r: NoteLetter)
        requires
            0 <= i < 7,
        ensures
            r == letter_of_index(i as int),
    {
        if i == 0 {
            NoteLetter::C
        } else if i == 1 {
            NoteLetter::D
        } else if i == 2 {
            NoteLetter::E
        } else if i == 3 {
            NoteLetter::F
        } else if i == 4 {
            NoteLetter::G
        } else if i == 5 {
            NoteLetter::A
        } else {
            NoteLetter::B
        }
    }

    /// Walks `number` letters up the cycle. Returns the letter reached and
    /// how many octaves the walk wrapped past B.
    pub fn advance_by(&self, number: i8) -> (r: (NoteLetter, i8))
        requires
            0 <= number <= 7,
        ensures
            r.0 == advanced_letter(*self, number as int),
            r.1 as int == octave_carry(*self, number as int),
            0 <= r.1 <= 1,
    {
        let new_letter_num: i8 = self.ordinal() + number;
        let new_octaves: i8 = new_letter_num / 7;
        let letter = NoteLetter::of_ordinal(new_letter_num % 7);
        (letter, new_octaves)
    }

    /// Semitone offset of this letter within its octave.
    pub fn semitone_offset(&self) -> (r: i8)
        ensures
            r as int == letter_semitones(*self),
    {
        match self {
            NoteLetter::C => 0,
            NoteLetter::D => 2,
            NoteLetter::E => 4,
            NoteLetter::F => 5,
            NoteLetter::G => 7,
            NoteLetter::A => 9,
            NoteLetter::B => 11,
        }
    }
}

/// The letter reached by walking `number` letters up the cycle from `l`.
pub open spec fn advanced_letter(l: NoteLetter, number: int) -> NoteLetter {
    letter_of_index((letter_index(l) + number) % 7)
}

/// How many times the walk from `l` over `number` letters wraps past B.
pub open spec fn octave_carry(l: NoteLetter, number: int) -> int {
    (letter_index(l) + number) / 7
}

/// Semitones between a note and the natural note `number` letters above it:
/// the distance the bare letter walk covers, before any new accidental.
pub open spec fn spec_actual_distance(n: Note, iv: Interval) -> int {
    12 * octave_carry(n.letter, iv.number as int) + letter_semitones(
        advanced_letter(n.letter, iv.number as int),
    ) - letter_semitones(n.letter) - accidental_semitones(n.accidental)
}

/// The semitone correction the destination accidental must supply.
pub open spec fn spec_interval_delta(n: Note, iv: Interval) -> int {
    (iv.semitones as int) - spec_actual_distance(n, iv)
}

/// An interval applied to a note is spellable when a single accidental in
/// the double-flat..=double-sharp range can supply the correction. The
/// catalog intervals satisfy this for every note whose own accidental does
/// not push the correction out of that range.
pub open spec fn spellable(n: Note, iv: Interval) -> bool {
    -2 <= spec_interval_delta(n, iv) <= 2
}

/// The accidental supplying a correction of `d` semitones, for d in -2..=2.
pub open spec fn accidental_of_delta(d: int) -> NoteAccidental {
    if d == -2 {
        NoteAccidental::DoubleFlat
    } else if d == -1 {
        NoteAccidental::Flat
    } else if d == 0 {
        NoteAccidental::Natural
    } else if d == 1 {
        NoteAccidental::Sharp
    } else {
        NoteAccidental::DoubleSharp
    }
}

/// The note an interval lands on: letter advanced by the interval's number,
/// octave carried past B, accidental chosen to make the semitone distance
/// exactly the interval's.
pub open spec fn spec_apply_interval(n: Note, iv: Interval) -> Note {
    Note {
        letter: advanced_letter(n.letter, iv.number as int),
        accidental: accidental_of_delta(spec_interval_delta(n, iv)),
        octave: (n.octave + octave_carry(n.letter, iv.number as int)) as i8,
    }
}

impl NoteAccidental {
    /// Semitone adjustment this accidental applies.
    pub fn semitone_offset(&self) -> (r: i8)
        ensures
            r as int == accidental_semitones(*self),
    {
        match self {
            NoteAccidental::Natural => 0,
            NoteAccidental::Flat => -1,
            NoteAccidental::Sharp => 1,
            NoteAccidental::DoubleFlat => -2,
            NoteAccidental::DoubleSharp => 2,
        }
    }
}

impl Note {
    /// A note in the default octave, 4.
    pub fn new(letter: NoteLetter, accidental: NoteAccidental) -> (r: Note)
        ensures
            r == (Note { letter, accidental, octave: 4 }),
    {
        Note { letter, accidental, octave: 4 }
    }

    /// Absolute semitone value of this note. Deliberately not reduced modulo
    /// 12: accidentals are allowed to spill into the neighboring octave.
    pub fn inter_octave_semitone_value(&self) -> (r: i8)
        requires
            octave_in_range(self.octave as int),
        ensures
            r as int == spec_semitone_value(*self),
    {
        let octave_offset: i8 = 12 * self.octave;
        octave_offset + self.letter.semitone_offset() + self.accidental.semitone_offset()
    }

    /// Pitch position of this note within one octave, always in 0..=11.
    pub fn intra_octave_semitone_value(&self) -> (r: i8)
        ensures
            r as int == spec_intra_octave_value(*self),
            0 <= r < 12,
    {
        let s: i8 = self.letter.semitone_offset() + self.accidental.semitone_offset();
        if s < 0 {
            s + 12
        } else {
            s % 12
        }
    }

    /// How many semitones this note lies above `other` (negative if below).
    pub fn get_semitone_distance(&self, other: &Note) -> (r: i8)
        requires
            octave_in_range(self.octave as int),
            octave_in_range(other.octave as int),
            -128 <= spec_semitone_value(*self) - spec_semitone_value(*other) <= 127,
        ensures
            r as int == spec_semitone_value(*self) - spec_semitone_value(*other),
    {
        let our_value = self.inter_octave_semitone_value();
        let other_value = other.inter_octave_semitone_value();
        our_value - other_value
    }

    /// Whether this note and `other` sound the same pitch, whatever their
    /// spelling. Distinct from `==`, which compares spelling.
    pub fn enharmonic_eq(&self, other: &Note) -> (r: bool)
        requires
            octave_in_range(self.octave as int),
            octave_in_range(other.octave as int),
        ensures
            r == (spec_semitone_value(*self) == spec_semitone_value(*other)),
    {
        self.inter_octave_semitone_value() == other.inter_octave_semitone_value()
    }

    /// The color of the piano key this note sounds on.
    pub fn key_color(&self) -> (r: KeyColor)
        ensures
            r == spec_key_color(*self),
    {
        let v = self.intra_octave_semitone_value();
        match v {
            0 | 2 | 4 | 5 | 7 | 9 | 11 => KeyColor::White,
            _ => KeyColor::Black,
        }
    }

    /// Moves this note up by the given interval. The destination letter is
    /// fixed by the interval's letter distance; the accidental is whatever
    /// lands the letter on the interval's semitone distance.
    pub fn apply_interval(&self, interval: &Interval) -> (r: Note)
        requires
            interval_wf(*interval),
            octave_in_range(self.octave as int),
            octave_in_range(self.octave + octave_carry(self.letter, interval.number as int)),
            spellable(*self, *interval),
        ensures
            r == spec_apply_interval(*self, *interval),
            spec_semitone_value(r) == spec_semitone_value(*self) + interval.semitones,
    {
        let (new_note_letter, new_octaves) = self.letter.advance_by(interval.number);
        let provisional = Note {
            letter: new_note_letter,
            accidental: NoteAccidental::Natural,
            octave: self.octave + new_octaves,
        };
        let distance: i8 = interval.semitones - provisional.get_semitone_distance(self);
        let accidental = if distance == -2 {
            NoteAccidental::DoubleFlat
        } else if distance == -1 {
            NoteAccidental::Flat
        } else if distance == 0 {
            NoteAccidental::Natural
        } else if distance == 1 {
            NoteAccidental::Sharp
        } else {
            NoteAccidental::DoubleSharp
        };
        Note { letter: new_note_letter, accidental, octave: provisional.octave }
    }

    /// Like [`Note::apply_interval`], but tests spellability and the octave
    /// bound instead of demanding them: `None` exactly when the interval
    /// cannot be spelled from this note within a double accidental, or when
    /// the destination octave leaves the supported range.
    pub fn checked_apply_interval(&self, interval: &Interval) -> (r: Option<Note>)
        requires
            interval_wf(*interval),
            octave_in_range(self.octave as int),
        ensures
            (spellable(*self, *interval) && octave_in_range(
                self.octave + octave_carry(self.letter, interval.number as int),
            )) ==> r == Some(spec_apply_interval(*self, *interval)),
            !(spellable(*self, *interval) && octave_in_range(
                self.octave + octave_carry(self.letter, interval.number as int),
            )) ==> r is None,
    {
        let (new_note_letter, new_octaves) = self.letter.advance_by(interval.number);
        let new_octave: i8 = self.octave + new_octaves;
        if new_octave < -10 || new_octave > 9 {
            return None;
        }
        let provisional = Note {
            letter: new_note_letter,
            accidental: NoteAccidental::Natural,
            octave: new_octave,
        };
        let distance: i8 = interval.semitones - provisional.get_semitone_distance(self);
        if distance < -2 || distance > 2 {
            return None;
        }
        Some(self.apply_interval(interval))
    }
}

/// The notes of a scale rooted at `n`: one per interval, in order. The root
/// itself appears through the scale's unison interval.
pub open spec fn spec_ascending_scale(n: Note, ivs: Seq<Interval>) -> Seq<Note> {
    ivs.map(|i: int, iv: Interval| spec_apply_interval(n, iv))
}

/// A scale every interval of which can be applied to root `n`: each is
/// well-formed, spellable from `n`, and keeps the octave in range.
pub open spec fn scale_applicable(n: Note, ivs: Seq<Interval>) -> bool {
    forall|i: int|
        0 <= i < ivs.len() ==> {
            &&& interval_wf(#[trigger] ivs[i])
            &&& spellable(n, ivs[i])
            &&& octave_in_range(n.octave + octave_carry(n.letter, ivs[i].number as int))
        }
}

impl Note {
    /// The notes of `scale` in ascending order, rooted at this note.
    pub fn ascending_scale(&self, scale: &Scale) -> (r: Vec<Note>)
        requires
            octave_in_range(self.octave as int),
            scale_applicable(*self, scale.ascending@),
        ensures
            r@ == spec_ascending_scale(*self, scale.ascending@),
            r@.len() == scale.ascending@.len(),
    {
        let root = *self;
        let n = scale.ascending.len();
        let mut scale_notes: Vec<Note> = Vec::new();
        let mut i: usize = 0;
        while i < n
            invariant
                n == scale.ascending@.len(),
                0 <= i <= n,
                octave_in_range(root.octave as int),
                scale_applicable(root, scale.ascending@),
                scale_notes@ =~= spec_ascending_scale(root, scale.ascending@.take(i as int)),
            decreases n - i,
        {
            let interval = scale.ascending[i];
            let scale_note = root.apply_interval(&interval);
            scale_notes.push(scale_note);
            i += 1;
            proof {
                assert(scale.ascending@.take(i as int).drop_last() =~= scale.ascending@.take(
                    i as int - 1,
                ));
            }
        }
        proof {
            assert(scale.ascending@.take(n as int) =~= scale.ascending@);
        }
        scale_notes
    }
}

/// The shape of a generated scale: one note per interval, and where the
/// scale opens with a unison the first note is the unison applied to the
/// root.
pub proof fn lemma_ascending_scale_shape(n: Note, ivs: Seq<Interval>)
    ensures
        spec_ascending_scale(n, ivs).len() == ivs.len(),
        ivs.len() > 0 ==> spec_ascending_scale(n, ivs)[0] == spec_apply_interval(n, ivs[0]),
{
}

/// Applying a unison (letter distance 0, semitone distance 0) to any note
/// is always spellable and returns the note unchanged.
pub proof fn lemma_unison_identity(n: Note, u: Interval)
    requires
        u.number == 0,
        u.semitones == 0,
        octave_in_range(n.octave as int),
    ensures
        spellable(n, u),
        octave_carry(n.letter, u.number as int) == 0,
        spec_apply_interval(n, u) == n,
{
}

/// Applying an octave (letter distance 7, semitone distance 12) to any note
/// is always spellable, keeps letter and accidental, and raises the
/// absolute semitone value by exactly 12.
pub proof fn lemma_octave_up(n: Note, iv: Interval)
    requires
        iv.number == 7,
        iv.semitones == 12,
        octave_in_range(n.octave as int),
        octave_in_range(n.octave + 1),
    ensures
        spellable(n, iv),
        octave_carry(n.letter, iv.number as int) == 1,
        spec_apply_interval(n, iv).letter == n.letter,
        spec_apply_interval(n, iv).accidental == n.accidental,
        spec_semitone_value(spec_apply_interval(n, iv)) == spec_semitone_value(n) + 12,
{
}

/// Failure to read a note letter from text.
#[derive(PartialEq, Eq, Structural, Debug)]
pub enum NoteLetterParseError {
    ProvideCapitalLetterAThroughG,
}

/// Failure to read an accidental from text.
#[derive(PartialEq, Eq, Structural, Debug)]
pub enum NoteAccidentalParseError {
    InvalidAccidental,
}

/// Failure to read a whole note from text: the recoverable, user-input
/// error class. Malformed text never yields a partial note.
#[derive(PartialEq, Eq, Structural, Debug)]
pub enum NoteParseError {
    InvalidFormat,
}

/// The note letter a single character names, if any.
pub open spec fn letter_of_char(c: char) -> Option<NoteLetter> {
    if c == 'A' {
        Some(NoteLetter::A)
    } else if c == 'B' {
        Some(NoteLetter::B)
    } else if c == 'C' {
        Some(NoteLetter::C)
    } else if c == 'D' {
        Some(NoteLetter::D)
    } else if c == 'E' {
        Some(NoteLetter::E)
    } else if c == 'F' {
        Some(NoteLetter::F)
    } else if c == 'G' {
        Some(NoteLetter::G)
    } else {
        None
    }
}

/// The numeric value of a decimal digit character, if it is one.
pub open spec fn spec_digit(c: char) -> Option<int> {
    if c == '0' {
        Some(0)
    } else if c == '1' {
        Some(1)
    } else if c == '2' {
        Some(2)
    } else if c == '3' {
        Some(3)
    } else if c == '4' {
        Some(4)
    } else if c == '5' {
        Some(5)
    } else if c == '6' {
        Some(6)
    } else if c == '7' {
        Some(7)
    } else if c == '8' {
        Some(8)
    } else if c == '9' {
        Some(9)
    } else {
        None
    }
}

/// The accidental a character run spells: empty for natural, "b"/"bb" or
/// the Unicode flat signs, "#"/"##", the Unicode sharp signs, or the
/// multiplication sign for a double sharp. Anything else is not an
/// accidental.
pub open spec fn accidental_of_chars(s: Seq<char>) -> Option<NoteAccidental> {
    if s.len() == 0 {
        Some(NoteAccidental::Natural)
    } else if s.len() == 1 {
        if s[0] == 'b' || s[0] == '\u{266d}' {
            Some(NoteAccidental::Flat)
        } else if s[0] == '#' || s[0] == '\u{266f}' {
            Some(NoteAccidental::Sharp)
        } else if s[0] == '\u{d7}' {
            Some(NoteAccidental::DoubleSharp)
        } else {
            None
        }
    } else if s.len() == 2 {
        if (s[0] == 'b' && s[1] == 'b') || (s[0] == '\u{266d}' && s[1] == '\u{266d}') {
            Some(NoteAccidental::DoubleFlat)
        } else if (s[0] == '#' && s[1] == '#') || (s[0] == '\u{266f}' && s[1] == '\u{266f}') {
            Some(NoteAccidental::DoubleSharp)
        } else {
            None
        }
    } else {
        None
    }
}

/// The note a character run spells: a letter, an optional accidental, and
/// an optional octave digit 0 through 8 (4 when absent). `None` when the
/// run matches no such spelling.
pub open spec fn spec_parse_note(s: Seq<char>) -> Option<Note> {
    if s.len() == 0 {
        None
    } else {
        match letter_of_char(s[0]) {
            None => None,
            Some(letter) => {
                let has_octave = s.len() >= 2 && spec_digit(s[s.len() - 1]) is Some;
                let octave: int = if has_octave {
                    spec_digit(s[s.len() - 1])->0
                } else {
                    4
                };
                let acc_part = if has_octave {
                    s.subrange(1, s.len() - 1)
                } else {
                    s.subrange(1, s.len() as int)
                };
                if octave > 8 {
                    None
                } else {
                    match accidental_of_chars(acc_part) {
                        None => None,
                        Some(accidental) => Some(Note { letter, accidental, octave: octave as i8 }),
                    }
                }
            },
        }
    }
}

/// The note letter a character names, if any.
pub fn letter_from_char(c: char) -> (r: Option<NoteLetter>)
    ensures
        r == letter_of_char(c),
{
    if c == 'A' {
        Some(NoteLetter::A)
    } else if c == 'B' {
        Some(NoteLetter::B)
    } else if c == 'C' {
        Some(NoteLetter::C)
    } else if c == 'D' {
        Some(NoteLetter::D)
    } else if c == 'E' {
        Some(NoteLetter::E)
    } else if c == 'F' {
        Some(NoteLetter::F)
    } else if c == 'G' {
        Some(NoteLetter::G)
    } else {
        None
    }
}

/// The value of a decimal digit character, if it is one.
pub fn digit_from_char(c: char) -> (r: Option<i8>)
    ensures
        r is Some <==> spec_digit(c) is Some,
        r matches Some(d) ==> spec_digit(c) == Some(d as int) && 0 <= d <= 9,
{
    if c == '0' {
        Some(0)
    } else if c == '1' {
        Some(1)
    } else if c == '2' {
        Some(2)
    } else if c == '3' {
        Some(3)
    } else if c == '4' {
        Some(4)
    } else if c == '5' {
        Some(5)
    } else if c == '6' {
        Some(6)
    } else if c == '7' {
        Some(7)
    } else if c == '8' {
        Some(8)
    } else if c == '9' {
        Some(9)
    } else {
        None
    }
}

impl NoteLetter {
    /// Reads a note letter from text: exactly one of the capitals A-G.
    pub fn from_str(s: &str) -> (r: Result<NoteLetter, NoteLetterParseError>)
        ensures
            (s@.len() == 1 && letter_of_char(s@[0]) is Some) ==> r == Ok::<
                NoteLetter,
                NoteLetterParseError,
            >(letter_of_char(s@[0])->0),
            !(s@.len() == 1 && letter_of_char(s@[0]) is Some) ==> r == Err::<
                NoteLetter,
                NoteLetterParseError,
            >(NoteLetterParseError::ProvideCapitalLetterAThroughG),
    {
        if s.unicode_len() != 1 {
            return Err(NoteLetterParseError::ProvideCapitalLetterAThroughG);
        }
        match letter_from_char(s.get_char(0)) {
            Some(l) => Ok(l),
            None => Err(NoteLetterParseError::ProvideCapitalLetterAThroughG),
        }
    }
}

impl NoteAccidental {
    /// Reads an accidental from text; the empty string reads as natural.
    pub fn from_str(s: &str) -> (r: Result<NoteAccidental, NoteAccidentalParseError>)
        ensures
            (match accidental_of_chars(s@) {
                Some(a) => r == Ok::<NoteAccidental, NoteAccidentalParseError>(a),
                None => r == Err::<NoteAccidental, NoteAccidentalParseError>(
                    NoteAccidentalParseError::InvalidAccidental,
                ),
            }),
    {
        let len = s.unicode_len();
        if len == 0 {
            Ok(NoteAccidental::Natural)
        } else if len == 1 {
            let c = s.get_char(0);
            if c == 'b' || c == '\u{266d}' {
                Ok(NoteAccidental::Flat)
            } else if c == '#' || c == '\u{266f}' {
                Ok(NoteAccidental::Sharp)
            } else if c == '\u{d7}' {
                Ok(NoteAccidental::DoubleSharp)
            } else {
                Err(NoteAccidentalParseError::InvalidAccidental)
            }
        } else if len == 2 {
            let c0 = s.get_char(0);
            let c1 = s.get_char(1);
            if (c0 == 'b' && c1 == 'b') || (c0 == '\u{266d}' && c1 == '\u{266d}') {
                Ok(NoteAccidental::DoubleFlat)
            } else if (c0 == '#' && c1 == '#') || (c0 == '\u{266f}' && c1 == '\u{266f}') {
                Ok(NoteAccidental::DoubleSharp)
            } else {
                Err(NoteAccidentalParseError::InvalidAccidental)
            }
        } else {
            Err(NoteAccidentalParseError::InvalidAccidental)
        }
    }
}

impl Note {
    /// Reads a note from text: `<letter><accidental?><octave?>`, octave a
    /// single digit 0 through 8 and 4 when absent. Malformed text yields
    /// the invalid-format error, never a partial note.
    pub fn from_str(s: &str) -> (r: Result<Note, NoteParseError>)
        ensures
            (match spec_parse_note(s@) {
                Some(n) => r == Ok::<Note, NoteParseError>(n),
                None => r == Err::<Note, NoteParseError>(NoteParseError::InvalidFormat),
            }),
    {
        let len = s.unicode_len();
        if len == 0 {
            return Err(NoteParseError::InvalidFormat);
        }
        let letter = match letter_from_char(s.get_char(0)) {
            Some(l) => l,
            None => { return Err(NoteParseError::InvalidFormat) },
        };
        let mut octave: i8 = 4;
        let mut acc_hi: usize = len;
        if len >= 2 {
            match digit_from_char(s.get_char(len - 1)) {
                Some(d) => {
                    if d > 8 {
                        return Err(NoteParseError::InvalidFormat);
                    }
                    octave = d;
                    acc_hi = len - 1;
                },
                None => {},
            }
        }
        let ghost acc_part = s@.subrange(1, acc_hi as int);
        let acc_len = acc_hi - 1;
        let accidental: NoteAccidental;
        if acc_len == 0 {
            accidental = NoteAccidental::Natural;
        } else if acc_len == 1 {
            let c = s.get_char(1);
            if c == 'b' || c == '\u{266d}' {
                accidental = NoteAccidental::Flat;
            } else if c == '#' || c == '\u{266f}' {
                accidental = NoteAccidental::Sharp;
            } else if c == '\u{d7}' {
                accidental = NoteAccidental::DoubleSharp;
            } else {
                return Err(NoteParseError::InvalidFormat);
            }
        } else if acc_len == 2 {
            let c0 = s.get_char(1);
            let c1 = s.get_char(2);
            if (c0 == 'b' && c1 == 'b') || (c0 == '\u{266d}' && c1 == '\u{266d}') {
                accidental = NoteAccidental::DoubleFlat;
            } else if (c0 == '#' && c1 == '#') || (c0 == '\u{266f}' && c1 == '\u{266f}') {
                accidental = NoteAccidental::DoubleSharp;
            } else {
                return Err(NoteParseError::InvalidFormat);
            }
        } else {
            return Err(NoteParseError::InvalidFormat);
        }
        proof {
            assert(accidental_of_chars(acc_part) == Some(accidental));
        }
        Ok(Note { letter, accidental, octave })
    }
}

/// The character that names a note letter.
pub open spec fn letter_char(l: NoteLetter) -> char {
    match l {
        NoteLetter::C => 'C',
        NoteLetter::D => 'D',
        NoteLetter::E => 'E',
        NoteLetter::F => 'F',
        NoteLetter::G => 'G',
        NoteLetter::A => 'A',
        NoteLetter::B => 'B',
    }
}

/// The ASCII spelling this library writes for an accidental.
pub open spec fn accidental_chars(a: NoteAccidental) -> Seq<char> {
    match a {
        NoteAccidental::Natural => Seq::<char>::empty(),
        NoteAccidental::Flat => seq!['b'],
        NoteAccidental::Sharp => seq!['#'],
        NoteAccidental::DoubleFlat => seq!['b', 'b'],
        NoteAccidental::DoubleSharp => seq!['#', '#'],
    }
}

/// The digit character for an octave 0 through 9.
pub open spec fn octave_char(o: int) -> char {
    if o == 0 {
        '0'
    } else if o == 1 {
        '1'
    } else if o == 2 {
        '2'
    } else if o == 3 {
        '3'
    } else if o == 4 {
        '4'
    } else if o == 5 {
        '5'
    } else if o == 6 {
        '6'
    } else if o == 7 {
        '7'
    } else if o == 8 {
        '8'
    } else {
        '9'
    }
}

/// The text this library writes for a note: letter, accidental, octave.
pub open spec fn spec_note_chars(n: Note) -> Seq<char> {
    seq![letter_char(n.letter)] + accidental_chars(n.accidental) + seq![
        octave_char(n.octave as int),
    ]
}

impl NoteLetter {
    /// The one-character text of this letter.
    pub fn to_string(&self) -> (r: String)
        ensures
            r@ == seq![letter_char(*self)],
    {
        let r = match self {
            NoteLetter::C => String::from_str("C"),
            NoteLetter::D => String::from_str("D"),
            NoteLetter::E => String::from_str("E"),
            NoteLetter::F => String::from_str("F"),
            NoteLetter::G => String::from_str("G"),
            NoteLetter::A => String::from_str("A"),
            NoteLetter::B => String::from_str("B"),
        };
        proof {
            reveal_strlit("C");
            reveal_strlit("D");
            reveal_strlit("E");
            reveal_strlit("F");
            reveal_strlit("G");
            reveal_strlit("A");
            reveal_strlit("B");
            assert(r@ =~= seq![letter_char(*self)]);
        }
        r
    }
}

impl NoteAccidental {
    /// The ASCII text of this accidental; natural writes as nothing.
    pub fn to_string(&self) -> (r: String)
        ensures
            r@ == accidental_chars(*self),
    {
        let r = match self {
            NoteAccidental::Natural => String::new(),
            NoteAccidental::Flat => String::from_str("b"),
            NoteAccidental::Sharp => String::from_str("#"),
            NoteAccidental::DoubleFlat => String::from_str("bb"),
            NoteAccidental::DoubleSharp => String::from_str("##"),
        };
        proof {
            reveal_strlit("b");
            reveal_strlit("#");
            reveal_strlit("bb");
            reveal_strlit("##");
            assert(r@ =~= accidental_chars(*self));
        }
        r
    }
}

/// The one-character text of an octave number 0 through 9.
fn octave_str(o: i8) -> (r: &'static str)
    requires
        0 <= o <= 9,
    ensures
        r@ == seq![octave_char(o as int)],
{
    let r: &'static str = if o == 0 {
        "0"
    } else if o == 1 {
        "1"
    } else if o == 2 {
        "2"
    } else if o == 3 {
        "3"
    } else if o == 4 {
        "4"
    } else if o == 5 {
        "5"
    } else if o == 6 {
        "6"
    } else if o == 7 {
        "7"
    } else if o == 8 {
        "8"
    } else {
        "9"
    };
    proof {
        reveal_strlit("0");
        reveal_strlit("1");
        reveal_strlit("2");
        reveal_strlit("3");
        reveal_strlit("4");
        reveal_strlit("5");
        reveal_strlit("6");
        reveal_strlit("7");
        reveal_strlit("8");
        reveal_strlit("9");
        assert(r@ =~= seq![octave_char(o as int)]);
    }
    r
}

impl Note {
    /// The text of this note: letter, accidental, octave digit — the same
    /// form the parser reads.
    pub fn to_string(&self) -> (r: String)
        requires
            0 <= self.octave <= 9,
        ensures
            r@ == spec_note_chars(*self),
    {
        let mut note_str = self.letter.to_string();
        let acc = self.accidental.to_string();
        note_str.append(acc.as_str());
        note_str.append(octave_str(self.octave));
        proof {
            assert(note_str@ =~= spec_note_chars(*self));
        }
        note_str
    }
}

/// Round trip: every note the parser can produce (octave 0 through 8, any
/// letter and accidental) reads back from its own text as the structurally
/// identical note, exact spelling preserved.
pub proof fn lemma_parse_round_trip(n: Note)
    requires
        0 <= n.octave <= 8,
    ensures
        spec_parse_note(spec_note_chars(n)) == Some(n),
{
    let s = spec_note_chars(n);
    assert(s[0] == letter_char(n.letter));
    assert(letter_of_char(letter_char(n.letter)) == Some(n.letter));
    assert(s[s.len() - 1] == octave_char(n.octave as int));
    assert(spec_digit(octave_char(n.octave as int)) == Some(n.octave as int));
    assert(s.subrange(1, s.len() - 1) =~= accidental_chars(n.accidental));
    assert(accidental_of_chars(accidental_chars(n.accidental)) == Some(n.accidental));
}

/// Whatever the parser accepts carries an octave between 0 and 8: an
/// explicit single digit, or the default 4.
pub proof fn lemma_parsed_note_octave(s: Seq<char>)
    ensures
        spec_parse_note(s) matches Some(n) ==> 0 <= n.octave <= 8,
{
}

/// Text whose first character is not a note letter (or that is empty) is
/// rejected outright: the parser yields no note for it.
pub proof fn lemma_parse_rejects_bad_letter(s: Seq<char>)
    requires
        s.len() == 0 || letter_of_char(s[0]) is None,
    ensures
        spec_parse_note(s) is None,
{
}

/// Every note has an intra-octave value in 0..=11, and the white/black
/// classification covers all twelve: {0,2,4,5,7,9,11} are white and
/// {1,3,6,8,10} are black.
pub proof fn lemma_key_color_total(n: Note)
    ensures
        0 <= spec_intra_octave_value(n) < 12,
        spec_key_color(n) == KeyColor::White <==> (spec_intra_octave_value(n) == 0
            || spec_intra_octave_value(n) == 2 || spec_intra_octave_value(n) == 4
            || spec_intra_octave_value(n) == 5 || spec_intra_octave_value(n) == 7
            || spec_intra_octave_value(n) == 9 || spec_intra_octave_value(n) == 11),
        spec_key_color(n) == KeyColor::Black <==> (spec_intra_octave_value(n) == 1
            || spec_intra_octave_value(n) == 3 || spec_intra_octave_value(n) == 6
            || spec_intra_octave_value(n) == 8 || spec_intra_octave_value(n) == 10),
{
}

} // verus!
