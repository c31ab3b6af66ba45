//! The piano layout engine: turns an ordered run of notes plus a highlight
//! mapping into key rectangles with absolute positions and fill colors.
//!
//! All geometry is integer, measured in thousandths of a pixel, so every
//! coordinate here is exact and stated in the contracts. The layout walks
//! the notes once with a horizontal cursor: a white key is emitted at the
//! cursor and advances it by one white-key width; a black key is emitted
//! anchored to the cursor, shifted left by a fixed fraction of the octave
//! width that depends on which of the five black positions it occupies, and
//! leaves the cursor alone. White and black keys form two layers; drawing
//! black after white keeps the short keys visible.

use vstd::prelude::*;
use vstd::string::StringExecFns;

use crate::note::{
    lemma_parsed_note_octave, octave_in_range, spec_apply_interval, spec_ascending_scale,
    spec_intra_octave_value, spec_key_color, spec_parse_note, spec_semitone_value, KeyColor, Note,
    NoteAccidental, NoteLetter,
};
use crate::scale::{chromatic, spec_chromatic_intervals};

verus! {

/// A fill color for a highlighted key: two stock colors and an arbitrary
/// hex code.
pub enum HighlightColor {
    Red,
    Green,
    Custom(String),
}

/// A note marked for coloring on the keyboard. Matching is by absolute
/// sounding pitch — enharmonic spellings match, different octaves do not —
/// so highlighting C sharp 4 colors the D flat 4 key and leaves C sharp 5
/// alone.
pub struct HighlightedNote {
    pub note: Note,
    pub color: HighlightColor,
}

/// Failure to set up a piano rendering.
#[derive(PartialEq, Eq, Structural, Debug)]
pub enum PianoError {
    InvalidNoteString,
}

/// The hex text written for a highlight color.
pub open spec fn hex_chars(c: HighlightColor) -> Seq<char> {
    match c {
        HighlightColor::Red => seq!['#', 'e', '7', '4', 'c', '3', 'c'],
        HighlightColor::Green => seq!['#', '2', 'e', 'c', 'c', '7', '1'],
        HighlightColor::Custom(hex) => hex@,
    }
}

impl HighlightedNote {
    /// The hex text of this highlight's color.
    pub fn to_hex(&self) -> (r: String)
        ensures
            r@ == hex_chars(self.color),
    {
        match &self.color {
            HighlightColor::Red => {
                let s = String::from_str("#e74c3c");
                proof {
                    reveal_strlit("#e74c3c");
                    assert(s@ =~= hex_chars(self.color));
                }
                s
            },
            HighlightColor::Green => {
                let s = String::from_str("#2ecc71");
                proof {
                    reveal_strlit("#2ecc71");
                    assert(s@ =~= hex_chars(self.color));
                }
                s
            },
            HighlightColor::Custom(hex) => hex.clone(),
        }
    }
}

/// The position of the first highlight whose note sounds the pitch `v`,
/// if any does.
pub open spec fn first_match_index(hs: Seq<HighlightedNote>, v: int) -> Option<int>
    decreases hs.len(),
{
    if hs.len() == 0 {
        None
    } else if spec_semitone_value(hs[0].note) == v {
        Some(0)
    } else {
        match first_match_index(hs.drop_first(), v) {
            None => None,
            Some(i) => Some(i + 1),
        }
    }
}

proof fn lemma_first_match_found(hs: Seq<HighlightedNote>, v: int, i: int)
    requires
        0 <= i < hs.len(),
        spec_semitone_value(hs[i].note) == v,
        forall|j: int| 0 <= j < i ==> spec_semitone_value(#[trigger] hs[j].note) != v,
    ensures
        first_match_index(hs, v) == Some(i),
    decreases i,
{
    if i > 0 {
        let tail = hs.drop_first();
        assert forall|j: int| 0 <= j < i - 1 implies spec_semitone_value(
            #[trigger] tail[j].note,
        ) != v by {
            assert(tail[j] == hs[j + 1]);
        }
        assert(tail[i - 1] == hs[i]);
        lemma_first_match_found(tail, v, i - 1);
    }
}

proof fn lemma_first_match_none(hs: Seq<HighlightedNote>, v: int)
    requires
        forall|j: int| 0 <= j < hs.len() ==> spec_semitone_value(#[trigger] hs[j].note) != v,
    ensures
        first_match_index(hs, v) is None,
    decreases hs.len(),
{
    if hs.len() > 0 {
        let tail = hs.drop_first();
        assert forall|j: int| 0 <= j < tail.len() implies spec_semitone_value(
            #[trigger] tail[j].note,
        ) != v by {
            assert(tail[j] == hs[j + 1]);
        }
        lemma_first_match_none(tail, v);
    }
}

/// Every highlight whose note's octave the layout can evaluate.
pub open spec fn highlights_in_range(hs: Seq<HighlightedNote>) -> bool {
    forall|i: int| 0 <= i < hs.len() ==> octave_in_range(#[trigger] hs[i].note.octave as int)
}

/// The position of the first highlight sounding the same pitch as `v`.
fn find_highlight(highlighted: &Vec<HighlightedNote>, v: i8) -> (r: Option<usize>)
    requires
        highlights_in_range(highlighted@),
    ensures
        r matches Some(i) ==> i < highlighted@.len() && first_match_index(highlighted@, v as int)
            == Some(i as int),
        r is None ==> first_match_index(highlighted@, v as int) is None,
{
    let n = highlighted.len();
    let mut idx: usize = 0;
    while idx < n
        invariant
            0 <= idx <= n,
            n == highlighted@.len(),
            highlights_in_range(highlighted@),
            forall|j: int|
                0 <= j < idx ==> spec_semitone_value(#[trigger] highlighted@[j].note) != v as int,
        decreases n - idx,
    {
        if highlighted[idx].note.inter_octave_semitone_value() == v {
            proof {
                lemma_first_match_found(highlighted@, v as int, idx as int);
            }
            return Some(idx);
        }
        idx += 1;
    }
    proof {
        lemma_first_match_none(highlighted@, v as int);
    }
    None
}

/// The bounds under which all layout arithmetic stays exact in 64 bits:
/// dimensions and padding of at most 2^32 - 1 thousandths of a pixel, at
/// least one octave.
pub open spec fn layout_params_wf(width: int, height: int, padding_x: int, num_octaves: int) -> bool {
    &&& 1 <= num_octaves <= 127
    &&& 0 <= width <= 0xffff_ffff
    &&& 0 <= height <= 0xffff_ffff
    &&& 0 <= padding_x <= 0xffff_ffff
}

/// Width of a key: the render width split evenly over the 7 white or 12
/// chromatic keys of each octave.
pub open spec fn spec_key_width(n: Note, width: int, num_octaves: int) -> int {
    if spec_key_color(n) == KeyColor::White {
        width / (7 * num_octaves)
    } else {
        width / (12 * num_octaves)
    }
}

/// Height of a key: white keys take the full height, black keys a fixed
/// fraction of it.
pub open spec fn spec_key_height(n: Note, height: int) -> int {
    if spec_key_color(n) == KeyColor::White {
        height
    } else {
        height * 689 / 1000
    }
}

/// How far left of its anchoring white key a black key sits, in
/// ten-thousandths of the octave width, by intra-octave position.
pub open spec fn black_offset_factor(intra: int) -> int {
    if intra == 1 {
        518  // D flat
    } else if intra == 3 {
        251  // E flat
    } else if intra == 6 {
        584  // G flat
    } else if intra == 8 {
        384  // A flat
    } else {
        184  // B flat
    }
}

/// Leftward shift of a key relative to the cursor: zero for a white key, a
/// positive amount for a black key.
pub open spec fn spec_key_shift(n: Note, width: int, num_octaves: int) -> int {
    if spec_key_color(n) == KeyColor::White {
        0
    } else {
        (width / num_octaves) * black_offset_factor(spec_intra_octave_value(n)) / 10000
    }
}

/// The text filling a key: the first matching highlight's hex color, else
/// plain white or black.
pub open spec fn spec_fill_chars(hs: Seq<HighlightedNote>, n: Note) -> Seq<char> {
    match first_match_index(hs, spec_semitone_value(n)) {
        Some(i) => hex_chars(hs[i].color),
        None => if spec_key_color(n) == KeyColor::White {
            seq!['w', 'h', 'i', 't', 'e']
        } else {
            seq!['b', 'l', 'a', 'c', 'k']
        },
    }
}

/// Size, shift and fill of one key, before the cursor fixes its absolute
/// position.
pub struct RenderedKeyMetadata {
    pub width: u64,
    pub height: u64,
    /// Leftward shift from the cursor; zero for white keys.
    pub x_shift: u64,
    pub visual_spec: String,
}

/// Computes one key's metadata: dimensions from the key color, shift from
/// the black-key position, fill from the first highlight sounding the same
/// pitch.
pub fn note_render_metadata(
    note: &Note,
    highlighted: &Vec<HighlightedNote>,
    width: u64,
    height: u64,
    num_octaves: i8,
) -> (md: RenderedKeyMetadata)
    requires
        layout_params_wf(width as int, height as int, 0, num_octaves as int),
        octave_in_range(note.octave as int),
        highlights_in_range(highlighted@),
    ensures
        md.width as int == spec_key_width(*note, width as int, num_octaves as int),
        md.height as int == spec_key_height(*note, height as int),
        md.x_shift as int == spec_key_shift(*note, width as int, num_octaves as int),
        md.visual_spec@ == spec_fill_chars(highlighted@, *note),
        md.width as int <= width as int,
        md.x_shift as int <= width as int,
{
    let oct = num_octaves as u64;
    proof {
        vstd::arithmetic::div_mod::lemma_div_nonincreasing(width as int, 7 * (oct as int));
        vstd::arithmetic::div_mod::lemma_div_nonincreasing(width as int, 12 * (oct as int));
        vstd::arithmetic::div_mod::lemma_div_nonincreasing(width as int, oct as int);
    }
    let color = note.key_color();
    let key_width: u64 = match color {
        KeyColor::White => width / (7 * oct),
        KeyColor::Black => width / (12 * oct),
    };
    let key_height: u64 = match color {
        KeyColor::White => height,
        KeyColor::Black => height * 689 / 1000,
    };
    let x_shift: u64 = match color {
        KeyColor::White => 0,
        KeyColor::Black => {
            let octave_width = width / oct;
            let factor: u64 = match note.intra_octave_semitone_value() {
                1 => 518,
                3 => 251,
                6 => 584,
                8 => 384,
                _ => 184,
            };
            proof {
                vstd::arithmetic::mul::lemma_mul_inequality(
                    factor as int,
                    10000,
                    octave_width as int,
                );
                vstd::arithmetic::div_mod::lemma_div_is_ordered(
                    (octave_width as int) * (factor as int),
                    (octave_width as int) * 10000,
                    10000,
                );
                vstd::arithmetic::div_mod::lemma_div_by_multiple(octave_width as int, 10000);
            }
            octave_width * factor / 10000
        },
    };
    let v = note.inter_octave_semitone_value();
    let visual_spec: String = match find_highlight(highlighted, v) {
        Some(i) => highlighted[i].to_hex(),
        None => {
            let s = match color {
                KeyColor::White => String::from_str("white"),
                KeyColor::Black => String::from_str("black"),
            };
            proof {
                reveal_strlit("white");
                reveal_strlit("black");
                assert(s@ =~= spec_fill_chars(highlighted@, *note));
            }
            s
        },
    };
    RenderedKeyMetadata { width: key_width, height: key_height, x_shift, visual_spec }
}

/// One laid-out key: absolute position, size, layer and fill.
pub struct KeyRect {
    /// Left edge; can undercut the padding, since black keys shift left.
    pub x: i64,
    /// Top edge: the vertical padding.
    pub y: u64,
    pub width: u64,
    pub height: u64,
    /// Which layer the key belongs to; black keys draw above white ones.
    pub color: KeyColor,
    pub fill: String,
}

/// How many of the first `k` notes are white keys: the number of times the
/// cursor has advanced when key `k` is laid out.
pub open spec fn white_count_before(notes: Seq<Note>, k: int) -> int
    decreases k,
{
    if k <= 0 {
        0
    } else {
        white_count_before(notes, k - 1) + if spec_key_color(notes[k - 1]) == KeyColor::White {
            1int
        } else {
            0int
        }
    }
}

/// Left edge of key `i`: the cursor (padding plus one white-key width per
/// white key already laid out) minus the key's own leftward shift.
pub open spec fn spec_key_x(
    notes: Seq<Note>,
    i: int,
    width: int,
    num_octaves: int,
    padding_x: int,
) -> int {
    padding_x + (width / (7 * num_octaves)) * white_count_before(notes, i) - spec_key_shift(
        notes[i],
        width,
        num_octaves,
    )
}

proof fn lemma_white_count_bound(notes: Seq<Note>, k: int)
    requires
        0 <= k <= notes.len(),
    ensures
        0 <= white_count_before(notes, k) <= k,
    decreases k,
{
    if k > 0 {
        lemma_white_count_bound(notes, k - 1);
    }
}

/// Lays out one key rectangle per note, walking the notes once with a
/// horizontal cursor. Every field of every rectangle is pinned: key `i`
/// sits at `spec_key_x`, at the vertical padding, with the width, height
/// and fill its note demands.
pub fn layout_keys(
    notes: &Vec<Note>,
    highlighted: &Vec<HighlightedNote>,
    width: u64,
    height: u64,
    padding_x: u64,
    padding_y: u64,
    num_octaves: i8,
) -> (r: Vec<KeyRect>)
    requires
        layout_params_wf(width as int, height as int, padding_x as int, num_octaves as int),
        notes@.len() <= 10000,
        forall|i: int| 0 <= i < notes@.len() ==> octave_in_range(#[trigger] notes@[i].octave as int),
        highlights_in_range(highlighted@),
    ensures
        r@.len() == notes@.len(),
        forall|i: int|
            0 <= i < notes@.len() ==> {
                let key = #[trigger] r@[i];
                &&& key.x as int == spec_key_x(
                    notes@,
                    i,
                    width as int,
                    num_octaves as int,
                    padding_x as int,
                )
                &&& key.y == padding_y
                &&& key.width as int == spec_key_width(notes@[i], width as int, num_octaves as int)
                &&& key.height as int == spec_key_height(notes@[i], height as int)
                &&& key.color == spec_key_color(notes@[i])
                &&& key.fill@ == spec_fill_chars(highlighted@, notes@[i])
            },
{
    let n = notes.len();
    let white_width: u64 = width / (7 * (num_octaves as u64));
    proof {
        vstd::arithmetic::div_mod::lemma_div_nonincreasing(
            width as int,
            7 * (num_octaves as int),
        );
    }
    let mut keys: Vec<KeyRect> = Vec::new();
    let mut left_offset: u64 = padding_x;
    let mut i: usize = 0;
    while i < n
        invariant
            0 <= i <= n,
            n == notes@.len(),
            n <= 10000,
            layout_params_wf(width as int, height as int, padding_x as int, num_octaves as int),
            forall|j: int|
                0 <= j < notes@.len() ==> octave_in_range(#[trigger] notes@[j].octave as int),
            highlights_in_range(highlighted@),
            white_width as int == (width as int) / (7 * (num_octaves as int)),
            white_width <= 0xffff_ffff,
            left_offset as int == padding_x + (white_width as int) * white_count_before(
                notes@,
                i as int,
            ),
            keys@.len() == i,
            forall|j: int|
                0 <= j < i ==> {
                    let key = #[trigger] keys@[j];
                    &&& key.x as int == spec_key_x(
                        notes@,
                        j,
                        width as int,
                        num_octaves as int,
                        padding_x as int,
                    )
                    &&& key.y == padding_y
                    &&& key.width as int == spec_key_width(
                        notes@[j],
                        width as int,
                        num_octaves as int,
                    )
                    &&& key.height as int == spec_key_height(notes@[j], height as int)
                    &&& key.color == spec_key_color(notes@[j])
                    &&& key.fill@ == spec_fill_chars(highlighted@, notes@[j])
                },
        decreases n - i,
    {
        proof {
            lemma_white_count_bound(notes@, i as int);
            vstd::arithmetic::mul::lemma_mul_inequality(
                white_count_before(notes@, i as int),
                10000,
                white_width as int,
            );
            vstd::arithmetic::mul::lemma_mul_is_commutative(
                white_width as int,
                white_count_before(notes@, i as int),
            );
            assert(left_offset as int <= padding_x + 10000 * (white_width as int));
        }
        let note = notes[i];
        let md = note_render_metadata(&note, highlighted, width, height, num_octaves);
        let color = note.key_color();
        let x: i64 = (left_offset as i64) - (md.x_shift as i64);
        keys.push(
            KeyRect {
                x,
                y: padding_y,
                width: md.width,
                height: md.height,
                color,
                fill: md.visual_spec,
            },
        );
        match color {
            KeyColor::White => {
                proof {
                    vstd::arithmetic::mul::lemma_mul_is_distributive_add(
                        white_width as int,
                        white_count_before(notes@, i as int),
                        1,
                    );
                }
                left_offset = left_offset + md.width;
            },
            KeyColor::Black => {},
        }
        i += 1;
    }
    keys
}

/// The white keys of a layout, in order.
pub open spec fn white_keys_of(keys: Seq<KeyRect>) -> Seq<KeyRect> {
    keys.filter(|k: KeyRect| k.color == KeyColor::White)
}

/// The black keys of a layout, in order.
pub open spec fn black_keys_of(keys: Seq<KeyRect>) -> Seq<KeyRect> {
    keys.filter(|k: KeyRect| k.color == KeyColor::Black)
}

/// The white-key rectangles of a layout, in order: the lower drawing layer.
pub fn white_layer(keys: &Vec<KeyRect>) -> (r: Vec<KeyRect>)
    ensures
        r@ == white_keys_of(keys@),
{
    let n = keys.len();
    let mut out: Vec<KeyRect> = Vec::new();
    let mut i: usize = 0;
    while i < n
        invariant
            0 <= i <= n,
            n == keys@.len(),
            out@ == white_keys_of(keys@.take(i as int)),
        decreases n - i,
    {
        let key = &keys[i];
        let ghost prefix = keys@.take(i as int);
        let ghost next_prefix = keys@.take(i as int + 1);
        if key.color == KeyColor::White {
            out.push(
                KeyRect {
                    x: key.x,
                    y: key.y,
                    width: key.width,
                    height: key.height,
                    color: key.color,
                    fill: key.fill.clone(),
                },
            );
            proof {
                reveal(Seq::filter);
                assert(next_prefix.drop_last() =~= prefix);
                assert(next_prefix.last() == keys@[i as int]);
                assert(white_keys_of(next_prefix) == white_keys_of(prefix).push(
                    keys@[i as int],
                ));
            }
        } else {
            proof {
                reveal(Seq::filter);
                assert(next_prefix.drop_last() =~= prefix);
                assert(next_prefix.last() == keys@[i as int]);
                assert(white_keys_of(next_prefix) == white_keys_of(prefix));
            }
        }
        i += 1;
    }
    proof {
        assert(keys@.take(n as int) =~= keys@);
    }
    out
}

/// The black-key rectangles of a layout, in order: the upper drawing layer.
pub fn black_layer(keys: &Vec<KeyRect>) -> (r: Vec<KeyRect>)
    ensures
        r@ == black_keys_of(keys@),
{
    let n = keys.len();
    let mut out: Vec<KeyRect> = Vec::new();
    let mut i: usize = 0;
    while i < n
        invariant
            0 <= i <= n,
            n == keys@.len(),
            out@ == black_keys_of(keys@.take(i as int)),
        decreases n - i,
    {
        let key = &keys[i];
        let ghost prefix = keys@.take(i as int);
        let ghost next_prefix = keys@.take(i as int + 1);
        if key.color == KeyColor::Black {
            out.push(
                KeyRect {
                    x: key.x,
                    y: key.y,
                    width: key.width,
                    height: key.height,
                    color: key.color,
                    fill: key.fill.clone(),
                },
            );
            proof {
                reveal(Seq::filter);
                assert(next_prefix.drop_last() =~= prefix);
                assert(next_prefix.last() == keys@[i as int]);
                assert(black_keys_of(next_prefix) == black_keys_of(prefix).push(
                    keys@[i as int],
                ));
            }
        } else {
            proof {
                reveal(Seq::filter);
                assert(next_prefix.drop_last() =~= prefix);
                assert(next_prefix.last() == keys@[i as int]);
                assert(black_keys_of(next_prefix) == black_keys_of(prefix));
            }
        }
        i += 1;
    }
    proof {
        assert(keys@.take(n as int) =~= keys@);
    }
    out
}

/// The chromatic scale rooted at C in octave `o`: the twelve keys of that
/// octave, in order, flats for the black keys.
pub open spec fn spec_octave_run(o: int) -> Seq<Note> {
    spec_ascending_scale(
        Note { letter: NoteLetter::C, accidental: NoteAccidental::Natural, octave: o as i8 },
        spec_chromatic_intervals(),
    )
}

/// The notes a keyboard of `k` octaves shows: chromatic runs from C4 up.
pub open spec fn spec_keyboard_notes(k: int) -> Seq<Note>
    decreases k,
{
    if k <= 0 {
        Seq::<Note>::empty()
    } else {
        spec_keyboard_notes(k - 1) + spec_octave_run(4 + k - 1)
    }
}

/// Builds the note run a keyboard shows: `num_octaves` chromatic octaves,
/// the first rooted at C4.
pub fn keyboard_notes(num_octaves: i8) -> (r: Vec<Note>)
    requires
        1 <= num_octaves <= 5,
    ensures
        r@ == spec_keyboard_notes(num_octaves as int),
        r@.len() == 12 * num_octaves,
        forall|i: int| 0 <= i < r@.len() ==> octave_in_range(#[trigger] r@[i].octave as int),
{
    let scale = chromatic();
    let mut notes: Vec<Note> = Vec::new();
    let mut k: i8 = 0;
    while k < num_octaves
        invariant
            0 <= k <= num_octaves <= 5,
            scale.ascending@ == spec_chromatic_intervals(),
            notes@ == spec_keyboard_notes(k as int),
            notes@.len() == 12 * k,
            forall|i: int| 0 <= i < notes@.len() ==> octave_in_range(#[trigger] notes@[i].octave as int),
        decreases num_octaves - k,
    {
        let root = Note {
            letter: NoteLetter::C,
            accidental: NoteAccidental::Natural,
            octave: 4 + k,
        };
        let mut octave_notes = root.ascending_scale(&scale);
        proof {
            assert(octave_notes@ == spec_octave_run(4 + k as int));
            assert(forall|i: int|
                0 <= i < octave_notes@.len() ==> octave_in_range(
                    #[trigger] octave_notes@[i].octave as int,
                ));
        }
        notes.append(&mut octave_notes);
        k += 1;
    }
    notes
}

/// A keyboard rendering in the making: which notes are highlighted, and
/// the geometry of the diagram, in thousandths of a pixel.
pub struct Piano {
    /// The notes to color, matched against keys by sounding pitch.
    pub highlighted: Vec<HighlightedNote>,
    /// Width of the keyboard.
    pub width: u64,
    /// Height of the keyboard, derived from the width in [`Piano::new`].
    pub height: u64,
    /// Complete octaves to render, starting at C4.
    pub num_octaves: i8,
    /// Blank space left and right of the keyboard.
    pub padding_x: u64,
    /// Blank space above and below the keyboard.
    pub padding_y: u64,
}

/// A piano the layout engine can render: dimensions within the exact-
/// arithmetic bounds, one to five octaves (so every key stays within the
/// supported octaves), and every highlight evaluable.
pub open spec fn piano_wf(p: Piano) -> bool {
    &&& 1 <= p.num_octaves <= 5
    &&& p.width <= 0xffff_ffff
    &&& p.height <= 0xffff_ffff
    &&& p.padding_x <= 0xffff_ffff
    &&& highlights_in_range(p.highlighted@)
}

impl Piano {
    /// A two-octave keyboard, 256 pixels wide, with nothing highlighted.
    pub fn new() -> (r: Piano)
        ensures
            piano_wf(r),
            r.highlighted@.len() == 0,
            r.width == 256000,
            r.height == 256000 * 877 / 2000,
            r.num_octaves == 2,
            r.padding_x == 10000,
            r.padding_y == 20000,
    {
        let num_octaves: i8 = 2;
        Piano {
            highlighted: Vec::new(),
            width: 256000,
            height: 256000 * 877 / (1000 * (num_octaves as u64)),
            padding_x: 10000,
            padding_y: 20000,
            num_octaves,
        }
    }

    /// Whether this piano satisfies the layout engine's bounds.
    pub fn is_well_formed(&self) -> (r: bool)
        ensures
            r == piano_wf(*self),
    {
        if !(1 <= self.num_octaves && self.num_octaves <= 5) {
            return false;
        }
        if self.width > 0xffff_ffff || self.height > 0xffff_ffff || self.padding_x > 0xffff_ffff {
            return false;
        }
        let n = self.highlighted.len();
        let mut i: usize = 0;
        while i < n
            invariant
                0 <= i <= n,
                n == self.highlighted@.len(),
                forall|j: int|
                    0 <= j < i ==> octave_in_range(#[trigger] self.highlighted@[j].note.octave as int),
            decreases n - i,
        {
            let o = self.highlighted[i].note.octave;
            if o < -10 || o > 9 {
                return false;
            }
            i += 1;
        }
        true
    }

    /// Marks one note, written as text, for coloring. Rejects text that is
    /// not a note; a rejected call leaves the piano unchanged.
    pub fn highlight_note(&mut self, note: &str, color: HighlightColor) -> (r: Result<
        (),
        PianoError,
    >)
        requires
            piano_wf(*old(self)),
        ensures
            piano_wf(*final(self)),
            final(self).width == old(self).width,
            final(self).height == old(self).height,
            final(self).num_octaves == old(self).num_octaves,
            final(self).padding_x == old(self).padding_x,
            final(self).padding_y == old(self).padding_y,
            (match spec_parse_note(note@) {
                Some(n) => r is Ok && final(self).highlighted@ == old(self).highlighted@.push(
                    HighlightedNote { note: n, color },
                ),
                None => r == Err::<(), PianoError>(PianoError::InvalidNoteString)
                    && final(self).highlighted@ == old(self).highlighted@,
            }),
    {
        proof {
            lemma_parsed_note_octave(note@);
        }
        let parsed = match Note::from_str(note) {
            Ok(n) => n,
            Err(_) => { return Err(PianoError::InvalidNoteString) },
        };
        self.highlighted.push(HighlightedNote { note: parsed, color });
        Ok(())
    }

    /// Lays out every key of this keyboard: one rectangle per note of the
    /// chromatic run over the piano's octaves, positioned, sized and
    /// filled as [`layout_keys`] pins down.
    pub fn render_keys(&self) -> (r: Vec<KeyRect>)
        requires
            piano_wf(*self),
        ensures
            r@.len() == 12 * self.num_octaves,
            forall|i: int|
                0 <= i < r@.len() ==> {
                    let notes = spec_keyboard_notes(self.num_octaves as int);
                    let key = #[trigger] r@[i];
                    &&& key.x as int == spec_key_x(
                        notes,
                        i,
                        self.width as int,
                        self.num_octaves as int,
                        self.padding_x as int,
                    )
                    &&& key.y == self.padding_y
                    &&& key.width as int == spec_key_width(
                        notes[i],
                        self.width as int,
                        self.num_octaves as int,
                    )
                    &&& key.height as int == spec_key_height(notes[i], self.height as int)
                    &&& key.color == spec_key_color(notes[i])
                    &&& key.fill@ == spec_fill_chars(self.highlighted@, notes[i])
                },
    {
        let notes = keyboard_notes(self.num_octaves);
        layout_keys(
            &notes,
            &self.highlighted,
            self.width,
            self.height,
            self.padding_x,
            self.padding_y,
            self.num_octaves,
        )
    }
}

/// Position in a chromatic octave run of the j-th white key, j in 0..=6.
pub open spec fn white_position(j: int) -> int {
    if j == 0 {
        0
    } else if j == 1 {
        2
    } else if j == 2 {
        4
    } else if j == 3 {
        5
    } else if j == 4 {
        7
    } else if j == 5 {
        9
    } else {
        11
    }
}

/// Position in a chromatic octave run of the j-th black key, j in 0..=4.
pub open spec fn black_position(j: int) -> int {
    if j == 0 {
        1
    } else if j == 1 {
        3
    } else if j == 2 {
        6
    } else if j == 3 {
        8
    } else {
        10
    }
}

/// Rank of the white key the j-th black key is anchored to: the black key
/// hangs between white keys `black_anchor(j) - 1` and `black_anchor(j)`.
pub open spec fn black_anchor(j: int) -> int {
    if j == 0 {
        1
    } else if j == 1 {
        2
    } else if j == 2 {
        4
    } else if j == 3 {
        5
    } else {
        6
    }
}

/// The laid-out single octave: a chromatic run of one octave, rendered at
/// width `w`, makes exactly 7 white keys that tile the span — the j-th
/// starts at `px + j * (w / 7)` and is `w / 7` wide, so their widths sum to
/// exactly `w` — and exactly 5 black keys, each starting strictly inside
/// the white key to its left and ending strictly inside the one to its
/// right. Stated for widths that split evenly into both white and black
/// key counts (multiples of 84); elsewhere integer division leaves a
/// remainder and the tiling is off by at most 6 units.
#[verifier::rlimit(60)]
pub proof fn lemma_single_octave_layout(
    notes: Seq<Note>,
    keys: Seq<KeyRect>,
    w: int,
    px: int,
    o: int,
)
    requires
        -10 <= o <= 9,
        notes == spec_octave_run(o),
        w >= 84,
        w % 84 == 0,
        keys.len() == notes.len(),
        forall|i: int|
            0 <= i < notes.len() ==> (#[trigger] keys[i]).x as int == spec_key_x(notes, i, w, 1, px)
                && keys[i].width as int == spec_key_width(notes[i], w, 1) && keys[i].color
                == spec_key_color(notes[i]),
    ensures
        keys.len() == 12,
        7 * (w / 7) == w,
        forall|i: int|
            0 <= i < 12 ==> ((#[trigger] keys[i]).color == KeyColor::White <==> (i == 0 || i == 2
                || i == 4 || i == 5 || i == 7 || i == 9 || i == 11)),
        forall|j: int|
            0 <= j < 7 ==> (#[trigger] keys[white_position(j)]).x as int == px + j * (w / 7)
                && keys[white_position(j)].width as int == w / 7,
        forall|j: int|
            0 <= j < 5 ==> {
                let b = #[trigger] keys[black_position(j)];
                let lw = keys[white_position(black_anchor(j) - 1)];
                let rw = keys[white_position(black_anchor(j))];
                &&& lw.x < b.x
                &&& (b.x as int) < (lw.x as int) + (lw.width as int)
                &&& (rw.x as int) < (b.x as int) + (b.width as int)
                &&& (b.x as int) + (b.width as int) < (rw.x as int) + (rw.width as int)
            },
{
    broadcast use vstd::arithmetic::div_mod::lemma_fundamental_div_mod;
    broadcast use vstd::arithmetic::div_mod::lemma_fundamental_div_mod_converse_div;
    broadcast use vstd::arithmetic::div_mod::lemma_div_basics_2;
    broadcast use vstd::arithmetic::div_mod::lemma_multiply_divide_lt;
    broadcast use vstd::arithmetic::div_mod::lemma_div_is_ordered;

    let q = w / 84;
    assert(w == 84 * q);
    assert(q >= 1);
    let ww = w / 7;
    let bw = w / 12;
    assert(w == (12 * q) * 7 + 0);
    assert(ww == 12 * q);
    assert(w == (7 * q) * 12 + 0);
    assert(bw == 7 * q);
    assert(7 * ww == w);
    assert(w / 1 == w);

    let root = Note { letter: NoteLetter::C, accidental: NoteAccidental::Natural, octave: o as i8 };
    assert(notes.len() == 12);
    assert forall|i: int| 0 <= i < 12 implies notes[i] == spec_apply_interval(
        root,
        spec_chromatic_intervals()[i],
    ) by {}

    assert(spec_key_color(notes[0]) == KeyColor::White);
    assert(spec_key_color(notes[1]) == KeyColor::Black);
    assert(spec_key_color(notes[2]) == KeyColor::White);
    assert(spec_key_color(notes[3]) == KeyColor::Black);
    assert(spec_key_color(notes[4]) == KeyColor::White);
    assert(spec_key_color(notes[5]) == KeyColor::White);
    assert(spec_key_color(notes[6]) == KeyColor::Black);
    assert(spec_key_color(notes[7]) == KeyColor::White);
    assert(spec_key_color(notes[8]) == KeyColor::Black);
    assert(spec_key_color(notes[9]) == KeyColor::White);
    assert(spec_key_color(notes[10]) == KeyColor::Black);
    assert(spec_key_color(notes[11]) == KeyColor::White);

    assert(spec_intra_octave_value(notes[1]) == 1);
    assert(spec_intra_octave_value(notes[3]) == 3);
    assert(spec_intra_octave_value(notes[6]) == 6);
    assert(spec_intra_octave_value(notes[8]) == 8);
    assert(spec_intra_octave_value(notes[10]) == 10);

    assert(white_count_before(notes, 0) == 0);
    assert(white_count_before(notes, 1) == 1);
    assert(white_count_before(notes, 2) == 1);
    assert(white_count_before(notes, 3) == 2);
    assert(white_count_before(notes, 4) == 2);
    assert(white_count_before(notes, 5) == 3);
    assert(white_count_before(notes, 6) == 4);
    assert(white_count_before(notes, 7) == 4);
    assert(white_count_before(notes, 8) == 5);
    assert(white_count_before(notes, 9) == 5);
    assert(white_count_before(notes, 10) == 6);
    assert(white_count_before(notes, 11) == 6);

    // Each black-key shift is at least one unit and strictly narrower than
    // a black key, so every black key pokes out on both sides of its
    // anchoring cursor.
    lemma_shift_bounds(w, q, 518);
    lemma_shift_bounds(w, q, 251);
    lemma_shift_bounds(w, q, 584);
    lemma_shift_bounds(w, q, 384);
    lemma_shift_bounds(w, q, 184);

    // Pin down every key's left edge, then the overlaps are linear facts.
    assert(keys[0].x as int == px);
    assert(keys[2].x as int == px + ww * 1);
    assert(keys[4].x as int == px + ww * 2);
    assert(keys[5].x as int == px + ww * 3);
    assert(keys[7].x as int == px + ww * 4);
    assert(keys[9].x as int == px + ww * 5);
    assert(keys[11].x as int == px + ww * 6);
    assert(keys[1].x as int == px + ww * 1 - (w * 518) / 10000);
    assert(keys[3].x as int == px + ww * 2 - (w * 251) / 10000);
    assert(keys[6].x as int == px + ww * 4 - (w * 584) / 10000);
    assert(keys[8].x as int == px + ww * 5 - (w * 384) / 10000);
    assert(keys[10].x as int == px + ww * 6 - (w * 184) / 10000);
    assert(keys[1].width as int == bw && keys[3].width as int == bw && keys[6].width as int == bw
        && keys[8].width as int == bw && keys[10].width as int == bw);
}

/// A black-key shift of `f` ten-thousandths of the octave width is at
/// least one unit and strictly less than a black key's width, for any
/// octave width that is a multiple of 84.
proof fn lemma_shift_bounds(w: int, q: int, f: int)
    requires
        w == 84 * q,
        q >= 1,
        184 <= f <= 584,
    ensures
        1 <= (w * f) / 10000,
        (w * f) / 10000 < 7 * q,
{
    broadcast use vstd::arithmetic::div_mod::lemma_div_is_ordered;
    broadcast use vstd::arithmetic::div_mod::lemma_multiply_divide_lt;

    vstd::arithmetic::mul::lemma_mul_inequality(184, f, w);
    vstd::arithmetic::mul::lemma_mul_is_commutative(w, f);
    assert(184 * w <= f * w);
    assert(w * f >= 184 * w);
    assert(184 * w == 15456 * q);
    assert(w * f >= 15456 * q);
    assert(w * f >= 10000);
    assert(10000int / 10000 == 1);
    assert((w * f) / 10000 >= 10000int / 10000);

    vstd::arithmetic::mul::lemma_mul_inequality(f, 584, w);
    assert(w * f <= 584 * w);
    assert(584 * w == 49056 * q);
    assert(w * f < 10000 * (7 * q));
    vstd::arithmetic::div_mod::lemma_multiply_divide_lt(w * f, 10000, 7 * q);
}

} // verus!
