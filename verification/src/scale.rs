//! The scale catalog: named ordered sequences of intervals applied relative
//! to a root note.
//!
//! Each catalog scale is built fresh by its function and is an immutable
//! value thereafter. A scale with no descending sequence descends the same
//! way it ascends.

use vstd::prelude::*;

use crate::interval::{ivl, Interval, IntervalQuality};

verus! {

/// An ordered run of intervals, each applied to the same implicit root.
pub struct Scale {
    pub ascending: Vec<Interval>,
    /// `None` means the descending notes mirror the ascending ones.
    pub descending: Option<Vec<Interval>>,
}

/// The interval run of the chromatic scale: every semitone of one octave,
/// flats for the black keys.
pub open spec fn spec_chromatic_intervals() -> Seq<Interval> {
    seq![
        ivl(IntervalQuality::Perfect, 0, 0),
        ivl(IntervalQuality::Minor, 1, 1),
        ivl(IntervalQuality::Major, 1, 2),
        ivl(IntervalQuality::Minor, 2, 3),
        ivl(IntervalQuality::Major, 2, 4),
        ivl(IntervalQuality::Perfect, 3, 5),
        ivl(IntervalQuality::Diminished, 4, 6),
        ivl(IntervalQuality::Perfect, 4, 7),
        ivl(IntervalQuality::Minor, 5, 8),
        ivl(IntervalQuality::Major, 5, 9),
        ivl(IntervalQuality::Minor, 6, 10),
        ivl(IntervalQuality::Major, 6, 11),
    ]
}

/// The twelve-note chromatic scale.
pub fn chromatic() -> (r: Scale)
    ensures
        r.ascending@ =~= spec_chromatic_intervals(),
        r.descending is None,
{
    let ascending = vec![
        crate::interval::perf1(),
        crate::interval::min2(),
        crate::interval::maj2(),
        crate::interval::min3(),
        crate::interval::maj3(),
        crate::interval::perf4(),
        crate::interval::tritone5(),
        crate::interval::perf5(),
        crate::interval::min6(),
        crate::interval::maj6(),
        crate::interval::min7(),
        crate::interval::maj7(),
    ];
    Scale { ascending, descending: None }
}

/// The interval run of the Mixolydian mode.
pub open spec fn spec_mixo_intervals() -> Seq<Interval> {
    seq![
        ivl(IntervalQuality::Perfect, 0, 0),
        ivl(IntervalQuality::Major, 1, 2),
        ivl(IntervalQuality::Major, 2, 4),
        ivl(IntervalQuality::Perfect, 3, 5),
        ivl(IntervalQuality::Perfect, 4, 7),
        ivl(IntervalQuality::Major, 5, 9),
        ivl(IntervalQuality::Minor, 6, 10),
    ]
}

/// The Mixolydian mode: a major scale with a lowered seventh.
pub fn mixo() -> (r: Scale)
    ensures
        r.ascending@ =~= spec_mixo_intervals(),
        r.descending is None,
{
    let ascending = vec![
        crate::interval::perf1(),
        crate::interval::maj2(),
        crate::interval::maj3(),
        crate::interval::perf4(),
        crate::interval::perf5(),
        crate::interval::maj6(),
        crate::interval::min7(),
    ];
    Scale { ascending, descending: None }
}

/// The interval run of Mixolydian with a lowered ninth.
pub open spec fn spec_mixo_flat9_intervals() -> Seq<Interval> {
    seq![
        ivl(IntervalQuality::Perfect, 0, 0),
        ivl(IntervalQuality::Minor, 1, 1),
        ivl(IntervalQuality::Major, 2, 4),
        ivl(IntervalQuality::Perfect, 3, 5),
        ivl(IntervalQuality::Perfect, 4, 7),
        ivl(IntervalQuality::Major, 5, 9),
        ivl(IntervalQuality::Minor, 6, 10),
    ]
}

/// Mixolydian with a flattened ninth.
pub fn mixo_flat9() -> (r: Scale)
    ensures
        r.ascending@ =~= spec_mixo_flat9_intervals(),
        r.descending is None,
{
    let ascending = vec![
        crate::interval::perf1(),
        crate::interval::min2(),
        crate::interval::maj3(),
        crate::interval::perf4(),
        crate::interval::perf5(),
        crate::interval::maj6(),
        crate::interval::min7(),
    ];
    Scale { ascending, descending: None }
}

/// The interval run of Mixolydian with a lowered thirteenth.
pub open spec fn spec_mixo_flat13_intervals() -> Seq<Interval> {
    seq![
        ivl(IntervalQuality::Perfect, 0, 0),
        ivl(IntervalQuality::Major, 1, 2),
        ivl(IntervalQuality::Major, 2, 4),
        ivl(IntervalQuality::Perfect, 3, 5),
        ivl(IntervalQuality::Perfect, 4, 7),
        ivl(IntervalQuality::Minor, 5, 8),
        ivl(IntervalQuality::Minor, 6, 10),
    ]
}

/// Mixolydian with a flattened thirteenth.
pub fn mixo_flat13() -> (r: Scale)
    ensures
        r.ascending@ =~= spec_mixo_flat13_intervals(),
        r.descending is None,
{
    let ascending = vec![
        crate::interval::perf1(),
        crate::interval::maj2(),
        crate::interval::maj3(),
        crate::interval::perf4(),
        crate::interval::perf5(),
        crate::interval::min6(),
        crate::interval::min7(),
    ];
    Scale { ascending, descending: None }
}

/// The interval run of the altered scale.
pub open spec fn spec_altered_intervals() -> Seq<Interval> {
    seq![
        ivl(IntervalQuality::Perfect, 0, 0),
        ivl(IntervalQuality::Minor, 1, 1),
        ivl(IntervalQuality::Augmented, 1, 3),
        ivl(IntervalQuality::Major, 2, 4),
        ivl(IntervalQuality::Diminished, 4, 6),
        ivl(IntervalQuality::Minor, 5, 8),
        ivl(IntervalQuality::Minor, 6, 10),
    ]
}

/// The altered scale: every chord tension lowered or raised.
pub fn altered() -> (r: Scale)
    ensures
        r.ascending@ =~= spec_altered_intervals(),
        r.descending is None,
{
    let ascending = vec![
        crate::interval::perf1(),
        crate::interval::min2(),
        crate::interval::aug2(),
        crate::interval::maj3(),
        crate::interval::tritone5(),
        crate::interval::min6(),
        crate::interval::min7(),
    ];
    Scale { ascending, descending: None }
}

} // verus!
