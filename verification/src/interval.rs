//! The interval catalog: named musical intervals, each a (quality,
//! letter-distance, semitone-distance) triple.
//!
//! The letter-distance ("number") counts note-letter steps, not semitones: a
//! third spans two letters, so its number is 2. The tension intervals (ninths,
//! elevenths, thirteenths) keep their semitone distance inside one octave, as
//! jazz usage reads them.

use vstd::prelude::*;

verus! {

#[derive(Clone, Copy, PartialEq, Eq, Structural, Debug)]
pub enum IntervalQuality {
    Perfect,
    Major,
    Minor,
    Augmented,
    Diminished,
}

/// An ascending musical interval.
#[derive(Clone, Copy, PartialEq, Eq, Structural, Debug)]
pub struct Interval {
    pub quality: IntervalQuality,
    /// The 0-indexed count of note letters spanned: a minor 2nd is 1,
    /// an augmented 7th is 6, an octave is 7.
    pub number: i8,
    pub semitones: i8,
}

/// An interval the note engine can work with: the letter distance stays
/// within one letter cycle and the semitone distance within one octave.
pub open spec fn interval_wf(iv: Interval) -> bool {
    &&& 0 <= iv.number <= 7
    &&& 0 <= iv.semitones <= 12
}

pub open spec fn ivl(quality: IntervalQuality, number: i8, semitones: i8) -> Interval {
    Interval { quality, number, semitones }
}

pub fn perf1() -> (r: Interval)
    ensures
        r == ivl(IntervalQuality::Perfect, 0, 0),
{
    Interval { quality: IntervalQuality::Perfect, number: 0, semitones: 0 }
}

pub fn min2() -> (r: Interval)
    ensures
        r == ivl(IntervalQuality::Minor, 1, 1),
{
    Interval { quality: IntervalQuality::Minor, number: 1, semitones: 1 }
}

pub fn maj2() -> (r: Interval)
    ensures
        r == ivl(IntervalQuality::Major, 1, 2),
{
    Interval { quality: IntervalQuality::Major, number: 1, semitones: 2 }
}

pub fn aug2() -> (r: Interval)
    ensures
        r == ivl(IntervalQuality::Augmented, 1, 3),
{
    Interval { quality: IntervalQuality::Augmented, number: 1, semitones: 3 }
}

pub fn min3() -> (r: Interval)
    ensures
        r == ivl(IntervalQuality::Minor, 2, 3),
{
    Interval { quality: IntervalQuality::Minor, number: 2, semitones: 3 }
}

pub fn maj3() -> (r: Interval)
    ensures
        r == ivl(IntervalQuality::Major, 2, 4),
{
    Interval { quality: IntervalQuality::Major, number: 2, semitones: 4 }
}

pub fn perf4() -> (r: Interval)
    ensures
        r == ivl(IntervalQuality::Perfect, 3, 5),
{
    Interval { quality: IntervalQuality::Perfect, number: 3, semitones: 5 }
}

pub fn tritone4() -> (r: Interval)
    ensures
        r == ivl(IntervalQuality::Augmented, 3, 6),
{
    Interval { quality: IntervalQuality::Augmented, number: 3, semitones: 6 }
}

pub fn tritone5() -> (r: Interval)
    ensures
        r == ivl(IntervalQuality::Diminished, 4, 6),
{
    Interval { quality: IntervalQuality::Diminished, number: 4, semitones: 6 }
}

pub fn perf5() -> (r: Interval)
    ensures
        r == ivl(IntervalQuality::Perfect, 4, 7),
{
    Interval { quality: IntervalQuality::Perfect, number: 4, semitones: 7 }
}

pub fn min6() -> (r: Interval)
    ensures
        r == ivl(IntervalQuality::Minor, 5, 8),
{
    Interval { quality: IntervalQuality::Minor, number: 5, semitones: 8 }
}

pub fn maj6() -> (r: Interval)
    ensures
        r == ivl(IntervalQuality::Major, 5, 9),
{
    Interval { quality: IntervalQuality::Major, number: 5, semitones: 9 }
}

pub fn min7() -> (r: Interval)
    ensures
        r == ivl(IntervalQuality::Minor, 6, 10),
{
    Interval { quality: IntervalQuality::Minor, number: 6, semitones: 10 }
}

pub fn maj7() -> (r: Interval)
    ensures
        r == ivl(IntervalQuality::Major, 6, 11),
{
    Interval { quality: IntervalQuality::Major, number: 6, semitones: 11 }
}

pub fn oct1() -> (r: Interval)
    ensures
        r == ivl(IntervalQuality::Perfect, 7, 12),
{
    Interval { quality: IntervalQuality::Perfect, number: 7, semitones: 12 }
}

// Tensions: jazz extensions spelled within one octave. A T9 is not
// "something a major ninth away"; it reuses the second's distances.

pub fn t9() -> (r: Interval)
    ensures
        r == ivl(IntervalQuality::Major, 1, 2),
{
    Interval { quality: IntervalQuality::Major, number: 1, semitones: 2 }
}

pub fn tflat9() -> (r: Interval)
    ensures
        r == ivl(IntervalQuality::Minor, 1, 1),
{
    Interval { quality: IntervalQuality::Minor, number: 1, semitones: 1 }
}

pub fn t11() -> (r: Interval)
    ensures
        r == ivl(IntervalQuality::Perfect, 3, 5),
{
    Interval { quality: IntervalQuality::Perfect, number: 3, semitones: 5 }
}

pub fn tsharp11() -> (r: Interval)
    ensures
        r == ivl(IntervalQuality::Augmented, 3, 6),
{
    Interval { quality: IntervalQuality::Augmented, number: 3, semitones: 6 }
}

pub fn t13() -> (r: Interval)
    ensures
        r == ivl(IntervalQuality::Major, 5, 9),
{
    Interval { quality: IntervalQuality::Major, number: 5, semitones: 9 }
}

pub fn tflat13() -> (r: Interval)
    ensures
        r == ivl(IntervalQuality::Minor, 5, 8),
{
    Interval { quality: IntervalQuality::Minor, number: 5, semitones: 8 }
}

} // verus!
