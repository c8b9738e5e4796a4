//! Scales on a root.

use super::iter::{walk_from, ScaleIter};
use super::Scale;
use crate::harmony::interval::Interval;
use crate::harmony::pitch::{Pitch, PitchClass};
use vstd::prelude::*;

verus! {

/// A scale together with the pitch class of its root, as in "B flat
/// major".
#[derive(Debug, Clone, PartialEq, Eq)]
pub struct RootedScale {
    pub root: PitchClass,
    pub intervals: Vec<Interval>,
}

impl Scale {
    /// Creates a scale from the intervals as they stand, be the scale
    /// normal or not.
    pub fn new_unchecked(intervals: Vec<Interval>) -> (res: Self)
        ensures
            res@ == intervals@,
    {
        Self(intervals)
    }

    /// Puts the scale on a root, and gives it up.
    pub fn to_rooted(self, root: PitchClass) -> (res: RootedScale)
        ensures
            res.root == root,
            res.intervals@ == self@,
    {
        RootedScale { root, intervals: self.0 }
    }

    /// Puts a copy of the scale on a root.
    pub fn add_root(&self, root: PitchClass) -> (res: RootedScale)
        ensures
            res.root == root,
            res.intervals@ == self@,
    {
        let mut intervals: Vec<Interval> = Vec::new();
        let mut i: usize = 0;
        while i < self.0.len()
            invariant
                i <= self.0.len(),
                intervals@ == self@.take(i as int),
            decreases self.0.len() - i,
        {
            intervals.push(self.0[i]);
            assert(intervals@ =~= self@.take(i + 1));
            i += 1;
        }
        assert(self@.take(self.0.len() as int) =~= self@);
        RootedScale { root, intervals }
    }
}

impl RootedScale {
    /// Returns a walk through the pitches of the scale, octave after
    /// octave, from its root in the given octave.
    pub fn iter_from_octave<'a>(&'a self, octave: i8) -> (res: ScaleIter<'a, Pitch>)
        ensures
            res.root()@ == self.root@.shift_octaves(octave - 4),
            res.intervals() == self.intervals@,
            res.position() == 0,
    {
        walk_from(self.root.place_in_octave(octave), &self.intervals)
    }
}

} // verus!
