//! Walking through a scale, octave after octave.

use super::Scale;
use crate::harmony::interval::Interval;
use crate::harmony::pitch::Pitch;
use crate::harmony::steps::Steps;
use vstd::prelude::*;

verus! {

/// The `k`-th value of a walk through the intervals `s` from `root`: the
/// root moved by each interval in turn, then the same an octave higher,
/// and so on without end.
pub open spec fn walk(root: Steps, s: Seq<Interval>, k: int) -> Steps
    recommends
        s.len() > 0,
        k >= 0,
{
    root.plus(s[k % s.len() as int]@).shift_octaves(k / s.len() as int)
}

/// A walk through a scale, octave after octave, from a root that is an
/// interval or a pitch. It has no end of its own: it stops only where the
/// next value no longer fits in sixteen bits.
#[derive(Debug)]
pub struct ScaleIter<'a, T> {
    root: T,
    octaves: i32,
    index: usize,
    intervals: &'a Vec<Interval>,
}

impl<'a, T> ScaleIter<'a, T> {
    /// The root from which the walk started.
    pub closed spec fn root(&self) -> T {
        self.root
    }

    /// The intervals that are walked through.
    pub closed spec fn intervals(&self) -> Seq<Interval> {
        self.intervals@
    }

    /// How many values the walk has given so far.
    pub closed spec fn position(&self) -> int {
        self.octaves * self.intervals@.len() + self.index
    }

    /// What holds of every walk: it stands within the scale, and has not
    /// gone further up than any value that fits can lie.
    #[verifier::type_invariant]
    closed spec fn wf(&self) -> bool {
        &&& 0 <= self.octaves <= 20_000
        &&& self.intervals@.len() > 0 ==> self.index < self.intervals@.len()
        &&& self.intervals@.len() == 0 ==> self.index == 0
    }

    /// The steps of the value that the walk gives next, and whether they
    /// fit; the walk moves on where they do.
    fn advance(&mut self, diatonic: i16, chromatic: i16) -> (res: Option<(i16, i16)>)
        ensures
            final(self).root() == old(self).root(),
            final(self).intervals() == old(self).intervals(),
            ({
                let root = Steps { diatonic: diatonic as int, chromatic: chromatic as int };
                let next = walk(root, old(self).intervals(), old(self).position());
                if old(self).intervals().len() > 0 && next.fits() {
                    &&& res == Some((next.diatonic as i16, next.chromatic as i16))
                    &&& final(self).position() == old(self).position() + 1
                } else {
                    &&& res is None
                    &&& final(self).position() == old(self).position()
                }
            }),
    {
        let length = self.intervals.len();
        if length == 0 {
            return None;
        }
        proof {
            use_type_invariant(&*self);
            let n = length as int;
            let k = self.octaves * n + self.index;
            assert(self.octaves * n == n * self.octaves) by (nonlinear_arith);
            vstd::arithmetic::div_mod::lemma_fundamental_div_mod_converse(
                k,
                n,
                self.octaves as int,
                self.index as int,
            );
        }
        let interval = self.intervals[self.index];
        let d: i32 = diatonic as i32 + interval.diatonic as i32 + 7 * self.octaves;
        let c: i32 = chromatic as i32 + interval.chromatic as i32 + 12 * self.octaves;
        if d < -32768 || d > 32767 || c < -32768 || c > 32767 {
            return None;
        }
        if self.index + 1 < length {
            self.index = self.index + 1;
        } else {
            self.index = 0;
            self.octaves = self.octaves + 1;
            assert((self.octaves - 1) * length + length == self.octaves * length)
                by (nonlinear_arith);
        }
        Some((d as i16, c as i16))
    }
}

impl<'a> ScaleIter<'a, Interval> {
    /// Gives the next interval of the walk, or nothing where it does not
    /// fit in sixteen bits or the scale is empty.
    pub fn next(&mut self) -> (res: Option<Interval>)
        ensures
            final(self).root() == old(self).root(),
            final(self).intervals() == old(self).intervals(),
            ({
                let next = walk(old(self).root()@, old(self).intervals(), old(self).position());
                if old(self).intervals().len() > 0 && next.fits() {
                    &&& res matches Some(i)
                    &&& i@ == next
                    &&& final(self).position() == old(self).position() + 1
                } else {
                    &&& res is None
                    &&& final(self).position() == old(self).position()
                }
            }),
    {
        let root = self.root;
        match self.advance(root.diatonic, root.chromatic) {
            Some((diatonic, chromatic)) => Some(Interval { chromatic, diatonic }),
            None => None,
        }
    }

    /// Gives the next intervals of the walk: `n` of them, or fewer where
    /// the walk stops before.
    pub fn take(&mut self, n: usize) -> (res: Vec<Interval>)
        ensures
            final(self).root() == old(self).root(),
            final(self).intervals() == old(self).intervals(),
            res@.len() <= n,
            final(self).position() == old(self).position() + res@.len(),
            forall|i: int|
                0 <= i < res@.len() ==> (#[trigger] res@[i])@ == walk(
                    old(self).root()@,
                    old(self).intervals(),
                    old(self).position() + i,
                ),
            res@.len() < n ==> !(old(self).intervals().len() > 0 && walk(
                old(self).root()@,
                old(self).intervals(),
                final(self).position(),
            ).fits()),
    {
        let mut res: Vec<Interval> = Vec::new();
        while res.len() < n
            invariant
                self.root() == old(self).root(),
                self.intervals() == old(self).intervals(),
                res@.len() <= n,
                self.position() == old(self).position() + res@.len(),
                forall|i: int|
                    0 <= i < res@.len() ==> (#[trigger] res@[i])@ == walk(
                        old(self).root()@,
                        old(self).intervals(),
                        old(self).position() + i,
                    ),
            decreases n - res.len(),
        {
            match self.next() {
                Some(item) => {
                    res.push(item);
                },
                None => {
                    return res;
                },
            }
        }
        res
    }
}

impl<'a> ScaleIter<'a, Pitch> {
    /// Gives the next pitch of the walk, or nothing where it does not fit
    /// in sixteen bits or the scale is empty.
    pub fn next(&mut self) -> (res: Option<Pitch>)
        ensures
            final(self).root() == old(self).root(),
            final(self).intervals() == old(self).intervals(),
            ({
                let next = walk(old(self).root()@, old(self).intervals(), old(self).position());
                if old(self).intervals().len() > 0 && next.fits() {
                    &&& res matches Some(p)
                    &&& p@ == next
                    &&& final(self).position() == old(self).position() + 1
                } else {
                    &&& res is None
                    &&& final(self).position() == old(self).position()
                }
            }),
    {
        let root = self.root;
        match self.advance(root.diatonic, root.chromatic) {
            Some((diatonic, chromatic)) => Some(Pitch { diatonic, chromatic }),
            None => None,
        }
    }

    /// Gives the next pitches of the walk: `n` of them, or fewer where the
    /// walk stops before.
    pub fn take(&mut self, n: usize) -> (res: Vec<Pitch>)
        ensures
            final(self).root() == old(self).root(),
            final(self).intervals() == old(self).intervals(),
            res@.len() <= n,
            final(self).position() == old(self).position() + res@.len(),
            forall|i: int|
                0 <= i < res@.len() ==> (#[trigger] res@[i])@ == walk(
                    old(self).root()@,
                    old(self).intervals(),
                    old(self).position() + i,
                ),
            res@.len() < n ==> !(old(self).intervals().len() > 0 && walk(
                old(self).root()@,
                old(self).intervals(),
                final(self).position(),
            ).fits()),
    {
        let mut res: Vec<Pitch> = Vec::new();
        while res.len() < n
            invariant
                self.root() == old(self).root(),
                self.intervals() == old(self).intervals(),
                res@.len() <= n,
                self.position() == old(self).position() + res@.len(),
                forall|i: int|
                    0 <= i < res@.len() ==> (#[trigger] res@[i])@ == walk(
                        old(self).root()@,
                        old(self).intervals(),
                        old(self).position() + i,
                    ),
            decreases n - res.len(),
        {
            match self.next() {
                Some(item) => {
                    res.push(item);
                },
                None => {
                    return res;
                },
            }
        }
        res
    }
}

/// A walk through `intervals` from the pitch `root`, at its start.
pub(crate) fn walk_from<'a>(root: Pitch, intervals: &'a Vec<Interval>) -> (res: ScaleIter<
    'a,
    Pitch,
>)
    ensures
        res.root() == root,
        res.intervals() == intervals@,
        res.position() == 0,
{
    let res = ScaleIter { root, octaves: 0, index: 0, intervals };
    assert(0 * res.intervals@.len() == 0) by (nonlinear_arith);
    res
}

impl Scale {
    /// Returns a walk through the intervals of the scale, octave after
    /// octave, from the unison.
    pub fn iter<'a>(&'a self) -> (res: ScaleIter<'a, Interval>)
        ensures
            res.root()@ == Steps::zero(),
            res.intervals() == self@,
            res.position() == 0,
    {
        let res = ScaleIter {
            root: Interval { chromatic: 0, diatonic: 0 },
            octaves: 0,
            index: 0,
            intervals: &self.0,
        };
        assert(0 * res.intervals@.len() == 0) by (nonlinear_arith);
        res
    }

    /// Returns a walk through the pitches of the scale, octave after
    /// octave, from `root`.
    pub fn iter_from_root<'a>(&'a self, root: Pitch) -> (res: ScaleIter<'a, Pitch>)
        ensures
            res.root() == root,
            res.intervals() == self@,
            res.position() == 0,
    {
        walk_from(root, &self.0)
    }
}

} // verus!
