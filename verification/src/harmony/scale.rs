//! Scales, their modes, and the accidentals that a key implies.

pub mod iter;
pub mod key;
pub mod laws;
pub mod order;
pub mod parse;
pub mod rooted;
pub mod standard_scales;

pub use iter::ScaleIter;
pub use key::{AccidentalCalulator, ConcreteAccidental, KeyAccidental, KeySignature};
pub use rooted::RootedScale;

use super::interval::Interval;
use super::steps::{split_by_seven, Steps};
use order::{
    comes_first, drop_repeats, lemma_neighbours_sorted, lemma_sort_of, lemma_without_repeats,
    precedes, sort, sort_of, sorted, strictly_precedes, strictly_sorted, without_repeats,
};
use vstd::prelude::*;

verus! {

/// A scale: a list of intervals above its root.
///
/// A scale is *normal* when it starts with the unison and is sorted in the
/// canonical order of intervals, by chromatic steps and then by diatonic
/// steps. [`Scale::new`] and the named scales give normal scales, and the
/// modes of a scale are taken of a normal scale.
#[derive(Clone, PartialEq, Eq, Debug)]
pub struct Scale(pub Vec<Interval>);

impl View for Scale {
    type V = Seq<Interval>;

    open spec fn view(&self) -> Seq<Interval> {
        self.0@
    }
}

/// Each interval of `s` reduced into the first octave.
pub open spec fn reduced(s: Seq<Interval>) -> Seq<Interval> {
    Seq::new(s.len(), |i: int| Interval::of(s[i]@.mod_octave()))
}

/// Each interval of `s` taken from `root` and reduced into the first
/// octave.
pub open spec fn rotated(s: Seq<Interval>, root: Interval) -> Seq<Interval> {
    Seq::new(s.len(), |i: int| Interval::of(s[i]@.minus(root@).mod_octave()))
}

/// `s` itself where it starts with the unison, else `s` behind a unison.
pub open spec fn rooted(s: Seq<Interval>) -> Seq<Interval> {
    if s.len() > 0 && s[0]@ == Steps::zero() {
        s
    } else {
        seq![Interval { chromatic: 0, diatonic: 0 }] + s
    }
}

impl Scale {
    /// Whether the scale starts with the unison and is sorted.
    pub open spec fn normal(&self) -> bool {
        &&& self@.len() > 0
        &&& self@[0]@ == Steps::zero()
        &&& sorted(self@)
    }

    /// Whether every interval of the scale can be reduced into the first
    /// octave within sixteen bits.
    pub open spec fn reducible(intervals: Seq<Interval>) -> bool {
        forall|i: int| 0 <= i < intervals.len() ==> (#[trigger] intervals[i])@.mod_octave().fits()
    }

    /// Whether every interval of the scale, taken from the `n`-th one, can
    /// be reduced into the first octave within sixteen bits.
    pub open spec fn rotatable(&self, n: int) -> bool {
        forall|i: int|
            0 <= i < self@.len() ==> (#[trigger] self@[i])@.minus(self@[n]@).mod_octave().fits()
    }

    /// Creates a new scale: places the intervals in the first octave, sorts
    /// them, keeps each once, and adds a unison at the start where the
    /// first is none.
    ///
    /// The scale is normal, and holds no interval twice, unless one of the
    /// intervals placed in the first octave comes before the unison in the
    /// canonical order, as a diminished unison does.
    pub fn new(intervals: Vec<Interval>) -> (res: Self)
        requires
            Self::reducible(intervals@),
        ensures
            res@ == rooted(without_repeats(sort_of(reduced(intervals@)))),
            res@.len() > 0,
            res@[0]@ == Steps::zero(),
            res.normal() <==> forall|i: int|
                0 <= i < intervals@.len() ==> precedes(
                    Interval { chromatic: 0, diatonic: 0 },
                    #[trigger] reduced(intervals@)[i],
                ),
            res.normal() ==> strictly_sorted(res@),
    {
        let mut placed: Vec<Interval> = Vec::new();
        let mut i: usize = 0;
        while i < intervals.len()
            invariant
                i <= intervals.len(),
                Self::reducible(intervals@),
                placed@ == reduced(intervals@).take(i as int),
            decreases intervals.len() - i,
        {
            let interval = intervals[i];
            assert(interval@.mod_octave().fits());
            let lowered = interval % super::interval::Octave;
            assert(lowered == Interval::of(interval@.mod_octave()));
            placed.push(lowered);
            assert(placed@ =~= reduced(intervals@).take(i + 1));
            i += 1;
        }
        assert(placed@ =~= reduced(intervals@));
        let in_order = sort(&placed);
        let mut once = drop_repeats(&in_order);
        let ghost unison = Interval { chromatic: 0, diatonic: 0 };
        let ghost before = once@;
        proof {
            lemma_sort_of(placed@);
            lemma_without_repeats(in_order@);
            lemma_rooted_normal(placed@, in_order@, before);
        }
        if once.len() == 0 || once[0].chromatic != 0 || once[0].diatonic != 0 {
            once.insert(0, Interval { chromatic: 0, diatonic: 0 });
            assert(once@ =~= seq![unison] + before);
        }
        Self(once)
    }

    /// Returns true if the scale is normal: see the type.
    pub fn is_normal(&self) -> (res: bool)
        ensures
            res == self.normal(),
    {
        if self.0.len() == 0 || self.0[0].chromatic != 0 || self.0[0].diatonic != 0 {
            return false;
        }
        let mut i: usize = 1;
        while i < self.0.len()
            invariant
                1 <= i <= self.0.len(),
                forall|j: int| 0 <= j < i - 1 ==> precedes(#[trigger] self@[j], self@[j + 1]),
            decreases self.0.len() - i,
        {
            if !comes_first(self.0[i - 1], self.0[i]) {
                assert(!sorted(self@)) by {
                    if sorted(self@) {
                        assert(precedes(self@[i - 1], self@[i as int]));
                    }
                }
                return false;
            }
            i += 1;
        }
        proof {
            lemma_neighbours_sorted(self@);
        }
        true
    }

    /// Returns the next mode of the scale: the one that starts on its
    /// second interval.
    pub fn next_mode(&self) -> (res: Self)
        requires
            self.normal(),
            self.climbs() || self.rotatable(1int % self@.len() as int),
        ensures
            res@ == sort_of(rotated(self@, self@[1int % self@.len() as int])),
            sorted(res@),
            res@.len() == self@.len(),
            self.climbs() ==> res@ == laws::mode_of(self@, 1int % self@.len() as int)
                && res.climbs() && res.normal(),
            self@.len() == 1 ==> res@ == self@,
    {
        self.nth_mode(1)
    }

    /// Returns the mode of the scale that starts on its `n`-th interval,
    /// counted from zero and around the scale: each interval is taken from
    /// the new root, placed in the first octave, and the whole is sorted
    /// again.
    ///
    /// Of a scale that climbs through one octave, as the common scales do,
    /// the mode is the rotation of the scale, and climbs through one octave
    /// again.
    pub fn nth_mode(&self, n: u32) -> (res: Self)
        requires
            self.normal(),
            self.climbs() || self.rotatable(n as int % self@.len() as int),
        ensures
            res@ == sort_of(rotated(self@, self@[n as int % self@.len() as int])),
            sorted(res@),
            res@.len() == self@.len(),
            self.climbs() ==> res@ == laws::mode_of(self@, n as int % self@.len() as int)
                && res.climbs() && res.normal(),
            self@.len() == 1 ==> res@ == self@,
    {
        let n: usize = n as usize % self.0.len();
        let root = self.0[n];
        proof {
            if self.climbs() {
                laws::lemma_mode_of_climbing(self@, n as int);
            }
        }
        let mut turned: Vec<Interval> = Vec::new();
        let mut i: usize = 0;
        while i < self.0.len()
            invariant
                i <= self.0.len(),
                n < self.0.len(),
                root == self@[n as int],
                self.rotatable(n as int),
                turned@ == rotated(self@, root).take(i as int),
            decreases self.0.len() - i,
        {
            let interval = self.0[i];
            assert(interval@.minus(root@).mod_octave().fits());
            let diatonic: i32 = interval.diatonic as i32 - root.diatonic as i32;
            let chromatic: i32 = interval.chromatic as i32 - root.chromatic as i32;
            let (octaves, _rest) = split_by_seven(diatonic);
            let lowered = Interval {
                chromatic: (chromatic - 12 * octaves) as i16,
                diatonic: (diatonic - 7 * octaves) as i16,
            };
            proof {
                vstd::arithmetic::div_mod::lemma_fundamental_div_mod(diatonic as int, 7);
            }
            assert(lowered == Interval::of(interval@.minus(root@).mod_octave()));
            turned.push(lowered);
            assert(turned@ =~= rotated(self@, root).take(i + 1));
            i += 1;
        }
        assert(turned@ =~= rotated(self@, root));
        proof {
            lemma_sort_of(turned@);
            if self@.len() == 1 {
                assert(turned@[0] == self@[0]);
                assert(turned@.drop_last() =~= Seq::<Interval>::empty());
                assert(sort_of(turned@) =~= self@);
            }
        }
        Self(sort(&turned))
    }
}

/// When the scale made of a list is normal: where no interval of the list
/// comes before the unison. `in_order` is the list sorted, `once` that
/// without its repeats.
proof fn lemma_rooted_normal(list: Seq<Interval>, in_order: Seq<Interval>, once: Seq<Interval>)
    requires
        in_order == sort_of(list),
        once == without_repeats(in_order),
        sorted(in_order),
        in_order.to_multiset() == list.to_multiset(),
        strictly_sorted(once),
        forall|x: Interval| once.contains(x) <==> in_order.contains(x),
    ensures
        (sorted(rooted(once)) && rooted(once)[0]@ == Steps::zero()) <==> forall|i: int|
            0 <= i < list.len() ==> precedes(
                Interval { chromatic: 0, diatonic: 0 },
                #[trigger] list[i],
            ),
        sorted(rooted(once)) ==> strictly_sorted(rooted(once)),
{
    broadcast use vstd::seq_lib::group_to_multiset_ensures;

    let unison = Interval { chromatic: 0, diatonic: 0 };
    let r = rooted(once);
    let above = forall|i: int| 0 <= i < list.len() ==> precedes(unison, #[trigger] list[i]);
    assert(unison@ == Steps::zero());
    assert forall|x: Interval| once.contains(x) <==> list.contains(x) by {
        if in_order.contains(x) {
            assert(in_order.to_multiset().count(x) > 0);
            assert(list.to_multiset().count(x) > 0);
        }
        if list.contains(x) {
            assert(list.to_multiset().count(x) > 0);
            assert(in_order.to_multiset().count(x) > 0);
        }
    }
    let starts = once.len() > 0 && once[0]@ == Steps::zero();
    if starts {
        assert(once[0] == unison);
        assert(r == once);
    } else {
        assert(r =~= seq![unison] + once);
        assert(r[0] == unison);
        assert forall|k: int| 0 <= k < once.len() implies r[k + 1] == once[k] by {}
    }
    if above {
        assert forall|i: int, j: int| 0 <= i < j < r.len() implies strictly_precedes(
            #[trigger] r[i],
            #[trigger] r[j],
        ) by {
            if starts {
                assert(strictly_precedes(once[i], once[j]));
            } else if i == 0 {
                let x = once[j - 1];
                assert(once.contains(x));
                assert(list.contains(x));
                let w = choose|w: int| 0 <= w < list.len() && list[w] == x;
                assert(precedes(unison, list[w]));
                if x == unison {
                    // then the unison would be the first of `once`
                    assert(once.contains(once[0]));
                    assert(list.contains(once[0]));
                    let v = choose|v: int| 0 <= v < list.len() && list[v] == once[0];
                    assert(precedes(unison, list[v]));
                    if j - 1 > 0 {
                        assert(strictly_precedes(once[0], once[j - 1]));
                    }
                }
            } else {
                assert(strictly_precedes(once[i - 1], once[j - 1]));
            }
        }
        assert forall|i: int, j: int| 0 <= i <= j < r.len() implies precedes(
            #[trigger] r[i],
            #[trigger] r[j],
        ) by {
            if i < j {
                assert(strictly_precedes(r[i], r[j]));
            }
        }
    }
    if sorted(r) {
        assert forall|i: int| 0 <= i < list.len() implies precedes(
            unison,
            #[trigger] list[i],
        ) by {
            let x = list[i];
            assert(list.contains(x));
            assert(once.contains(x));
            let k = choose|k: int| 0 <= k < once.len() && once[k] == x;
            if starts {
                assert(precedes(r[0], r[k]));
            } else {
                assert(precedes(r[0], r[k + 1]));
            }
        }
    }
}

} // verus!
