//! What holds of the modes of the scales that climb through one octave, as
//! the common scales do.

use super::standard_scales::seven;
use super::order::{
    lemma_sort_of, precedes, sort_of, sorted, strictly_precedes, strictly_sorted,
};
use super::{rotated, Scale};
use crate::harmony::interval::Interval;
use crate::harmony::steps::Steps;
use vstd::prelude::*;
use vstd::relations::{sorted_by, total_ordering};
use vstd::seq_lib::{lemma_seq_union_to_multiset_commutative, lemma_sorted_unique};

verus! {

/// Whether the intervals climb through one octave from the unison: each
/// lies higher on the staff than the one before and sounds no lower, none
/// reaches the octave on the staff, and none sounds above it.
pub open spec fn climbing(s: Seq<Interval>) -> bool {
    &&& s.len() > 0
    &&& s[0]@ == Steps::zero()
    &&& forall|i: int|
        0 <= i < s.len() ==> 0 <= (#[trigger] s[i]).diatonic < 7 && 0 <= s[i].chromatic <= 12
    &&& forall|i: int, j: int|
        0 <= i < j < s.len() ==> (#[trigger] s[i]).diatonic < (#[trigger] s[j]).diatonic
            && s[i].chromatic <= s[j].chromatic
}

/// The intervals of `s` as they are counted from its `n`-th interval: those
/// from the `n`-th on, each less the `n`-th, and then those before it an
/// octave higher.
pub open spec fn mode_of(s: Seq<Interval>, n: int) -> Seq<Interval> {
    Seq::new(
        s.len(),
        |k: int|
            if k + n < s.len() {
                Interval {
                    chromatic: (s[k + n].chromatic - s[n].chromatic) as i16,
                    diatonic: (s[k + n].diatonic - s[n].diatonic) as i16,
                }
            } else {
                Interval {
                    chromatic: (s[k + n - s.len()].chromatic - s[n].chromatic + 12) as i16,
                    diatonic: (s[k + n - s.len()].diatonic - s[n].diatonic + 7) as i16,
                }
            },
    )
}

/// The canonical order of intervals is a total order.
proof fn lemma_precedes_total()
    ensures
        total_ordering(|a: Interval, b: Interval| precedes(a, b)),
{
    let leq = |a: Interval, b: Interval| precedes(a, b);
    assert forall|a: Interval, b: Interval| #[trigger] leq(a, b) && #[trigger] leq(b, a) implies a
        == b by {
        assert(a.chromatic == b.chromatic && a.diatonic == b.diatonic);
    }
    assert(vstd::relations::reflexive(leq));
    assert(vstd::relations::antisymmetric(leq));
    assert(vstd::relations::transitive(leq));
    assert(vstd::relations::strongly_connected(leq));
}

/// The modes of a scale that climbs through one octave are its rotations:
/// the mode on the `n`-th interval holds the intervals of the scale as they
/// are counted from that interval, in that order. It climbs through one
/// octave again, so it is normal and holds no interval twice, and its own
/// modes can be taken.
pub proof fn lemma_mode_of_climbing(s: Seq<Interval>, n: int)
    requires
        climbing(s),
        0 <= n < s.len(),
    ensures
        sort_of(rotated(s, s[n])) == mode_of(s, n),
        climbing(mode_of(s, n)),
        sorted(mode_of(s, n)),
        strictly_sorted(mode_of(s, n)),
        forall|i: int| 0 <= i < s.len() ==> (#[trigger] s[i])@.minus(s[n]@).mod_octave().fits(),
{
    let rot = rotated(s, s[n]);
    let m = mode_of(s, n);
    let len = s.len() as int;
    assert forall|i: int| 0 <= i < len implies (#[trigger] s[i])@.minus(s[n]@).mod_octave().fits()
        && rot[i] == (if i >= n {
        Interval {
            chromatic: (s[i].chromatic - s[n].chromatic) as i16,
            diatonic: (s[i].diatonic - s[n].diatonic) as i16,
        }
    } else {
        Interval {
            chromatic: (s[i].chromatic - s[n].chromatic + 12) as i16,
            diatonic: (s[i].diatonic - s[n].diatonic + 7) as i16,
        }
    }) by {
        let d = s[i].diatonic - s[n].diatonic;
        if i > n {
            assert(s[n].diatonic < s[i].diatonic);
        } else if i < n {
            assert(s[i].diatonic < s[n].diatonic);
        }
        if i >= n {
            vstd::arithmetic::div_mod::lemma_fundamental_div_mod_converse(d, 7, 0, d);
        } else {
            vstd::arithmetic::div_mod::lemma_fundamental_div_mod_converse(d, 7, -1, d + 7);
        }
    }
    assert(m =~= rot.skip(n) + rot.take(n));
    assert(rot =~= rot.take(n) + rot.skip(n));
    lemma_seq_union_to_multiset_commutative(rot.skip(n), rot.take(n));
    assert(m.to_multiset() == rot.to_multiset());

    assert forall|i: int, j: int| 0 <= i < j < len implies (#[trigger] m[i]).diatonic < (
    #[trigger] m[j]).diatonic && m[i].chromatic <= m[j].chromatic by {
        if j + n < len {
            assert(s[i + n].diatonic < s[j + n].diatonic);
        } else if i + n < len {
            assert(s[j + n - len].diatonic < s[i + n].diatonic);
        } else {
            assert(s[i + n - len].diatonic < s[j + n - len].diatonic);
        }
    }
    assert forall|i: int| 0 <= i < len implies 0 <= (#[trigger] m[i]).diatonic < 7 && 0
        <= m[i].chromatic <= 12 by {
        if i + n < len {
            if i > 0 {
                assert(s[n].diatonic < s[i + n].diatonic);
            }
        } else {
            assert(s[i + n - len].diatonic < s[n].diatonic);
        }
    }
    assert(m[0]@ == Steps::zero());
    assert(climbing(m));
    assert forall|i: int, j: int| 0 <= i <= j < len implies precedes(
        #[trigger] m[i],
        #[trigger] m[j],
    ) by {
        if i < j {
            assert(m[i].diatonic < m[j].diatonic && m[i].chromatic <= m[j].chromatic);
        }
    }
    assert forall|i: int, j: int| 0 <= i < j < len implies strictly_precedes(
        #[trigger] m[i],
        #[trigger] m[j],
    ) by {
        assert(m[i].diatonic < m[j].diatonic && m[i].chromatic <= m[j].chromatic);
    }

    let leq = |a: Interval, b: Interval| precedes(a, b);
    lemma_precedes_total();
    lemma_sort_of(rot);
    let r = sort_of(rot);
    assert(sorted_by(r, leq)) by {
        assert forall|i: int, j: int| 0 <= i < j < r.len() implies #[trigger] leq(r[i], r[j]) by {
            assert(precedes(r[i], r[j]));
        }
    }
    assert(sorted_by(m, leq)) by {
        assert forall|i: int, j: int| 0 <= i < j < m.len() implies #[trigger] leq(m[i], m[j]) by {
            assert(precedes(m[i], m[j]));
        }
    }
    lemma_sorted_unique(r, m, leq);
}

impl Scale {
    /// Whether the scale climbs through one octave from the unison: see
    /// [`climbing`].
    pub open spec fn climbs(&self) -> bool {
        climbing(self@)
    }
}

/// The modes of the major scale are, from its second note on: dorian,
/// phrygian, lydian, mixolydian, aeolian and locrian. The mode on its first
/// note is the major scale itself, called ionian.
pub proof fn lemma_modes_of_major()
    ensures
        mode_of(seven(seq![0, 2, 4, 5, 7, 9, 11]), 0) == seven(seq![0, 2, 4, 5, 7, 9, 11]),
        mode_of(seven(seq![0, 2, 4, 5, 7, 9, 11]), 1) == seven(seq![0, 2, 3, 5, 7, 9, 10]),
        mode_of(seven(seq![0, 2, 4, 5, 7, 9, 11]), 2) == seven(seq![0, 1, 3, 5, 7, 8, 10]),
        mode_of(seven(seq![0, 2, 4, 5, 7, 9, 11]), 3) == seven(seq![0, 2, 4, 6, 7, 9, 11]),
        mode_of(seven(seq![0, 2, 4, 5, 7, 9, 11]), 4) == seven(seq![0, 2, 4, 5, 7, 9, 10]),
        mode_of(seven(seq![0, 2, 4, 5, 7, 9, 11]), 5) == seven(seq![0, 2, 3, 5, 7, 8, 10]),
        mode_of(seven(seq![0, 2, 4, 5, 7, 9, 11]), 6) == seven(seq![0, 1, 3, 5, 6, 8, 10]),
{
    let major = seven(seq![0, 2, 4, 5, 7, 9, 11]);
    assert(mode_of(major, 0) =~= seven(seq![0, 2, 4, 5, 7, 9, 11]));
    assert(mode_of(major, 1) =~= seven(seq![0, 2, 3, 5, 7, 9, 10]));
    assert(mode_of(major, 2) =~= seven(seq![0, 1, 3, 5, 7, 8, 10]));
    assert(mode_of(major, 3) =~= seven(seq![0, 2, 4, 6, 7, 9, 11]));
    assert(mode_of(major, 4) =~= seven(seq![0, 2, 4, 5, 7, 9, 10]));
    assert(mode_of(major, 5) =~= seven(seq![0, 2, 3, 5, 7, 8, 10]));
    assert(mode_of(major, 6) =~= seven(seq![0, 1, 3, 5, 6, 8, 10]));
}

} // verus!
