//! The canonical order of intervals, and lists of intervals sorted by it.

use crate::harmony::interval::Interval;
use vstd::prelude::*;

verus! {

/// `a` comes before `b` in the canonical order of intervals, or is the
/// same.
pub open spec fn precedes(a: Interval, b: Interval) -> bool {
    a@.chromatic_le(b@)
}

/// Each interval of `s` is followed only by intervals that are equal or
/// come later in the canonical order.
pub open spec fn sorted(s: Seq<Interval>) -> bool {
    forall|i: int, j: int| 0 <= i <= j < s.len() ==> precedes(#[trigger] s[i], #[trigger] s[j])
}

/// `s` with `x` put behind the last interval that does not come after it.
pub open spec fn inserted(s: Seq<Interval>, x: Interval) -> Seq<Interval>
    decreases s.len(),
{
    if s.len() == 0 {
        seq![x]
    } else if precedes(s.last(), x) {
        s.push(x)
    } else {
        inserted(s.drop_last(), x).push(s.last())
    }
}

/// The intervals of `s` in the canonical order; equal intervals keep their
/// number.
pub open spec fn sort_of(s: Seq<Interval>) -> Seq<Interval>
    decreases s.len(),
{
    if s.len() == 0 {
        Seq::empty()
    } else {
        inserted(sort_of(s.drop_last()), s.last())
    }
}

/// `s` without each interval that repeats the one before it. Of a sorted
/// list this leaves every interval once.
pub open spec fn without_repeats(s: Seq<Interval>) -> Seq<Interval>
    decreases s.len(),
{
    if s.len() <= 1 {
        s
    } else if s.last() == s[s.len() - 2] {
        without_repeats(s.drop_last())
    } else {
        without_repeats(s.drop_last()).push(s.last())
    }
}

/// `a` comes before `b` in the canonical order of intervals and is not the
/// same.
pub open spec fn strictly_precedes(a: Interval, b: Interval) -> bool {
    precedes(a, b) && a != b
}

/// Each interval of `s` is followed only by intervals that come later in
/// the canonical order: `s` is sorted and holds no interval twice.
pub open spec fn strictly_sorted(s: Seq<Interval>) -> bool {
    forall|i: int, j: int|
        0 <= i < j < s.len() ==> strictly_precedes(#[trigger] s[i], #[trigger] s[j])
}

/// Putting an interval into a sorted list at an index behind which all
/// come after it, and before which the neighbour does not, is what
/// [`inserted`] does.
proof fn lemma_inserted_at(s: Seq<Interval>, x: Interval, k: int)
    requires
        0 <= k <= s.len(),
        forall|j: int| k <= j < s.len() ==> !precedes(#[trigger] s[j], x),
        k == 0 || precedes(s[k - 1], x),
    ensures
        inserted(s, x) == s.insert(k, x),
    decreases s.len(),
{
    if s.len() == 0 {
        assert(s.insert(0, x) =~= seq![x]);
    } else if k == s.len() {
        assert(s.insert(k, x) =~= s.push(x));
    } else {
        assert(!precedes(s[s.len() - 1], x));
        lemma_inserted_at(s.drop_last(), x, k);
        assert(s.drop_last().insert(k, x).push(s.last()) =~= s.insert(k, x));
    }
}

/// Inserting keeps a sorted list sorted, makes it one longer, and adds the
/// interval to what the list holds.
pub proof fn lemma_inserted_sorted(s: Seq<Interval>, x: Interval)
    requires
        sorted(s),
    ensures
        sorted(inserted(s, x)),
        inserted(s, x).len() == s.len() + 1,
        inserted(s, x).to_multiset() == s.to_multiset().insert(x),
    decreases s.len(),
{
    broadcast use vstd::seq_lib::group_to_multiset_ensures;

    if s.len() == 0 {
        assert(s =~= Seq::<Interval>::empty());
        assert(seq![x] =~= Seq::<Interval>::empty().push(x));
    } else if precedes(s.last(), x) {
        let r = s.push(x);
        assert forall|i: int, j: int| 0 <= i <= j < r.len() implies precedes(
            #[trigger] r[i],
            #[trigger] r[j],
        ) by {
            if j == s.len() && i < s.len() {
                assert(precedes(s[i], s[s.len() - 1]));
            }
        }
    } else {
        let t = s.drop_last();
        assert forall|i: int, j: int| 0 <= i <= j < t.len() implies precedes(
            #[trigger] t[i],
            #[trigger] t[j],
        ) by {
            assert(precedes(s[i], s[j]));
        }
        lemma_inserted_sorted(t, x);
        let u = inserted(t, x);
        let r = u.push(s.last());
        assert forall|i: int, j: int| 0 <= i <= j < r.len() implies precedes(
            #[trigger] r[i],
            #[trigger] r[j],
        ) by {
            if j == u.len() && i < u.len() {
                // every interval of `u` is `x` or an interval of `t`
                assert(u.to_multiset().count(u[i]) > 0);
                assert(t.to_multiset().insert(x).count(u[i]) > 0);
                if u[i] != x {
                    assert(t.to_multiset().count(u[i]) > 0);
                    let w = choose|w: int| 0 <= w < t.len() && t[w] == u[i];
                    assert(precedes(s[w], s[s.len() - 1]));
                }
            }
        }
        assert(s =~= t.push(s.last()));
        assert(t.to_multiset().insert(x).insert(s.last()) =~= t.to_multiset().insert(
            s.last(),
        ).insert(x));
    }
}

/// Sorting gives a sorted list that holds the same intervals, each as
/// often as before.
pub proof fn lemma_sort_of(s: Seq<Interval>)
    ensures
        sorted(sort_of(s)),
        sort_of(s).len() == s.len(),
        sort_of(s).to_multiset() == s.to_multiset(),
    decreases s.len(),
{
    broadcast use vstd::seq_lib::group_to_multiset_ensures;

    if s.len() == 0 {
        assert(s =~= Seq::<Interval>::empty());
    } else {
        lemma_sort_of(s.drop_last());
        lemma_inserted_sorted(sort_of(s.drop_last()), s.last());
        assert(s =~= s.drop_last().push(s.last()));
    }
}

/// Leaving out the repeats of a sorted list leaves a list that starts and
/// ends as the list does, and holds its intervals once each, in order.
pub proof fn lemma_without_repeats(s: Seq<Interval>)
    requires
        sorted(s),
    ensures
        strictly_sorted(without_repeats(s)),
        without_repeats(s).len() <= s.len(),
        s.len() > 0 ==> without_repeats(s).len() > 0 && without_repeats(s).last() == s.last()
            && without_repeats(s)[0] == s[0],
        forall|x: Interval| without_repeats(s).contains(x) <==> s.contains(x),
    decreases s.len(),
{
    let r = without_repeats(s);
    if s.len() <= 1 {
    } else {
        let t = s.drop_last();
        assert forall|i: int, j: int| 0 <= i <= j < t.len() implies precedes(
            #[trigger] t[i],
            #[trigger] t[j],
        ) by {
            assert(precedes(s[i], s[j]));
        }
        lemma_without_repeats(t);
        let u = without_repeats(t);
        assert(t.last() == s[s.len() - 2]);
        assert(t[0] == s[0]);
        assert forall|x: Interval| r.contains(x) <==> s.contains(x) by {
            if r.contains(x) {
                let k = choose|k: int| 0 <= k < r.len() && r[k] == x;
                if k < u.len() {
                    assert(u[k] == x);
                    assert(u.contains(x));
                    assert(t.contains(x));
                    let w = choose|w: int| 0 <= w < t.len() && t[w] == x;
                    assert(s[w] == x);
                } else {
                    assert(x == s[s.len() - 1]);
                }
            }
            if s.contains(x) {
                let w = choose|w: int| 0 <= w < s.len() && s[w] == x;
                if w < t.len() {
                    assert(t[w] == x);
                    assert(t.contains(x));
                    assert(u.contains(x));
                    let k = choose|k: int| 0 <= k < u.len() && u[k] == x;
                    assert(r[k] == x);
                } else if s.last() == s[s.len() - 2] {
                    assert(u.last() == x);
                    assert(r[r.len() - 1] == x);
                } else {
                    assert(r[r.len() - 1] == x);
                }
            }
        }
        if s.last() != s[s.len() - 2] {
            assert forall|i: int, j: int| 0 <= i < j < r.len() implies strictly_precedes(
                #[trigger] r[i],
                #[trigger] r[j],
            ) by {
                if j == u.len() {
                    // `u[i]` is an interval of `t`, none of which comes after
                    // its last, which differs from the last of `s`
                    assert(u.contains(u[i]));
                    assert(t.contains(u[i]));
                    let w = choose|w: int| 0 <= w < t.len() && t[w] == u[i];
                    assert(precedes(s[w], s[s.len() - 2]));
                    assert(precedes(s[s.len() - 2], s[s.len() - 1]));
                    assert(precedes(s[w], s[s.len() - 1]));
                } else {
                    assert(strictly_precedes(u[i], u[j]));
                }
            }
        }
    }
}

/// Whether `a` comes before `b` in the canonical order of intervals, or is
/// the same.
pub(crate) fn comes_first(a: Interval, b: Interval) -> (res: bool)
    ensures
        res == precedes(a, b),
{
    a.chromatic < b.chromatic || (a.chromatic == b.chromatic && a.diatonic <= b.diatonic)
}

/// Puts `x` into the sorted list behind the last interval that does not
/// come after it.
fn insert_sorted(list: &mut Vec<Interval>, x: Interval)
    ensures
        final(list)@ == inserted(old(list)@, x),
{
    let mut k: usize = list.len();
    while k > 0 && !comes_first(list[k - 1], x)
        invariant
            k <= list.len(),
            list@ == old(list)@,
            forall|j: int| k <= j < list.len() ==> !precedes(#[trigger] list@[j], x),
        decreases k,
    {
        k -= 1;
    }
    proof {
        lemma_inserted_at(list@, x, k as int);
    }
    list.insert(k, x);
}

/// Sorts the intervals into the canonical order.
pub(crate) fn sort(intervals: &Vec<Interval>) -> (res: Vec<Interval>)
    ensures
        res@ == sort_of(intervals@),
{
    let mut res: Vec<Interval> = Vec::new();
    let mut i: usize = 0;
    while i < intervals.len()
        invariant
            i <= intervals.len(),
            res@ == sort_of(intervals@.take(i as int)),
        decreases intervals.len() - i,
    {
        assert(intervals@.take(i + 1).drop_last() =~= intervals@.take(i as int));
        insert_sorted(&mut res, intervals[i]);
        i += 1;
    }
    assert(intervals@.take(intervals.len() as int) =~= intervals@);
    res
}

/// Leaves out each interval that repeats the one before it.
pub(crate) fn drop_repeats(intervals: &Vec<Interval>) -> (res: Vec<Interval>)
    ensures
        res@ == without_repeats(intervals@),
{
    let mut res: Vec<Interval> = Vec::new();
    let mut i: usize = 0;
    assert(intervals@.take(0) =~= Seq::<Interval>::empty());
    while i < intervals.len()
        invariant
            i <= intervals.len(),
            res@ == without_repeats(intervals@.take(i as int)),
        decreases intervals.len() - i,
    {
        let ghost before = intervals@.take(i as int);
        let ghost after = intervals@.take(i + 1);
        assert(after.drop_last() =~= before);
        assert(after.last() == intervals@[i as int]);
        if i == 0 {
            assert(after =~= seq![intervals@[0]]);
            res.push(intervals[i]);
            assert(res@ =~= after);
        } else {
            assert(after[after.len() - 2] == intervals@[i - 1]);
            let previous = intervals[i - 1];
            let current = intervals[i];
            if previous.chromatic != current.chromatic || previous.diatonic != current.diatonic {
                res.push(current);
            }
        }
        i += 1;
    }
    assert(intervals@.take(intervals.len() as int) =~= intervals@);
    res
}

/// A list in which each interval precedes its neighbour is sorted.
pub proof fn lemma_neighbours_sorted(s: Seq<Interval>)
    requires
        forall|j: int| 0 <= j < s.len() - 1 ==> precedes(#[trigger] s[j], s[j + 1]),
    ensures
        sorted(s),
    decreases s.len(),
{
    if s.len() > 1 {
        let t = s.drop_last();
        assert forall|j: int| 0 <= j < t.len() - 1 implies precedes(#[trigger] t[j], t[j + 1]) by {
            assert(precedes(s[j], s[j + 1]));
        }
        lemma_neighbours_sorted(t);
        assert forall|i: int, j: int| 0 <= i <= j < s.len() implies precedes(
            #[trigger] s[i],
            #[trigger] s[j],
        ) by {
            if j == s.len() - 1 && i < j {
                assert(precedes(t[i], t[t.len() - 1]));
                assert(precedes(s[s.len() - 2], s[s.len() - 2 + 1]));
            } else if i < j {
                assert(precedes(t[i], t[j]));
            }
        }
    }
}

} // verus!
