//! Reading scales from text.

use super::Scale;
use crate::harmony::interval::parse::{interval_of_text, IntervalFault};
use crate::harmony::interval::Interval;
use crate::harmony::text::chars_of;
use crate::harmony::{ParseError, ParseFault};
use vstd::prelude::*;
use vstd::string::*;

verus! {

/// Whether `c` is white space: a character with the Unicode property
/// `White_Space`.
pub open spec fn is_space(c: char) -> bool {
    ||| '\u{9}' <= c <= '\u{d}'
    ||| c == ' '
    ||| c == '\u{85}'
    ||| c == '\u{a0}'
    ||| c == '\u{1680}'
    ||| '\u{2000}' <= c <= '\u{200a}'
    ||| c == '\u{2028}'
    ||| c == '\u{2029}'
    ||| c == '\u{202f}'
    ||| c == '\u{205f}'
    ||| c == '\u{3000}'
}

/// The words of a text: its longest runs of characters that are not white
/// space, in their order.
pub open spec fn words(s: Seq<char>) -> Seq<Seq<char>>
    decreases s.len(),
{
    if s.len() == 0 {
        Seq::empty()
    } else if is_space(s.last()) {
        words(s.drop_last())
    } else if s.len() >= 2 && !is_space(s[s.len() - 2]) {
        let before = words(s.drop_last());
        before.drop_last().push(before.last().push(s.last()))
    } else {
        words(s.drop_last()).push(seq![s.last()])
    }
}

/// The interval that a word of a scale stands for. A bare `2`, `3` or `6`
/// is major and a bare `7` is minor; any other word is read as an interval.
pub open spec fn degree_of_word(w: Seq<char>) -> Result<Interval, IntervalFault> {
    if w.len() == 1 && w[0] == '2' {
        Ok(Interval { chromatic: 2, diatonic: 1 })
    } else if w.len() == 1 && w[0] == '3' {
        Ok(Interval { chromatic: 4, diatonic: 2 })
    } else if w.len() == 1 && w[0] == '6' {
        Ok(Interval { chromatic: 9, diatonic: 5 })
    } else if w.len() == 1 && w[0] == '7' {
        Ok(Interval { chromatic: 10, diatonic: 6 })
    } else {
        match interval_of_text(w) {
            Ok(steps) => Ok(Interval::of(steps)),
            Err(fault) => Err(fault),
        }
    }
}

/// The intervals that the words stand for, in their order, or the fault of
/// the first word that stands for none.
pub open spec fn degrees_of_words(ws: Seq<Seq<char>>) -> Result<Seq<Interval>, IntervalFault>
    decreases ws.len(),
{
    if ws.len() == 0 {
        Ok(Seq::empty())
    } else {
        match degrees_of_words(ws.drop_last()) {
            Err(fault) => Err(fault),
            Ok(before) => match degree_of_word(ws.last()) {
                Err(fault) => Err(fault),
                Ok(interval) => Ok(before.push(interval)),
            },
        }
    }
}

/// What a text stands for when read as a scale: the intervals of its
/// words.
pub open spec fn scale_of_text(s: Seq<char>) -> Result<Seq<Interval>, IntervalFault> {
    degrees_of_words(words(s))
}

/// Whether `c` is white space.
pub(crate) fn is_whitespace(c: char) -> (res: bool)
    ensures
        res == is_space(c),
{
    ('\u{9}' <= c && c <= '\u{d}') || c == ' ' || c == '\u{85}' || c == '\u{a0}' || c
        == '\u{1680}' || ('\u{2000}' <= c && c <= '\u{200a}') || c == '\u{2028}' || c
        == '\u{2029}' || c == '\u{202f}' || c == '\u{205f}' || c == '\u{3000}'
}

/// The words named by `ranges`: the characters of `s` from the first to the
/// second position of each.
pub open spec fn ranged(s: Seq<char>, ranges: Seq<(usize, usize)>) -> Seq<Seq<char>> {
    Seq::new(ranges.len(), |j: int| s.subrange(ranges[j].0 as int, ranges[j].1 as int))
}

/// Finds the words of a text: for each the position at which it starts and
/// the position behind its end.
pub(crate) fn split_words(chars: &Vec<char>) -> (res: Vec<(usize, usize)>)
    ensures
        forall|j: int|
            0 <= j < res@.len() ==> (#[trigger] res@[j]).0 <= res@[j].1 <= chars@.len(),
        ranged(chars@, res@) == words(chars@),
{
    let n = chars.len();
    let mut ranges: Vec<(usize, usize)> = Vec::new();
    let mut in_word = false;
    let mut start: usize = 0;
    let mut i: usize = 0;
    assert(chars@.take(0) =~= Seq::<char>::empty());
    assert(ranged(chars@, ranges@) =~= words(chars@.take(0)));
    while i < n
        invariant
            n == chars.len(),
            i <= n,
            forall|j: int|
                0 <= j < ranges@.len() ==> (#[trigger] ranges@[j]).0 <= ranges@[j].1 <= n,
            in_word ==> start < i && !is_space(chars@[i - 1]) && words(chars@.take(i as int))
                == ranged(chars@, ranges@).push(chars@.subrange(start as int, i as int)),
            !in_word ==> (i == 0 || is_space(chars@[i - 1])) && words(chars@.take(i as int))
                == ranged(chars@, ranges@),
        decreases n - i,
    {
        let c = chars[i];
        let ghost before = chars@.take(i as int);
        let ghost after = chars@.take(i + 1);
        assert(after.drop_last() =~= before);
        assert(after.last() == c);
        if i > 0 {
            assert(after[after.len() - 2] == chars@[i - 1]);
        }
        if is_whitespace(c) {
            if in_word {
                let ghost old_ranges = ranges@;
                ranges.push((start, i));
                assert(ranged(chars@, ranges@) =~= ranged(chars@, old_ranges).push(
                    chars@.subrange(start as int, i as int),
                ));
                in_word = false;
            }
        } else {
            if !in_word {
                start = i;
                in_word = true;
                assert(chars@.subrange(i as int, i + 1) =~= seq![c]);
            } else {
                let ghost w = words(before);
                assert(w.drop_last() =~= ranged(chars@, ranges@));
                assert(w.last().push(c) =~= chars@.subrange(start as int, i + 1));
            }
        }
        i += 1;
    }
    assert(chars@.take(n as int) =~= chars@);
    if in_word {
        let ghost old_ranges = ranges@;
        ranges.push((start, n));
        assert(ranged(chars@, ranges@) =~= ranged(chars@, old_ranges).push(
            chars@.subrange(start as int, n as int),
        ));
    }
    ranges
}

impl Scale {
    /// Reads a scale from a list of intervals separated by white space, as
    /// in `1 j2 j3 4 5 j6 j7`. Where a second, third or sixth has no
    /// quality it is major, and a seventh without quality is minor, so
    /// `1 2 3 4 5 6 7` is the mixolydian mode.
    ///
    /// The intervals are kept as they are written: the scale is normal only
    /// if the text lists it so.
    pub fn from_str(s: &str) -> (res: Result<Scale, ParseError>)
        ensures
            match scale_of_text(s@) {
                Ok(intervals) => res matches Ok(scale) && scale@ == intervals,
                Err(fault) => res matches Err(e) && e@ == ParseFault::Interval(fault),
            },
    {
        let chars = chars_of(s);
        let ranges = split_words(&chars);
        let ghost ws = words(s@);
        let mut intervals: Vec<Interval> = Vec::new();
        let mut j: usize = 0;
        assert(ws.take(0) =~= Seq::<Seq<char>>::empty());
        while j < ranges.len()
            invariant
                j <= ranges.len(),
                chars@ == s@,
                ws == words(s@),
                ranged(chars@, ranges@) == ws,
                forall|k: int|
                    0 <= k < ranges@.len() ==> (#[trigger] ranges@[k]).0 <= ranges@[k].1
                        <= chars@.len(),
                degrees_of_words(ws.take(j as int)) == Ok::<Seq<Interval>, IntervalFault>(
                    intervals@,
                ),
            decreases ranges.len() - j,
        {
            let (from, to) = ranges[j];
            let ghost word = ws[j as int];
            assert(word == chars@.subrange(from as int, to as int));
            assert(ws.take(j + 1).drop_last() =~= ws.take(j as int));
            assert(ws.take(j + 1).last() == word);
            let interval = if to - from == 1 && chars[from] == '2' {
                Interval { chromatic: 2, diatonic: 1 }
            } else if to - from == 1 && chars[from] == '3' {
                Interval { chromatic: 4, diatonic: 2 }
            } else if to - from == 1 && chars[from] == '6' {
                Interval { chromatic: 9, diatonic: 5 }
            } else if to - from == 1 && chars[from] == '7' {
                Interval { chromatic: 10, diatonic: 6 }
            } else {
                match Interval::from_str(s.substring_char(from, to)) {
                    Ok(interval) => interval,
                    Err(e) => {
                        proof {
                            lemma_first_fault(ws, j as int);
                        }
                        return Err(ParseError::Interval(e));
                    },
                }
            };
            assert(degree_of_word(word) == Ok::<Interval, IntervalFault>(interval));
            intervals.push(interval);
            j += 1;
        }
        assert(ws.take(ranges.len() as int) =~= ws);
        Ok(Scale(intervals))
    }
}

/// A fault of a word before which no word has one is the fault of the
/// list.
proof fn lemma_first_fault(ws: Seq<Seq<char>>, j: int)
    requires
        0 <= j < ws.len(),
        degrees_of_words(ws.take(j)) is Ok,
        degree_of_word(ws[j]) is Err,
    ensures
        degrees_of_words(ws) == Err::<Seq<Interval>, IntervalFault>(degree_of_word(ws[j])->Err_0),
    decreases ws.len(),
{
    if j == ws.len() - 1 {
        assert(ws.drop_last() =~= ws.take(j));
    } else {
        assert(ws.drop_last().take(j) =~= ws.take(j));
        lemma_first_fault(ws.drop_last(), j);
    }
}

} // verus!
