//! Reading intervals from text.

use super::{natural_steps, wide_has_perfect, Interval};
use crate::harmony::steps::{has_perfect_quality, natural_chromatic, quality_shift, Steps};
use crate::harmony::text::{
    chars_of, decimal_value, digit_run_start, digit_suffix_start,
    lemma_digit_suffix_is_digits, parse_digits, parse_signed_capped, signed_number, substring,
};
use vstd::prelude::*;

verus! {

/// Error that may occur when parsing an interval.
#[derive(Debug, PartialEq, Eq)]
pub enum ParseIntervalError {
    /// An invalid interval number.
    InvalidNumber(String),
    /// An invalid interval quality.
    InvalidQuality(String),
    /// A combination of number and quality that does not exist.
    Impossible {
        /// The number of the interval.
        number: i32,
        /// The text from which the quality was read; none where there was
        /// no text, which asks for the perfect quality.
        quality: Option<String>,
    },
}

/// What a [`ParseIntervalError`] holds, as sequences of characters.
pub enum IntervalFault {
    InvalidNumber(Seq<char>),
    InvalidQuality(Seq<char>),
    Impossible { number: int, quality: Option<Seq<char>> },
}

impl View for ParseIntervalError {
    type V = IntervalFault;

    open spec fn view(&self) -> IntervalFault {
        match self {
            ParseIntervalError::InvalidNumber(s) => IntervalFault::InvalidNumber(s@),
            ParseIntervalError::InvalidQuality(s) => IntervalFault::InvalidQuality(s@),
            ParseIntervalError::Impossible { number, quality } => IntervalFault::Impossible {
                number: *number as int,
                quality: match quality {
                    Some(s) => Some(s@),
                    None => None,
                },
            },
        }
    }
}

/// The quality that a letter stands for: `d` diminished, `m` minor, `p` or
/// `P` perfect, `j` or `M` major, `a` or `A` augmented.
pub open spec fn quality_of_letter(c: char) -> Option<int> {
    if c == 'd' {
        Some(-2)
    } else if c == 'm' {
        Some(-1)
    } else if c == 'p' || c == 'P' {
        Some(0)
    } else if c == 'j' || c == 'M' {
        Some(1)
    } else if c == 'a' || c == 'A' {
        Some(2)
    } else {
        None
    }
}

/// The text that names a quality in parentheses: what stands between the
/// parentheses, without a plus sign that may come first.
pub open spec fn quality_number_text(token: Seq<char>) -> Seq<char>
    recommends
        token.len() >= 2,
{
    if token.len() >= 3 && token[1] == '+' {
        token.subrange(2, token.len() - 1)
    } else {
        token.subrange(1, token.len() - 1)
    }
}

/// The quality that the text before an interval's number asks for, with the
/// part of the text that names it. No text asks for the perfect quality; a
/// single character must be a quality letter; anything longer must be a
/// signed number in parentheses: a plus or a minus sign or none, and
/// digits. `whole` is the text of the interval, quoted where the quality
/// has no such shape.
pub open spec fn quality_of_token(token: Seq<char>, whole: Seq<char>) -> Result<
    (int, Option<Seq<char>>),
    IntervalFault,
> {
    if token.len() == 0 {
        Ok((0, None))
    } else if token.len() == 1 {
        match quality_of_letter(token[0]) {
            Some(quality) => Ok((quality, Some(token))),
            None => Err(IntervalFault::InvalidQuality(token)),
        }
    } else if token[0] == '(' && token.last() == ')' {
        match signed_number(token.subrange(1, token.len() - 1)) {
            Some(quality) => Ok((quality, Some(quality_number_text(token)))),
            None => Err(IntervalFault::InvalidQuality(quality_number_text(token))),
        }
    } else {
        Err(IntervalFault::InvalidQuality(whole))
    }
}

/// The largest number of an interval of sixteen bits: that of the interval
/// of `i16::MIN` diatonic steps, which is written as a downward interval.
pub open spec fn largest_number() -> int {
    -i16::MIN + 1
}

/// What a text without a leading minus sign stands for when read as an
/// interval: a quality, then the interval's number in digits. The number
/// counts from one, so the diatonic steps are one less. A number beyond
/// that of every interval of sixteen bits is invalid.
pub open spec fn unsigned_interval_of_text(s: Seq<char>) -> Result<Steps, IntervalFault> {
    let k = digit_suffix_start(s);
    let digits = s.skip(k);
    let token = s.take(k);
    if digits.len() == 0 {
        Err(IntervalFault::InvalidNumber(Seq::empty()))
    } else if decimal_value(digits) > largest_number() {
        Err(IntervalFault::InvalidNumber(digits))
    } else {
        let number = decimal_value(digits);
        let diatonic = number - 1;
        match quality_of_token(token, s) {
            Err(fault) => Err(fault),
            Ok((quality, text)) => match quality_shift(has_perfect_quality(diatonic), quality) {
                None => Err(IntervalFault::Impossible { number: number, quality: text }),
                Some(shift) => Ok(
                    Steps { diatonic: diatonic, chromatic: natural_chromatic(diatonic) + shift },
                ),
            },
        }
    }
}

/// `result` with its interval turned around where `negative` holds.
pub open spec fn turned(negative: bool, result: Result<Steps, IntervalFault>) -> Result<
    Steps,
    IntervalFault,
> {
    match result {
        Ok(steps) => if negative {
            Ok(steps.negate())
        } else {
            Ok(steps)
        },
        Err(fault) => Err(fault),
    }
}

/// What a text stands for when read as an interval of any size: each
/// leading minus sign turns the interval that follows it around.
pub open spec fn signed_interval_of_text(s: Seq<char>) -> Result<Steps, IntervalFault>
    decreases s.len(),
{
    if s.len() > 0 && s[0] == '-' {
        turned(true, signed_interval_of_text(s.skip(1)))
    } else {
        unsigned_interval_of_text(s)
    }
}

/// What is left of a text behind the minus signs at its start.
pub open spec fn behind_minus(s: Seq<char>) -> Seq<char>
    decreases s.len(),
{
    if s.len() > 0 && s[0] == '-' {
        behind_minus(s.skip(1))
    } else {
        s
    }
}

/// The fault of a text that stands for the interval `steps`, which does not
/// fit in sixteen bits. Where the diatonic steps do not fit, the number is
/// invalid. Where the half steps do not fit, the quality is invalid if it
/// is a number in parentheses, else the number is.
pub open spec fn unfit_fault(s: Seq<char>, steps: Steps) -> IntervalFault {
    let text = behind_minus(s);
    let k = digit_suffix_start(text);
    let token = text.take(k);
    if token.len() >= 2 && i16::MIN <= steps.diatonic <= i16::MAX {
        IntervalFault::InvalidQuality(quality_number_text(token))
    } else {
        IntervalFault::InvalidNumber(text.skip(k))
    }
}

/// What a text stands for when read as an interval. The number and the
/// quality may be any, as long as the steps of the interval fit in sixteen
/// bits.
pub open spec fn interval_of_text(s: Seq<char>) -> Result<Steps, IntervalFault> {
    match signed_interval_of_text(s) {
        Ok(steps) => if steps.fits() {
            Ok(steps)
        } else {
            Err(unfit_fault(s, steps))
        },
        Err(fault) => Err(fault),
    }
}

/// The quality that a letter stands for.
fn letter_quality(c: char) -> (res: Option<i16>)
    ensures
        res is Some == quality_of_letter(c) is Some,
        res is Some ==> quality_of_letter(c) == Some(res.unwrap() as int),
{
    if c == 'd' {
        Some(-2)
    } else if c == 'm' {
        Some(-1)
    } else if c == 'p' || c == 'P' {
        Some(0)
    } else if c == 'j' || c == 'M' {
        Some(1)
    } else if c == 'a' || c == 'A' {
        Some(2)
    } else {
        None
    }
}

/// Beyond this a quality is only known to be too large: no interval of
/// sixteen bits has one of that size.
const WIDE: u32 = 1_000_000;

/// Half steps of an interval of the given quality above the natural
/// interval of its family.
fn shift_of_quality(perfect: bool, quality: i32) -> (res: Option<i32>)
    requires
        -(WIDE as int) <= quality <= WIDE as int,
    ensures
        res is Some == quality_shift(perfect, quality as int) is Some,
        res is Some ==> quality_shift(perfect, quality as int) == Some(res.unwrap() as int),
{
    if perfect {
        if quality <= -2 {
            Some(quality + 1)
        } else if quality == 0 {
            Some(0)
        } else if quality >= 2 {
            Some(quality - 1)
        } else {
            None
        }
    } else {
        if quality <= -1 {
            Some(quality + 1)
        } else if quality >= 1 {
            Some(quality)
        } else {
            None
        }
    }
}

/// The half steps `computed` decide as `true` does whether an interval
/// fits: they are the same, or both lie far beyond sixteen bits on the same
/// side.
pub open spec fn as_good(computed: int, truly: int) -> bool {
    computed == truly || (computed > 40_000 && truly > 40_000) || (computed < -40_000 && truly
        < -40_000)
}

/// Reads the characters of `s` from `from` on as an interval without a
/// leading minus sign, and gives its diatonic and chromatic steps; of half
/// steps far beyond sixteen bits only that they are so.
fn unsigned_interval_in(s: &str, chars: &Vec<char>, from: usize) -> (res: Result<
    (i32, i32),
    ParseIntervalError,
>)
    requires
        chars@ == s@,
        from <= chars.len(),
    ensures
        match unsigned_interval_of_text(s@.skip(from as int)) {
            Ok(steps) => res matches Ok(pair) && pair.0 == steps.diatonic && as_good(
                pair.1 as int,
                steps.chromatic,
            ) && -1 <= pair.0 <= 32768 && -1_100_000 < pair.1 < 1_100_000,
            Err(fault) => res matches Err(e) && e@ == fault,
        },
{
    let n = chars.len();
    let ghost text = s@.skip(from as int);
    assert(text =~= chars@.subrange(from as int, n as int));
    let k = digit_run_start(chars, from, n);
    let ghost digits = text.skip(k - from);
    let ghost token = text.take(k - from);
    assert(digits =~= chars@.subrange(k as int, n as int));
    assert(token =~= chars@.subrange(from as int, k as int));
    if k == n {
        let empty = String::new();
        assert(empty@ =~= Seq::<char>::empty());
        return Err(ParseIntervalError::InvalidNumber(empty));
    }
    proof {
        lemma_digit_suffix_is_digits(text);
    }
    let number: i32 = match parse_digits(chars, k, n, 32769) {
        Some(number) => number as i32,
        None => {
            return Err(ParseIntervalError::InvalidNumber(substring(s, k, n)));
        },
    };
    let diatonic: i32 = number - 1;
    let perfect = wide_has_perfect(diatonic);
    let natural = natural_steps(diatonic);
    let length: usize = k - from;
    if length == 0 {
        return match shift_of_quality(perfect, 0) {
            Some(shift) => Ok((diatonic, natural + shift)),
            None => Err(ParseIntervalError::Impossible { number: number, quality: None }),
        };
    }
    assert(token[0] == chars@[from as int]);
    assert(token.last() == chars@[k - 1]);
    if length == 1 {
        return match letter_quality(chars[from]) {
            Some(quality) => match shift_of_quality(perfect, quality as i32) {
                Some(shift) => Ok((diatonic, natural + shift)),
                None => Err(
                    ParseIntervalError::Impossible {
                        number: number,
                        quality: Some(substring(s, from, k)),
                    },
                ),
            },
            None => Err(ParseIntervalError::InvalidQuality(substring(s, from, k))),
        };
    }
    if chars[from] == '(' && chars[k - 1] == ')' {
        assert(token[1] == chars@[from + 1]);
        let low: usize = if length >= 3 && chars[from + 1] == '+' {
            from + 2
        } else {
            from + 1
        };
        let high: usize = k - 1;
        assert(quality_number_text(token) =~= chars@.subrange(low as int, high as int));
        assert(token.subrange(1, token.len() - 1) =~= chars@.subrange(from + 1, high as int));
        return match parse_signed_capped(chars, from + 1, high, WIDE) {
            Some(quality) => match shift_of_quality(perfect, quality) {
                Some(shift) => Ok((diatonic, natural + shift)),
                None => Err(
                    ParseIntervalError::Impossible {
                        number: number,
                        quality: Some(substring(s, low, high)),
                    },
                ),
            },
            None => Err(ParseIntervalError::InvalidQuality(substring(s, low, high))),
        };
    }
    Err(ParseIntervalError::InvalidQuality(substring(s, from, n)))
}

impl Interval {
    /// Reads an interval: an optional `-` for a downward interval, the
    /// quality and the interval's number, as in `m3`, `5`, `a4` or `-j3`.
    ///
    /// The quality is `d` diminished, `m` minor, `p` or `P` perfect (which
    /// may be left out), `j` or `M` major, `a` or `A` augmented. Any
    /// quality can be written as a number in parentheses, on the scale
    /// `(-2)` diminished, `(-1)` minor, `(0)` perfect, `(1)` major, `(2)`
    /// augmented, `(3)` doubly augmented and so on. Unisons, fourths and
    /// fifths are neither minor nor major; seconds, thirds, sixths and
    /// sevenths are never perfect.
    pub fn from_str(s: &str) -> (res: Result<Interval, ParseIntervalError>)
        ensures
            match interval_of_text(s@) {
                Ok(steps) => res matches Ok(i) && i@ == steps,
                Err(fault) => res matches Err(e) && e@ == fault,
            },
    {
        let chars = chars_of(s);
        let n = chars.len();
        let mut from: usize = 0;
        let mut negative = false;
        assert(s@.skip(0) =~= s@);
        while from < n && chars[from] == '-'
            invariant
                chars@ == s@,
                n == chars.len(),
                from <= n,
                signed_interval_of_text(s@) == turned(
                    negative,
                    signed_interval_of_text(s@.skip(from as int)),
                ),
                behind_minus(s@) == behind_minus(s@.skip(from as int)),
            decreases n - from,
        {
            assert(s@.skip(from as int)[0] == '-');
            assert(s@.skip(from as int).skip(1) =~= s@.skip(from + 1));
            from += 1;
            negative = !negative;
        }
        proof {
            if from < n {
                assert(s@.skip(from as int)[0] == chars@[from as int]);
            }
        }
        let (diatonic, chromatic) = match unsigned_interval_in(s, &chars, from) {
            Ok(pair) => pair,
            Err(e) => {
                return Err(e);
            },
        };
        let (diatonic, chromatic) = if negative {
            (-diatonic, -chromatic)
        } else {
            (diatonic, chromatic)
        };
        if -32768 <= chromatic && chromatic <= 32767 && -32768 <= diatonic && diatonic <= 32767 {
            Ok(Interval { chromatic: chromatic as i16, diatonic: diatonic as i16 })
        } else {
            Err(unfit_error(s, &chars, from, -32768 <= diatonic && diatonic <= 32767))
        }
    }
}

/// The error of a text that stands, from `from` on, for an interval that
/// does not fit; `staff_fits` says whether its diatonic steps do.
fn unfit_error(s: &str, chars: &Vec<char>, from: usize, staff_fits: bool) -> (res:
    ParseIntervalError)
    requires
        chars@ == s@,
        from <= chars.len(),
        behind_minus(s@) == s@.skip(from as int),
    ensures
        forall|steps: Steps|
            staff_fits == (i16::MIN <= steps.diatonic <= i16::MAX) ==> res@ == #[trigger] unfit_fault(
                s@,
                steps,
            ),
{
    let n = chars.len();
    let ghost text = s@.skip(from as int);
    assert(text =~= chars@.subrange(from as int, n as int));
    let k = digit_run_start(chars, from, n);
    let ghost token = text.take(k - from);
    assert(token =~= chars@.subrange(from as int, k as int));
    assert(text.skip(k - from) =~= s@.subrange(k as int, n as int));
    if k - from >= 2 && staff_fits {
        assert(token[1] == chars@[from + 1]);
        let low: usize = if k - from >= 3 && chars[from + 1] == '+' {
            from + 2
        } else {
            from + 1
        };
        assert(quality_number_text(token) =~= s@.subrange(low as int, k - 1));
        ParseIntervalError::InvalidQuality(substring(s, low, k - 1))
    } else {
        ParseIntervalError::InvalidNumber(substring(s, k, n))
    }
}

} // verus!
