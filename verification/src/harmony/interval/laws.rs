//! What holds of the arithmetic and of the text of every interval and
//! pitch.

use super::display::{interval_text, quality_of, quality_text, unsigned_interval_text};
use super::parse::{
    interval_of_text, largest_number, quality_of_letter, quality_of_token,
    signed_interval_of_text, unsigned_interval_of_text, IntervalFault,
};
use super::Interval;
use crate::harmony::pitch::Pitch;
use crate::harmony::steps::{
    has_perfect_quality, lemma_mod_chromatic_octave, lemma_mod_octave,
    lemma_quality_shift_inverse, natural_chromatic, Steps,
};
use crate::harmony::text::{
    decimal_digits, is_digit, lemma_decimal_digits, lemma_digits_behind, lemma_signed_decimal,
    signed_decimal, signed_number,
};
use vstd::prelude::*;

verus! {

/// Adding intervals is associative: `a + (b + c) == (a + b) + c`.
pub proof fn lemma_interval_add_associative(a: Interval, b: Interval, c: Interval)
    ensures
        a@.plus(b@.plus(c@)) == a@.plus(b@).plus(c@),
{
}

/// Adding intervals is commutative: `a + b == b + a`.
pub proof fn lemma_interval_add_commutative(a: Interval, b: Interval)
    ensures
        a@.plus(b@) == b@.plus(a@),
{
}

/// An interval and its negation add up to the unison: `a + (-a) == 1`.
pub proof fn lemma_interval_add_negation(a: Interval)
    ensures
        a@.plus(a@.negate()) == Steps::zero(),
{
}

/// Subtracting an interval is adding its negation, and the unison changes
/// nothing.
pub proof fn lemma_interval_sub_is_add_negation(a: Interval, b: Interval)
    ensures
        a@.minus(b@) == a@.plus(b@.negate()),
        a@.plus(Steps::zero()) == a@,
{
}

/// Transposing by two intervals in turn is transposing by their sum:
/// `(p + a) + b == p + (a + b)`.
pub proof fn lemma_transpose_twice(p: Pitch, a: Interval, b: Interval)
    ensures
        p@.plus(a@).plus(b@) == p@.plus(a@.plus(b@)),
{
}

/// The interval between two pitches leads from the first to the second:
/// `(p2 - p1) + p1 == p2`.
pub proof fn lemma_difference_leads_back(p2: Pitch, p1: Pitch)
    ensures
        p2@.minus(p1@).plus(p1@) == p2@,
        p1@.plus(p2@.minus(p1@)) == p2@,
{
}

/// Reducing an interval into the first octave leaves its diatonic steps in
/// `0..7`, and reducing it again changes nothing.
pub proof fn lemma_interval_reduction_idempotent(a: Interval)
    ensures
        0 <= a@.mod_octave().diatonic < 7,
        a@.mod_octave().mod_octave() == a@.mod_octave(),
        0 <= a@.mod_chromatic_octave().chromatic < 12,
        a@.mod_chromatic_octave().mod_chromatic_octave() == a@.mod_chromatic_octave(),
{
    lemma_mod_octave(a@);
    lemma_mod_chromatic_octave(a@);
}

/// Reducing a pitch into the fourth octave leaves its diatonic steps in
/// `0..7`, and reducing it again changes nothing.
pub proof fn lemma_pitch_reduction_idempotent(p: Pitch)
    ensures
        0 <= p@.mod_octave().diatonic < 7,
        p@.mod_octave().mod_octave() == p@.mod_octave(),
        0 <= p@.mod_chromatic_octave().chromatic < 12,
        p@.mod_chromatic_octave().mod_chromatic_octave() == p@.mod_chromatic_octave(),
{
    lemma_mod_octave(p@);
    lemma_mod_chromatic_octave(p@);
}

/// The text of a quality reads back as that quality, and does not end in a
/// digit nor start with a minus sign.
proof fn lemma_quality_text(quality: int, whole: Seq<char>)
    ensures
        quality_text(quality).len() == 0 || !is_digit(quality_text(quality).last()),
        quality_text(quality).len() == 0 || quality_text(quality)[0] != '-',
        quality_of_token(quality_text(quality), whole) matches Ok(pair) && pair.0 == quality,
{
    let t = quality_text(quality);
    if quality == 0 {
    } else if -2 <= quality <= 2 {
        assert(t.len() == 1);
        assert(quality_of_letter(t[0]) == Some(quality));
    } else {
        let number = signed_decimal(quality);
        lemma_signed_decimal(quality);
        assert(t.len() == number.len() + 2);
        assert(t[0] == '(');
        assert(t.last() == ')');
        assert(t.subrange(1, t.len() - 1) =~= number);
        assert(signed_number(number) == Some(quality));
    }
}

/// The text of an upward interval reads back as that interval.
proof fn lemma_unsigned_round_trip(x: Steps)
    requires
        0 <= x.diatonic < largest_number(),
    ensures
        unsigned_interval_of_text(unsigned_interval_text(x)) == Ok::<Steps, IntervalFault>(x),
        unsigned_interval_text(x).len() > 0,
        unsigned_interval_text(x)[0] != '-',
{
    let quality = quality_of(x);
    let token = quality_text(quality);
    let digits = decimal_digits(x.diatonic + 1);
    let s = unsigned_interval_text(x);
    lemma_quality_text(quality, s);
    lemma_digits_behind(token, x.diatonic + 1);
    lemma_decimal_digits(x.diatonic + 1);
    lemma_quality_shift_inverse(
        has_perfect_quality(x.diatonic),
        x.chromatic - natural_chromatic(x.diatonic),
        0,
    );
    if token.len() == 0 {
        assert(s[0] == digits[0]);
        assert(is_digit(digits[0]));
    } else {
        assert(s[0] == token[0]);
    }
}

/// Reading an interval back from its own text gives the interval:
/// `parse(format(x)) == x`, for every interval.
pub proof fn lemma_interval_text_round_trip(x: Interval)
    ensures
        interval_of_text(interval_text(x@)) == Ok::<Steps, IntervalFault>(x@),
{
    let s = interval_text(x@);
    if x.diatonic < 0 {
        let up = x@.negate();
        lemma_unsigned_round_trip(up);
        let rest = unsigned_interval_text(up);
        assert(s[0] == '-');
        assert(s.skip(1) =~= rest);
        assert(signed_interval_of_text(rest) == unsigned_interval_of_text(rest));
        assert(up.negate() == x@);
    } else {
        lemma_unsigned_round_trip(x@);
    }
}

} // verus!
