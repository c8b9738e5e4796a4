//! Writing intervals as text.

use super::parse::{IntervalFault, ParseIntervalError};
use super::{natural_steps, wide_has_perfect, Interval};
use crate::harmony::steps::{has_perfect_quality, natural_chromatic, shift_quality, Steps};
use crate::harmony::text::{decimal_digits, push_decimal, push_signed, signed_decimal};
use vstd::prelude::*;
use vstd::string::*;

verus! {

/// The text of a quality on the numeric scale: a letter for the five
/// common ones (nothing for perfect), the number in parentheses for the
/// others.
pub open spec fn quality_text(quality: int) -> Seq<char> {
    if quality == -2 {
        seq!['d']
    } else if quality == -1 {
        seq!['m']
    } else if quality == 0 {
        Seq::empty()
    } else if quality == 1 {
        seq!['j']
    } else if quality == 2 {
        seq!['a']
    } else {
        seq!['('] + signed_decimal(quality) + seq![')']
    }
}

/// The quality of an interval on the numeric scale: how far its half steps
/// are from the natural interval of its family, read on the scale of that
/// family.
pub open spec fn quality_of(x: Steps) -> int {
    shift_quality(has_perfect_quality(x.diatonic), x.chromatic - natural_chromatic(x.diatonic))
}

/// The text of an upward interval: its quality and its number, which is one
/// more than its diatonic steps.
pub open spec fn unsigned_interval_text(x: Steps) -> Seq<char> {
    quality_text(quality_of(x)) + decimal_digits(x.diatonic + 1)
}

/// The text of an interval. A downward interval is written as a minus sign
/// and the upward interval of the same size.
pub open spec fn interval_text(x: Steps) -> Seq<char> {
    if x.diatonic < 0 {
        seq!['-'] + unsigned_interval_text(x.negate())
    } else {
        unsigned_interval_text(x)
    }
}

/// Appends the text of a quality.
fn push_quality(out: &mut String, quality: i32)
    requires
        quality != i32::MIN,
    ensures
        final(out)@ == old(out)@ + quality_text(quality as int),
{
    let ghost before = out@;
    proof {
        reveal_strlit("d");
        reveal_strlit("m");
        reveal_strlit("j");
        reveal_strlit("a");
        reveal_strlit("(");
        reveal_strlit(")");
    }
    if quality == -2 {
        out.append("d");
    } else if quality == -1 {
        out.append("m");
    } else if quality == 0 {
    } else if quality == 1 {
        out.append("j");
    } else if quality == 2 {
        out.append("a");
    } else {
        out.append("(");
        push_signed(out, quality as i64);
        out.append(")");
    }
    assert(out@ =~= before + quality_text(quality as int));
}

/// The quality, on the numeric scale, of an interval that lies `shift`
/// half steps above the natural interval of its family.
fn quality_of_shift(perfect: bool, shift: i32) -> (res: i32)
    requires
        -1_000_000 < shift < 1_000_000,
    ensures
        res == shift_quality(perfect, shift as int),
{
    if perfect {
        if shift <= -1 {
            shift - 1
        } else if shift == 0 {
            0
        } else {
            shift + 1
        }
    } else {
        if shift <= 0 {
            shift - 1
        } else {
            shift
        }
    }
}

impl Interval {
    /// The interval as text, in the form that
    /// [`from_str`](Interval::from_str) reads: `m3`, `5`, `-j3`, `(3)4`.
    pub fn to_string(&self) -> (res: String)
        ensures
            res@ == interval_text(self@),
    {
        let mut out = String::new();
        let (diatonic, chromatic): (i32, i32) = if self.diatonic < 0 {
            proof {
                reveal_strlit("-");
            }
            out.append("-");
            (-(self.diatonic as i32), -(self.chromatic as i32))
        } else {
            (self.diatonic as i32, self.chromatic as i32)
        };
        let perfect = wide_has_perfect(diatonic);
        let shift: i32 = chromatic - natural_steps(diatonic);
        push_quality(&mut out, quality_of_shift(perfect, shift));
        push_decimal(&mut out, (diatonic + 1) as u32);
        assert(out@ =~= interval_text(self@));
        out
    }
}

/// The number from 1 to 7 of the interval within one octave that an
/// interval of the given number is equivalent to; 0 for the number 0.
pub open spec fn octave_equivalent(number: int) -> int {
    let magnitude = if number < 0 {
        -number
    } else {
        number
    };
    if magnitude == 0 {
        0
    } else {
        (magnitude - 1) % 7 + 1
    }
}

impl ParseIntervalError {
    /// The message of the error.
    pub open spec fn message(fault: IntervalFault) -> Seq<char> {
        match fault {
            IntervalFault::InvalidNumber(s) => "could not parse interval number `"@ + s + "`"@,
            IntervalFault::InvalidQuality(s) => "could not parse interval quality `"@ + s + "`"@,
            IntervalFault::Impossible { number, quality: Some(quality) } => "interval of number "@
                + signed_decimal(number) + " (octave equivalent to "@ + signed_decimal(
                octave_equivalent(number),
            ) + ") cannot have quality `"@ + quality + "`"@,
            IntervalFault::Impossible { number, quality: None } => "interval of number "@
                + signed_decimal(number) + " (octave equivalent to "@ + signed_decimal(
                octave_equivalent(number),
            ) + ") cannot be perfect"@,
        }
    }

    /// The error as a sentence that names the offending text.
    pub fn to_string(&self) -> (res: String)
        ensures
            res@ == Self::message(self@),
    {
        match self {
            ParseIntervalError::InvalidNumber(s) => {
                let mut out = String::from_str("could not parse interval number `");
                out.append(s.as_str());
                out.append("`");
                out
            },
            ParseIntervalError::InvalidQuality(s) => {
                let mut out = String::from_str("could not parse interval quality `");
                out.append(s.as_str());
                out.append("`");
                out
            },
            ParseIntervalError::Impossible { number, quality } => {
                let number: i64 = *number as i64;
                let magnitude: i64 = if number < 0 {
                    -number
                } else {
                    number
                };
                let equivalent: i64 = if magnitude == 0 {
                    0
                } else {
                    (magnitude - 1) % 7 + 1
                };
                let mut out = String::from_str("interval of number ");
                push_signed(&mut out, number);
                out.append(" (octave equivalent to ");
                push_signed(&mut out, equivalent);
                match quality {
                    Some(quality) => {
                        out.append(") cannot have quality `");
                        out.append(quality.as_str());
                        out.append("`");
                    },
                    None => {
                        out.append(") cannot be perfect");
                    },
                }
                out
            },
        }
    }
}

} // verus!
