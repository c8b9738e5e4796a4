//! Reading accidentals, pitch names and pitches from text.

use super::{Accidental, Pitch, PitchName};
use crate::harmony::steps::Steps;
use crate::harmony::text::{
    capped, chars_of, digit_run_start, digit_suffix_start, number_i16, parse_capped, parse_i16,
    substring, unsigned_number,
};
use vstd::prelude::*;

verus! {

/// Error that may occur when parsing a pitch.
#[derive(Debug, PartialEq, Eq)]
pub enum ParsePitchError {
    /// An invalid pitch name, see [`PitchName`].
    InvalidPitchName(String),
    /// An invalid accidental, see [`Accidental`].
    InvalidAccidental(String),
    /// No octave was found.
    NoOctaveFound,
    /// An invalid octave was found.
    InvalidOctave(String),
}

/// What a [`ParsePitchError`] holds, as sequences of characters.
pub enum PitchFault {
    InvalidPitchName(Seq<char>),
    InvalidAccidental(Seq<char>),
    NoOctaveFound,
    InvalidOctave(Seq<char>),
}

impl View for ParsePitchError {
    type V = PitchFault;

    open spec fn view(&self) -> PitchFault {
        match self {
            ParsePitchError::InvalidPitchName(s) => PitchFault::InvalidPitchName(s@),
            ParsePitchError::InvalidAccidental(s) => PitchFault::InvalidAccidental(s@),
            ParsePitchError::NoOctaveFound => PitchFault::NoOctaveFound,
            ParsePitchError::InvalidOctave(s) => PitchFault::InvalidOctave(s@),
        }
    }
}

/// The accidental that a single character stands for on its own: `n` and
/// the natural sign, `#` and the sharp sign, `b` and the flat sign, `+` and
/// the double sharp sign, `&` and the double flat sign.
pub open spec fn accidental_symbol(c: char) -> Option<int> {
    if c == 'n' || c == '\u{266e}' {
        Some(0)
    } else if c == '#' || c == '\u{266f}' {
        Some(1)
    } else if c == 'b' || c == '\u{266d}' {
        Some(-1)
    } else if c == '+' || c == '\u{1d12a}' {
        Some(2)
    } else if c == '&' || c == '\u{1d12b}' {
        Some(-2)
    } else {
        None
    }
}

/// Whether every character of `s` is `c`.
pub open spec fn all_are(s: Seq<char>, c: char) -> bool {
    forall|i: int| 0 <= i < s.len() ==> #[trigger] s[i] == c
}

/// What a text stands for when read as an accidental, be it of any size.
///
/// The empty text is the natural. A single symbol stands for itself. A text
/// that opens a parenthesis must be `(N#)` or `(Nb)` with `N` written in
/// digits. Any other text must repeat `#` or `b`, and counts them.
pub open spec fn accidental_of_text(s: Seq<char>) -> Result<int, PitchFault> {
    if s.len() == 0 {
        Ok(0)
    } else if s.len() == 1 && accidental_symbol(s[0]) is Some {
        Ok(accidental_symbol(s[0])->0)
    } else if s[0] == '(' {
        let rest = s.skip(1);
        if rest.len() > 0 && rest.last() == ')' {
            let inner = rest.drop_last();
            if inner.len() == 0 {
                Err(PitchFault::InvalidAccidental(inner))
            } else {
                match unsigned_number(inner.drop_last()) {
                    Some(n) => if inner.last() == '#' {
                        Ok(n)
                    } else if inner.last() == 'b' {
                        Ok(-n)
                    } else {
                        Err(PitchFault::InvalidAccidental(inner))
                    },
                    None => Err(PitchFault::InvalidAccidental(inner)),
                }
            }
        } else {
            Err(PitchFault::InvalidAccidental(rest))
        }
    } else if all_are(s, '#') {
        Ok(s.len() as int)
    } else if all_are(s, 'b') {
        Ok(-(s.len() as int))
    } else {
        Err(PitchFault::InvalidAccidental(s))
    }
}

/// What a text stands for when read as an accidental on its own: as
/// [`accidental_of_text`] says, but an accidental whose half steps do not
/// fit in sixteen bits is invalid.
pub open spec fn short_accidental_of_text(s: Seq<char>) -> Result<int, PitchFault> {
    match accidental_of_text(s) {
        Ok(shift) => if i16::MIN <= shift <= i16::MAX {
            Ok(shift)
        } else {
            Err(PitchFault::InvalidAccidental(s))
        },
        Err(fault) => Err(fault),
    }
}

/// What a text stands for when read as a pitch: a letter, an accidental
/// and an octave.
///
/// The octave is the longest run of digits at the end of the text, with
/// the minus sign before it where there is one. What stands before the
/// octave must start with a letter from A to G; the rest of it is the
/// accidental. A pitch whose steps do not fit in sixteen bits has an
/// invalid octave.
pub open spec fn pitch_of_text(s: Seq<char>) -> Result<Steps, PitchFault> {
    let k = digit_suffix_start(s);
    if k == s.len() {
        Err(PitchFault::NoOctaveFound)
    } else {
        let o = if k > 0 && s[k - 1] == '-' {
            k - 1
        } else {
            k
        };
        let octave_text = s.skip(o);
        let head = s.take(o);
        match number_i16(octave_text) {
            None => Err(PitchFault::InvalidOctave(octave_text)),
            Some(octave) => if head.len() == 0 {
                Err(PitchFault::InvalidPitchName(head))
            } else {
                match PitchName::of_letter(head[0]) {
                    None => Err(PitchFault::InvalidPitchName(head)),
                    Some(name) => match accidental_of_text(head.skip(1)) {
                        Err(fault) => Err(fault),
                        Ok(accidental) => {
                            let steps = Steps::compose(name.index(), accidental, octave);
                            if steps.fits() {
                                Ok(steps)
                            } else {
                                Err(PitchFault::InvalidOctave(octave_text))
                            }
                        },
                    },
                }
            },
        }
    }
}

/// What a text stands for when read as a pitch name: it must be a single
/// letter from A to G.
pub open spec fn pitch_name_of_text(s: Seq<char>) -> Result<PitchName, PitchFault> {
    if s.len() == 1 && PitchName::of_letter(s[0]) is Some {
        Ok(PitchName::of_letter(s[0])->0)
    } else {
        Err(PitchFault::InvalidPitchName(s))
    }
}

/// The accidental that a single character stands for on its own.
fn symbol_value(c: char) -> (res: Option<i16>)
    ensures
        res is Some == accidental_symbol(c) is Some,
        res is Some ==> accidental_symbol(c) == Some(res.unwrap() as int),
{
    if c == 'n' || c == '\u{266e}' {
        Some(0)
    } else if c == '#' || c == '\u{266f}' {
        Some(1)
    } else if c == 'b' || c == '\u{266d}' {
        Some(-1)
    } else if c == '+' || c == '\u{1d12a}' {
        Some(2)
    } else if c == '&' || c == '\u{1d12b}' {
        Some(-2)
    } else {
        None
    }
}

/// Whether the characters from `from` to `to` all are `c`.
fn run_of(chars: &Vec<char>, from: usize, to: usize, c: char) -> (res: bool)
    requires
        from <= to <= chars.len(),
    ensures
        res == all_are(chars@.subrange(from as int, to as int), c),
{
    let mut i: usize = from;
    while i < to
        invariant
            from <= i <= to <= chars.len(),
            all_are(chars@.subrange(from as int, i as int), c),
        decreases to - i,
    {
        if chars[i] != c {
            assert(chars@.subrange(from as int, to as int)[i - from] != c);
            return false;
        }
        assert forall|j: int| 0 <= j < i + 1 - from implies #[trigger] chars@.subrange(
            from as int,
            i + 1,
        )[j] == c by {
            if j < i - from {
                assert(chars@.subrange(from as int, i as int)[j] == c);
            }
        }
        i += 1;
    }
    true
}

/// Beyond this many half steps an accidental is only known to be too
/// large: no pitch of sixteen bits has one of that size.
pub(crate) const WIDE: u32 = 1_000_000;

/// Reads the characters of `s` from `from` to `to` as an accidental of any
/// size, and gives its half steps, or the nearer of `-WIDE` and `WIDE`
/// where they lie beyond.
pub(crate) fn accidental_in(s: &str, chars: &Vec<char>, from: usize, to: usize) -> (res: Result<
    i32,
    ParsePitchError,
>)
    requires
        chars@ == s@,
        from <= to <= chars.len(),
    ensures
        match accidental_of_text(chars@.subrange(from as int, to as int)) {
            Ok(shift) => res matches Ok(v) && v == capped(shift, WIDE as int),
            Err(fault) => res matches Err(e) && e@ == fault,
        },
{
    let ghost text = chars@.subrange(from as int, to as int);
    if from == to {
        return Ok(0);
    }
    assert(text[0] == chars@[from as int]);
    if to - from == 1 {
        match symbol_value(chars[from]) {
            Some(shift) => {
                return Ok(shift as i32);
            },
            None => {},
        }
    }
    if chars[from] == '(' {
        let ghost rest = text.skip(1);
        assert(rest =~= chars@.subrange(from + 1, to as int));
        if to - from >= 2 && chars[to - 1] == ')' {
            assert(rest.last() == chars@[to - 1]);
            let ghost inner = rest.drop_last();
            assert(inner =~= chars@.subrange(from + 1, to - 1));
            if to - from == 2 {
                return Err(ParsePitchError::InvalidAccidental(substring(s, from + 1, to - 1)));
            }
            assert(inner.last() == chars@[to - 2]);
            assert(inner.drop_last() =~= chars@.subrange(from + 1, to - 2));
            match parse_capped(chars, from + 1, to - 2, WIDE) {
                Some(n) => {
                    if chars[to - 2] == '#' {
                        return Ok(n as i32);
                    } else if chars[to - 2] == 'b' {
                        return Ok(-(n as i32));
                    } else {
                        return Err(
                            ParsePitchError::InvalidAccidental(substring(s, from + 1, to - 1)),
                        );
                    }
                },
                None => {
                    return Err(ParsePitchError::InvalidAccidental(substring(s, from + 1, to - 1)));
                },
            }
        } else {
            if to - from >= 2 {
                assert(rest.last() == chars@[to - 1]);
            }
            return Err(ParsePitchError::InvalidAccidental(substring(s, from + 1, to)));
        }
    }
    let count: i32 = if to - from > WIDE as usize {
        WIDE as i32
    } else {
        (to - from) as i32
    };
    if run_of(chars, from, to, '#') {
        return Ok(count);
    }
    if run_of(chars, from, to, 'b') {
        assert(!all_are(text, '#')) by {
            if all_are(text, '#') {
                assert(text[0] == '#');
                assert(text[0] == 'b');
            }
        }
        return Ok(-count);
    }
    Err(ParsePitchError::InvalidAccidental(substring(s, from, to)))
}

impl Accidental {
    /// Reads an accidental.
    ///
    /// Flats are read from `b`, sharps from `#`, naturals from the empty
    /// text and from `n`; `+` and `&` stand for the double sharp and the
    /// double flat. The Unicode signs for these five are read too. More
    /// sharps or flats are written by repeating `#` or `b`, or as a number
    /// before `#` or `b` in parentheses: `(3#)` is `###`. An accidental of
    /// more half steps than sixteen bits hold is invalid.
    pub fn from_str(s: &str) -> (res: Result<Accidental, ParsePitchError>)
        ensures
            match short_accidental_of_text(s@) {
                Ok(shift) => res matches Ok(a) && a@ == shift,
                Err(fault) => res matches Err(e) && e@ == fault,
            },
    {
        let chars = chars_of(s);
        let n = chars.len();
        assert(chars@.subrange(0, n as int) =~= s@);
        assert(s@.subrange(0, n as int) =~= s@);
        match accidental_in(s, &chars, 0, n) {
            Ok(shift) => if -32768 <= shift && shift <= 32767 {
                Ok(Accidental(shift as i16))
            } else {
                Err(ParsePitchError::InvalidAccidental(substring(s, 0, n)))
            },
            Err(e) => Err(e),
        }
    }
}

impl PitchName {
    /// Reads a pitch name: a single upper-case letter from A to G.
    pub fn from_str(s: &str) -> (res: Result<PitchName, ParsePitchError>)
        ensures
            match pitch_name_of_text(s@) {
                Ok(name) => res == Ok::<PitchName, ParsePitchError>(name),
                Err(fault) => res matches Err(e) && e@ == fault,
            },
    {
        let chars = chars_of(s);
        if chars.len() == 1 {
            match PitchName::new(chars[0]) {
                Some(name) => {
                    return Ok(name);
                },
                None => {},
            }
        }
        assert(s@.subrange(0, s@.len() as int) =~= s@);
        Err(ParsePitchError::InvalidPitchName(substring(s, 0, chars.len())))
    }
}

impl Pitch {
    /// Reads a pitch in scientific pitch notation: a letter, an accidental
    /// and an octave, as in `Eb4`, `F###5`, `C(3#)4` or `Bb-1`. Middle C is
    /// `C4`. The accidental may be of any size, as long as the pitch fits.
    pub fn from_str(s: &str) -> (res: Result<Pitch, ParsePitchError>)
        ensures
            match pitch_of_text(s@) {
                Ok(steps) => res matches Ok(p) && p@ == steps,
                Err(fault) => res matches Err(e) && e@ == fault,
            },
    {
        let chars = chars_of(s);
        let n = chars.len();
        assert(chars@.subrange(0, n as int) =~= s@);
        let k = digit_run_start(&chars, 0, n);
        if k == n {
            return Err(ParsePitchError::NoOctaveFound);
        }
        let o: usize = if k > 0 && chars[k - 1] == '-' {
            k - 1
        } else {
            k
        };
        let ghost octave_text = s@.skip(o as int);
        let ghost head = s@.take(o as int);
        assert(octave_text =~= chars@.subrange(o as int, n as int));
        assert(head =~= chars@.subrange(0, o as int));
        let octave: i16 = match parse_i16(&chars, o, n) {
            Some(octave) => octave,
            None => {
                return Err(ParsePitchError::InvalidOctave(substring(s, o, n)));
            },
        };
        if o == 0 {
            return Err(ParsePitchError::InvalidPitchName(substring(s, 0, o)));
        }
        assert(head[0] == chars@[0]);
        let name = match PitchName::new(chars[0]) {
            Some(name) => name,
            None => {
                return Err(ParsePitchError::InvalidPitchName(substring(s, 0, o)));
            },
        };
        assert(head.skip(1) =~= chars@.subrange(1, o as int));
        let accidental = match accidental_in(s, &chars, 1, o) {
            Ok(accidental) => accidental,
            Err(e) => {
                return Err(e);
            },
        };
        let note: i32 = name.to_diatonic_steps() as i32;
        let offset: i32 = name.to_chromatic_steps() as i32;
        let diatonic: i32 = (octave as i32 - 4) * 7 + note;
        let chromatic: i32 = (octave as i32 - 4) * 12 + offset + accidental;
        if -32768 <= diatonic && diatonic <= 32767 && -32768 <= chromatic && chromatic <= 32767 {
            Ok(Pitch { diatonic: diatonic as i16, chromatic: chromatic as i16 })
        } else {
            Err(ParsePitchError::InvalidOctave(substring(s, o, n)))
        }
    }
}

} // verus!
