//! Writing accidentals, pitch names and pitches as text.

use super::parse::ParsePitchError;
use super::{Accidental, Pitch, PitchName};
use crate::harmony::steps::Steps;
use crate::harmony::text::{decimal_digits, push_decimal, push_signed, signed_decimal};
use vstd::prelude::*;
use vstd::string::*;

verus! {

/// The text of an accidental of `shift` half steps: nothing for the
/// natural, `#`, `b`, `+` and `&` for one and two sharps or flats, and the
/// count before `#` or `b` in parentheses for more.
pub open spec fn accidental_text(shift: int) -> Seq<char> {
    if shift == 0 {
        Seq::empty()
    } else if shift == 1 {
        seq!['#']
    } else if shift == -1 {
        seq!['b']
    } else if shift == 2 {
        seq!['+']
    } else if shift == -2 {
        seq!['&']
    } else if shift > 0 {
        seq!['('] + decimal_digits(shift) + seq!['#', ')']
    } else {
        seq!['('] + decimal_digits(-shift) + seq!['b', ')']
    }
}

/// The text of a pitch in scientific pitch notation: its letter, its
/// accidental and its octave.
pub open spec fn pitch_text(p: Steps) -> Seq<char> {
    seq![PitchName::of_index(p.letter_index()).letter()] + accidental_text(p.accidental())
        + signed_decimal(p.octave_number())
}

/// Appends the text of an accidental of `shift` half steps.
fn push_accidental(out: &mut String, shift: i32)
    requires
        shift != i32::MIN,
    ensures
        final(out)@ == old(out)@ + accidental_text(shift as int),
{
    let ghost before = out@;
    proof {
        reveal_strlit("#");
        reveal_strlit("b");
        reveal_strlit("+");
        reveal_strlit("&");
        reveal_strlit("(");
        reveal_strlit("#)");
        reveal_strlit("b)");
    }
    if shift == 0 {
    } else if shift == 1 {
        out.append("#");
    } else if shift == -1 {
        out.append("b");
    } else if shift == 2 {
        out.append("+");
    } else if shift == -2 {
        out.append("&");
    } else if shift > 0 {
        out.append("(");
        push_decimal(out, shift as u32);
        out.append("#)");
    } else {
        out.append("(");
        push_decimal(out, (-shift) as u32);
        out.append("b)");
    }
    assert(out@ =~= before + accidental_text(shift as int));
}

/// Appends the letter of a pitch name.
fn push_name(out: &mut String, name: PitchName)
    ensures
        final(out)@ == old(out)@.push(name.letter()),
{
    let ghost before = out@;
    proof {
        reveal_strlit("A");
        reveal_strlit("B");
        reveal_strlit("C");
        reveal_strlit("D");
        reveal_strlit("E");
        reveal_strlit("F");
        reveal_strlit("G");
    }
    match name {
        PitchName::C => out.append("C"),
        PitchName::D => out.append("D"),
        PitchName::E => out.append("E"),
        PitchName::F => out.append("F"),
        PitchName::G => out.append("G"),
        PitchName::A => out.append("A"),
        PitchName::B => out.append("B"),
    }
    assert(out@ =~= before.push(name.letter()));
}

impl Accidental {
    /// The accidental as text, in the form that
    /// [`from_str`](Accidental::from_str) reads.
    pub fn to_string(&self) -> (res: String)
        ensures
            res@ == accidental_text(self@),
    {
        let mut out = String::new();
        push_accidental(&mut out, self.0 as i32);
        assert(out@ =~= accidental_text(self@));
        out
    }
}

impl PitchName {
    /// The letter as text.
    pub fn to_string(&self) -> (res: String)
        ensures
            res@ == seq![self.letter()],
    {
        let mut out = String::new();
        push_name(&mut out, *self);
        assert(out@ =~= seq![self.letter()]);
        out
    }
}

impl Pitch {
    /// The pitch in scientific pitch notation, as in `Eb4`.
    pub fn to_string(&self) -> (res: String)
        ensures
            res@ == pitch_text(self@),
    {
        let (name, accidental, octave) = self.parts();
        proof {
            crate::lemma_floor_quotient_bounds(self.diatonic as int, 7);
        }
        let mut out = String::new();
        push_name(&mut out, name);
        push_accidental(&mut out, accidental);
        push_signed(&mut out, octave as i64);
        assert(out@ =~= pitch_text(self@));
        out
    }
}

impl ParsePitchError {
    /// The message of the error.
    pub open spec fn message(fault: super::parse::PitchFault) -> Seq<char> {
        match fault {
            super::parse::PitchFault::InvalidPitchName(s) => "pitch name `"@ + s + "` is invalid"@,
            super::parse::PitchFault::InvalidAccidental(s) => "accidental `"@ + s
                + "` is invalid"@,
            super::parse::PitchFault::NoOctaveFound => "no octave in string"@,
            super::parse::PitchFault::InvalidOctave(s) => "could not parse octave `"@ + s + "`"@,
        }
    }

    /// The error as a sentence that names the offending text.
    pub fn to_string(&self) -> (res: String)
        ensures
            res@ == Self::message(self@),
    {
        match self {
            ParsePitchError::InvalidPitchName(s) => {
                let mut out = String::from_str("pitch name `");
                out.append(s.as_str());
                out.append("` is invalid");
                out
            },
            ParsePitchError::InvalidAccidental(s) => {
                let mut out = String::from_str("accidental `");
                out.append(s.as_str());
                out.append("` is invalid");
                out
            },
            ParsePitchError::NoOctaveFound => String::from_str("no octave in string"),
            ParsePitchError::InvalidOctave(s) => {
                let mut out = String::from_str("could not parse octave `");
                out.append(s.as_str());
                out.append("`");
                out
            },
        }
    }
}

} // verus!
