//! Pitch classes: pitches whose octave is not given.

use super::display::accidental_text;
use super::parse::{accidental_in, accidental_of_text, ParsePitchError, PitchFault};
use super::{Accidental, ChromaticPitch, Pitch, PitchName};
use crate::div_remainder;
use crate::harmony::steps::{letter_offset, Steps};
use crate::harmony::text::{chars_of, substring};
use vstd::prelude::*;
use vstd::std_specs::convert::FromSpecImpl;
use vstd::string::*;

verus! {

/// A pitch class: a letter and an accidental without an octave, held as the
/// steps of the pitch of that name in the fourth octave.
#[derive(Copy, Clone, Default, PartialEq, Eq, Structural, Debug)]
pub struct PitchClass {
    pub diatonic: u8,
    pub chromatic: i8,
}

impl View for PitchClass {
    type V = Steps;

    open spec fn view(&self) -> Steps {
        Steps { diatonic: self.diatonic as int, chromatic: self.chromatic as int }
    }
}

/// A chromatic pitch class: a pitch counted in half steps above any C, in
/// `0..12`.
#[derive(Copy, Clone, Default, Debug, PartialEq, Eq, Structural)]
pub struct ChromaticPitchClass(pub u8);

impl View for ChromaticPitchClass {
    type V = int;

    open spec fn view(&self) -> int {
        self.0 as int
    }
}

/// What a text stands for when read as a pitch class: a letter from A to G
/// and an accidental. A class whose half steps do not fit in eight bits has
/// an invalid accidental.
pub open spec fn pitch_class_of_text(s: Seq<char>) -> Result<Steps, PitchFault> {
    if s.len() == 0 {
        Err(PitchFault::InvalidPitchName(s))
    } else {
        match PitchName::of_letter(s[0]) {
            None => Err(PitchFault::InvalidPitchName(s)),
            Some(name) => match accidental_of_text(s.skip(1)) {
                Err(fault) => Err(fault),
                Ok(shift) => {
                    let chromatic = letter_offset(name.index()) + shift;
                    if i8::MIN <= chromatic <= i8::MAX {
                        Ok(Steps { diatonic: name.index(), chromatic: chromatic })
                    } else {
                        Err(PitchFault::InvalidAccidental(s.skip(1)))
                    }
                },
            },
        }
    }
}

/// The text of a pitch class: its letter and its accidental.
pub open spec fn pitch_class_text(class: Steps) -> Seq<char> {
    seq![PitchName::of_index(class.diatonic).letter()] + accidental_text(
        class.chromatic - letter_offset(class.diatonic % 7),
    )
}

impl PitchClass {
    /// Decomposes the pitch class into its pitch name and accidental.
    pub fn decompose(&self) -> (res: (PitchName, Accidental))
        ensures
            res.0 == PitchName::of_index(self.diatonic as int),
            res.1@ == self.chromatic - letter_offset(self.diatonic as int % 7),
    {
        let name = PitchName::from_diatonic_steps(self.diatonic as i16);
        let natural = name.to_chromatic_steps();
        (name, Accidental(self.chromatic as i16 - natural))
    }

    /// Creates a pitch class from the pitch name and accidental.
    pub fn compose(name: PitchName, accidental: Accidental) -> (res: Self)
        requires
            i8::MIN <= letter_offset(name.index()) + accidental@ <= i8::MAX,
        ensures
            res.diatonic == name.index(),
            res.chromatic == letter_offset(name.index()) + accidental@,
    {
        let diatonic = name.to_diatonic_steps() as u8;
        let chromatic: i32 = name.to_chromatic_steps() as i32 + accidental.0 as i32;
        Self { diatonic, chromatic: chromatic as i8 }
    }

    /// Places the pitch class into an octave, given as in scientific pitch
    /// notation, where middle C is the start of the fourth octave.
    pub fn place_in_octave(&self, octave: i8) -> (res: Pitch)
        ensures
            res@ == self@.shift_octaves(octave - 4),
    {
        let octaves: i16 = octave as i16 - 4;
        Pitch {
            diatonic: self.diatonic as i16 + octaves * 7,
            chromatic: self.chromatic as i16 + octaves * 12,
        }
    }

    /// Converts to the chromatic pitch class.
    pub fn to_chromatic(&self) -> (res: ChromaticPitchClass)
        ensures
            res@ == self.chromatic as int % 12,
    {
        let (_octave, class) = div_remainder(self.chromatic as i16, 12);
        ChromaticPitchClass(class as u8)
    }

    /// Reads a pitch class: a letter and an accidental, as in `Eb` or
    /// `F###`.
    pub fn from_str(s: &str) -> (res: Result<PitchClass, ParsePitchError>)
        ensures
            match pitch_class_of_text(s@) {
                Ok(class) => res matches Ok(c) && c@ == class,
                Err(fault) => res matches Err(e) && e@ == fault,
            },
    {
        let chars = chars_of(s);
        let n = chars.len();
        assert(s@.subrange(0, n as int) =~= s@);
        if n == 0 {
            return Err(ParsePitchError::InvalidPitchName(substring(s, 0, n)));
        }
        let name = match PitchName::new(chars[0]) {
            Some(name) => name,
            None => {
                return Err(ParsePitchError::InvalidPitchName(substring(s, 0, n)));
            },
        };
        assert(s@.skip(1) =~= chars@.subrange(1, n as int));
        let accidental = match accidental_in(s, &chars, 1, n) {
            Ok(accidental) => accidental,
            Err(e) => {
                return Err(e);
            },
        };
        let chromatic: i32 = name.to_chromatic_steps() as i32 + accidental;
        if -128 <= chromatic && chromatic <= 127 {
            Ok(PitchClass { diatonic: name.to_diatonic_steps() as u8, chromatic: chromatic as i8 })
        } else {
            Err(ParsePitchError::InvalidAccidental(substring(s, 1, n)))
        }
    }

    /// The pitch class as text, as in `Eb`.
    pub fn to_string(&self) -> (res: String)
        ensures
            res@ == pitch_class_text(self@),
    {
        let (name, accidental) = self.decompose();
        let mut out = name.to_string();
        let rest = accidental.to_string();
        out.append(rest.as_str());
        out
    }
}

impl FromSpecImpl<PitchClass> for ChromaticPitchClass {
    open spec fn obeys_from_spec() -> bool {
        true
    }

    open spec fn from_spec(value: PitchClass) -> ChromaticPitchClass {
        ChromaticPitchClass((value.chromatic as int % 12) as u8)
    }
}

impl From<PitchClass> for ChromaticPitchClass {
    fn from(value: PitchClass) -> (res: Self) {
        value.to_chromatic()
    }
}

impl ChromaticPitchClass {
    /// Creates the chromatic pitch class of the given number of half
    /// steps, taken modulo twelve.
    pub fn new(num: u8) -> (res: Self)
        ensures
            res@ == num as int % 12,
    {
        Self(num % 12)
    }

    /// Places the class into an octave, given as in scientific pitch
    /// notation, where middle C is the start of the fourth octave.
    pub fn place_in_octave(&self, octave: i16) -> (res: ChromaticPitch)
        requires
            i16::MIN <= self@ + (octave - 4) * 12 <= i16::MAX,
        ensures
            res@ == self@ + (octave - 4) * 12,
    {
        let steps: i32 = self.0 as i32 + (octave as i32 - 4) * 12;
        ChromaticPitch(steps as i16)
    }
}

impl Pitch {
    /// Whether the pitch of the same name in the fourth octave lies within
    /// eight bits of half steps from middle C, as the class of every pitch
    /// of common accidentals does.
    pub open spec fn has_class(&self) -> bool {
        i8::MIN <= self@.mod_octave().chromatic <= i8::MAX
    }

    /// Converts to the pitch class: the pitch without its octave.
    pub fn to_class(&self) -> (res: PitchClass)
        requires
            self.has_class(),
        ensures
            res@ == self@.mod_octave(),
    {
        let (octave, note) = div_remainder(self.diatonic, 7);
        proof {
            crate::lemma_floor_quotient_bounds(self.diatonic as int, 7);
        }
        let chromatic: i32 = self.chromatic as i32 - (octave as i32) * 12;
        PitchClass { diatonic: note as u8, chromatic: chromatic as i8 }
    }

    /// Converts to the chromatic pitch class: the half steps above the C
    /// below.
    pub fn to_chromatic_class(&self) -> (res: ChromaticPitchClass)
        ensures
            res@ == self.chromatic as int % 12,
    {
        let (_octave, class) = div_remainder(self.chromatic, 12);
        ChromaticPitchClass(class as u8)
    }
}

} // verus!
