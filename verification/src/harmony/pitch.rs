//! Pitches, pitch names and accidentals.

pub mod class;
pub mod display;
pub mod glyph;
pub mod laws;
pub mod parse;

pub use class::{ChromaticPitchClass, PitchClass};
pub use parse::ParsePitchError;

use super::steps::{lemma_parts_of_compose, letter_offset, Steps};
use crate::div_remainder;
use core::cmp::Ordering;
use vstd::prelude::*;
use vstd::std_specs::cmp::PartialOrdSpecImpl;
use vstd::std_specs::convert::FromSpecImpl;

verus! {

/// An accidental: the number of half steps by which a pitch lies above
/// (sharps) or below (flats) the natural pitch of its letter. Any number of
/// sharps or flats can be held.
#[derive(Copy, Clone, PartialEq, Eq, Structural, PartialOrd, Ord, Hash, Debug)]
pub struct Accidental(pub i16);

impl View for Accidental {
    type V = int;

    open spec fn view(&self) -> int {
        self.0 as int
    }
}

impl Accidental {
    /// Constructs an accidental from the chromatic shift.
    pub fn new(chromatic_shift: i16) -> (res: Self)
        ensures
            res.0 == chromatic_shift,
    {
        Self(chromatic_shift)
    }

    /// The natural: no shift.
    pub fn natural() -> (res: Self)
        ensures
            res.0 == 0,
    {
        Self(0)
    }

    /// The sharp: one half step up.
    pub fn sharp() -> (res: Self)
        ensures
            res.0 == 1,
    {
        Self(1)
    }

    /// The flat: one half step down.
    pub fn flat() -> (res: Self)
        ensures
            res.0 == -1,
    {
        Self(-1)
    }

    /// The Unicode symbol of an accidental of `shift` half steps, where one
    /// exists: flat, natural, sharp, double sharp and double flat.
    pub open spec fn symbol(shift: int) -> Option<char> {
        if shift == -1 {
            Some('\u{266d}')
        } else if shift == 0 {
            Some('\u{266e}')
        } else if shift == 1 {
            Some('\u{266f}')
        } else if shift == 2 {
            Some('\u{1d12a}')
        } else if shift == -2 {
            Some('\u{1d12b}')
        } else {
            None
        }
    }

    /// Converts the accidental to its Unicode symbol, if it has one.
    ///
    /// The flat, natural and sharp signs are in the block of miscellaneous
    /// symbols, the double flat and double sharp in the block of musical
    /// symbols. Accidentals of higher order have no symbol.
    pub fn to_utf8(&self) -> (res: Option<char>)
        ensures
            res == Self::symbol(self@),
    {
        if self.0 == -1 {
            Some('\u{266d}')
        } else if self.0 == 0 {
            Some('\u{266e}')
        } else if self.0 == 1 {
            Some('\u{266f}')
        } else if self.0 == 2 {
            Some('\u{1d12a}')
        } else if self.0 == -2 {
            Some('\u{1d12b}')
        } else {
            None
        }
    }
}

impl Default for Accidental {
    fn default() -> (res: Self)
        ensures
            res.0 == 0,
    {
        Self(0)
    }
}

/// The name of a pitch: one of the seven letters, in the order in which
/// they follow each other within an octave.
#[derive(Clone, Copy, PartialEq, Eq, Structural, PartialOrd, Ord, Hash, Debug)]
pub enum PitchName {
    C,
    D,
    E,
    F,
    G,
    A,
    B,
}

impl Default for PitchName {
    fn default() -> (res: Self)
        ensures
            res == PitchName::C,
    {
        PitchName::C
    }
}

impl PitchName {
    /// Diatonic steps from C to this letter.
    pub open spec fn index(self) -> int {
        match self {
            PitchName::C => 0,
            PitchName::D => 1,
            PitchName::E => 2,
            PitchName::F => 3,
            PitchName::G => 4,
            PitchName::A => 5,
            PitchName::B => 6,
        }
    }

    /// The letter with the given index, taken modulo seven.
    pub open spec fn of_index(index: int) -> PitchName {
        let r = index % 7;
        if r == 1 {
            PitchName::D
        } else if r == 2 {
            PitchName::E
        } else if r == 3 {
            PitchName::F
        } else if r == 4 {
            PitchName::G
        } else if r == 5 {
            PitchName::A
        } else if r == 6 {
            PitchName::B
        } else {
            PitchName::C
        }
    }

    /// The upper-case letter itself.
    pub open spec fn letter(self) -> char {
        match self {
            PitchName::C => 'C',
            PitchName::D => 'D',
            PitchName::E => 'E',
            PitchName::F => 'F',
            PitchName::G => 'G',
            PitchName::A => 'A',
            PitchName::B => 'B',
        }
    }

    /// The name written as `c`, if `c` is one of the upper-case letters A
    /// to G.
    pub open spec fn of_letter(c: char) -> Option<PitchName> {
        if c == 'A' {
            Some(PitchName::A)
        } else if c == 'B' {
            Some(PitchName::B)
        } else if c == 'C' {
            Some(PitchName::C)
        } else if c == 'D' {
            Some(PitchName::D)
        } else if c == 'E' {
            Some(PitchName::E)
        } else if c == 'F' {
            Some(PitchName::F)
        } else if c == 'G' {
            Some(PitchName::G)
        } else {
            None
        }
    }

    /// Returns a `PitchName` if the given char is a valid note name.
    ///
    /// Expects an upper-case letter.
    pub fn new(c: char) -> (res: Option<Self>)
        ensures
            res == Self::of_letter(c),
    {
        if c == 'A' {
            Some(PitchName::A)
        } else if c == 'B' {
            Some(PitchName::B)
        } else if c == 'C' {
            Some(PitchName::C)
        } else if c == 'D' {
            Some(PitchName::D)
        } else if c == 'E' {
            Some(PitchName::E)
        } else if c == 'F' {
            Some(PitchName::F)
        } else if c == 'G' {
            Some(PitchName::G)
        } else {
            None
        }
    }

    /// Returns a `PitchName` if the given ASCII byte is a valid note name.
    ///
    /// Expects an upper-case letter.
    pub fn from_byte(c: u8) -> (res: Option<Self>)
        ensures
            res == Self::of_letter(c as char),
    {
        if c == 65 {
            Some(PitchName::A)
        } else if c == 66 {
            Some(PitchName::B)
        } else if c == 67 {
            Some(PitchName::C)
        } else if c == 68 {
            Some(PitchName::D)
        } else if c == 69 {
            Some(PitchName::E)
        } else if c == 70 {
            Some(PitchName::F)
        } else if c == 71 {
            Some(PitchName::G)
        } else {
            None
        }
    }

    /// The name of the pitch this many diatonic steps from C, in any
    /// octave.
    pub fn from_diatonic_steps(diatonic: i16) -> (res: Self)
        ensures
            res == Self::of_index(diatonic as int),
            res.index() == diatonic as int % 7,
    {
        let (_octave, r) = div_remainder(diatonic, 7);
        if r == 1 {
            PitchName::D
        } else if r == 2 {
            PitchName::E
        } else if r == 3 {
            PitchName::F
        } else if r == 4 {
            PitchName::G
        } else if r == 5 {
            PitchName::A
        } else if r == 6 {
            PitchName::B
        } else {
            PitchName::C
        }
    }

    /// Returns the diatonic steps from C.
    pub fn to_diatonic_steps(&self) -> (res: i16)
        ensures
            res == self.index(),
            0 <= res < 7,
    {
        match self {
            PitchName::C => 0,
            PitchName::D => 1,
            PitchName::E => 2,
            PitchName::F => 3,
            PitchName::G => 4,
            PitchName::A => 5,
            PitchName::B => 6,
        }
    }

    /// Returns the chromatic steps from C to the natural pitch.
    pub fn to_chromatic_steps(&self) -> (res: i16)
        ensures
            res == letter_offset(self.index()),
            0 <= res < 12,
    {
        match self {
            PitchName::C => 0,
            PitchName::D => 2,
            PitchName::E => 4,
            PitchName::F => 5,
            PitchName::G => 7,
            PitchName::A => 9,
            PitchName::B => 11,
        }
    }

    /// Returns the char for this pitch name.
    pub fn as_char(&self) -> (res: char)
        ensures
            res == self.letter(),
    {
        match self {
            PitchName::C => 'C',
            PitchName::D => 'D',
            PitchName::E => 'E',
            PitchName::F => 'F',
            PitchName::G => 'G',
            PitchName::A => 'A',
            PitchName::B => 'B',
        }
    }

    /// Returns the pitch name as an ASCII byte: the same letter as
    /// [`as_char`](Self::as_char).
    pub fn as_ascii_byte(&self) -> (res: u8)
        ensures
            res as char == self.letter(),
    {
        match self {
            PitchName::C => 67,
            PitchName::D => 68,
            PitchName::E => 69,
            PitchName::F => 70,
            PitchName::G => 71,
            PitchName::A => 65,
            PitchName::B => 66,
        }
    }
}

/// A pitch: its displacement from middle C (C4) in diatonic steps (staff
/// positions) and chromatic steps (half steps).
///
/// Pitches are ordered by staff position first and by chromatic steps
/// second, so `E#4` sorts below `Fb4` although it sounds higher. Where the
/// sounding order is wanted, use [`Pitch::cmp_chromatic`].
#[derive(Copy, Clone, Default, PartialEq, Eq, Structural, Ord, Debug, Hash)]
pub struct Pitch {
    pub diatonic: i16,
    pub chromatic: i16,
}

impl View for Pitch {
    type V = Steps;

    open spec fn view(&self) -> Steps {
        Steps { diatonic: self.diatonic as int, chromatic: self.chromatic as int }
    }
}

impl PartialOrd for Pitch {
    fn partial_cmp(&self, other: &Self) -> (res: Option<Ordering>) {
        if self.diatonic < other.diatonic {
            Some(Ordering::Less)
        } else if self.diatonic > other.diatonic {
            Some(Ordering::Greater)
        } else if self.chromatic < other.chromatic {
            Some(Ordering::Less)
        } else if self.chromatic > other.chromatic {
            Some(Ordering::Greater)
        } else {
            Some(Ordering::Equal)
        }
    }
}

impl PartialOrdSpecImpl for Pitch {
    open spec fn obeys_partial_cmp_spec() -> bool {
        true
    }

    open spec fn partial_cmp_spec(&self, other: &Self) -> Option<Ordering> {
        if self.diatonic < other.diatonic {
            Some(Ordering::Less)
        } else if self.diatonic > other.diatonic {
            Some(Ordering::Greater)
        } else if self.chromatic < other.chromatic {
            Some(Ordering::Less)
        } else if self.chromatic > other.chromatic {
            Some(Ordering::Greater)
        } else {
            Some(Ordering::Equal)
        }
    }
}

impl Pitch {
    /// Compares the pitches by chromatic steps first and by staff position
    /// second: the order in which they sound.
    pub fn cmp_chromatic(&self, other: &Self) -> (res: Ordering)
        ensures
            res == Ordering::Less <==> (self.chromatic < other.chromatic || (self.chromatic
                == other.chromatic && self.diatonic < other.diatonic)),
            res == Ordering::Equal <==> *self == *other,
    {
        if self.chromatic < other.chromatic {
            Ordering::Less
        } else if self.chromatic > other.chromatic {
            Ordering::Greater
        } else if self.diatonic < other.diatonic {
            Ordering::Less
        } else if self.diatonic > other.diatonic {
            Ordering::Greater
        } else {
            Ordering::Equal
        }
    }
}

impl Pitch {
    /// The pitch with the given step counts, where they fit.
    pub open spec fn of(steps: Steps) -> Pitch {
        Pitch { diatonic: steps.diatonic as i16, chromatic: steps.chromatic as i16 }
    }

    /// Whether the accidental of this pitch fits in sixteen signed bits, as
    /// it does for every pitch that is not thousands of half steps away
    /// from the natural pitch of its letter.
    pub open spec fn has_accidental(&self) -> bool {
        i16::MIN <= self@.accidental() <= i16::MAX
    }

    /// Creates a pitch from the diatonic and chromatic steps to middle C
    /// (C4).
    pub fn new(diatonic_steps: i16, chromatic_steps: i16) -> (res: Self)
        ensures
            res.diatonic == diatonic_steps,
            res.chromatic == chromatic_steps,
    {
        Self { diatonic: diatonic_steps, chromatic: chromatic_steps }
    }

    /// Name, accidental and octave of the pitch, with the accidental kept
    /// wide so that no pitch is left out.
    pub(crate) fn parts(&self) -> (res: (PitchName, i32, i16))
        ensures
            res.0 == PitchName::of_index(self.diatonic as int),
            res.0.index() == self@.letter_index(),
            res.1 == self@.accidental(),
            res.2 == self@.octave_number(),
    {
        let (octave, note) = div_remainder(self.diatonic, 7);
        proof {
            crate::lemma_floor_quotient_bounds(self.diatonic as int, 7);
            vstd::arithmetic::div_mod::lemma_small_mod(note as nat, 7);
        }
        let name = PitchName::from_diatonic_steps(note);
        let natural: i32 = (octave as i32) * 12 + name.to_chromatic_steps() as i32;
        (name, self.chromatic as i32 - natural, octave + 4)
    }

    /// Decomposes the pitch into its parts in scientific pitch notation,
    /// where middle C is the start of the fourth octave.
    pub fn decompose(&self) -> (res: (PitchName, Accidental, i16))
        requires
            self.has_accidental(),
        ensures
            res.0 == PitchName::of_index(self.diatonic as int),
            res.0.index() == self@.letter_index(),
            res.1@ == self@.accidental(),
            res.2 == self@.octave_number(),
    {
        let (name, accidental, octave) = self.parts();
        (name, Accidental(accidental as i16), octave)
    }

    /// Composes a pitch from the parts of its name in scientific pitch
    /// notation, where middle C is the start of the fourth octave.
    pub fn compose(name: PitchName, accidental: Accidental, octave: i16) -> (res: Self)
        requires
            Steps::compose(name.index(), accidental@, octave as int).fits(),
        ensures
            res@ == Steps::compose(name.index(), accidental@, octave as int),
            res@.letter_index() == name.index(),
            res@.accidental() == accidental@,
            res@.octave_number() == octave,
    {
        proof {
            lemma_parts_of_compose(name.index(), accidental@, octave as int);
        }
        let note: i32 = name.to_diatonic_steps() as i32;
        let offset: i32 = name.to_chromatic_steps() as i32;
        let diatonic: i32 = (octave as i32 - 4) * 7 + note;
        let chromatic: i32 = (octave as i32 - 4) * 12 + offset + accidental.0 as i32;
        Self { diatonic: diatonic as i16, chromatic: chromatic as i16 }
    }

    /// The pitch of the given name and accidental in the fourth octave.
    pub fn from_pitch_class(name: PitchName, accidental: Accidental) -> (res: Self)
        requires
            Steps::compose(name.index(), accidental@, 4).fits(),
        ensures
            res@ == Steps::compose(name.index(), accidental@, 4),
    {
        Self::compose(name, accidental, 4)
    }

    /// Returns the octave of the pitch.
    pub fn octave(&self) -> (res: i16)
        ensures
            res == self@.octave_number(),
    {
        let (octave, _) = div_remainder(self.diatonic, 7);
        proof {
            crate::lemma_floor_quotient_bounds(self.diatonic as int, 7);
        }
        octave + 4
    }

    /// Returns the accidental of the pitch.
    pub fn accidental(&self) -> (res: Accidental)
        requires
            self.has_accidental(),
        ensures
            res@ == self@.accidental(),
    {
        let (_name, accidental, _octave) = self.decompose();
        accidental
    }

    /// Returns the name of the pitch.
    pub fn pitch_name(&self) -> (res: PitchName)
        ensures
            res == PitchName::of_index(self.diatonic as int),
            res.index() == self@.letter_index(),
    {
        let (name, _accidental, _octave) = self.parts();
        name
    }

    /// Returns the staff position; middle C is position 0.
    pub fn staff_position(&self) -> (res: i16)
        ensures
            res == self.diatonic,
    {
        self.diatonic
    }

    /// Converts to the chromatic pitch, which forgets the staff position.
    pub fn to_chromatic(&self) -> (res: ChromaticPitch)
        ensures
            res.0 == self.chromatic,
    {
        ChromaticPitch(self.chromatic)
    }
}

impl FromSpecImpl<Pitch> for ChromaticPitch {
    open spec fn obeys_from_spec() -> bool {
        true
    }

    open spec fn from_spec(value: Pitch) -> ChromaticPitch {
        ChromaticPitch(value.chromatic)
    }
}

impl From<Pitch> for ChromaticPitch {
    fn from(value: Pitch) -> (res: Self) {
        Self(value.chromatic)
    }
}

/// A pitch counted in half steps from middle C alone.
#[derive(Copy, Clone, Default, Debug, PartialEq, Eq, Structural, PartialOrd, Ord)]
pub struct ChromaticPitch(pub i16);

impl View for ChromaticPitch {
    type V = int;

    open spec fn view(&self) -> int {
        self.0 as int
    }
}

/// The letter under which a chromatic pitch is spelled by default, by its
/// half steps above C: the white key itself, the sharp of C and F, the flat
/// of E, A and B.
pub open spec fn default_letter(class: int) -> PitchName {
    if class == 0 || class == 1 {
        PitchName::C
    } else if class == 2 {
        PitchName::D
    } else if class == 3 || class == 4 {
        PitchName::E
    } else if class == 5 || class == 6 {
        PitchName::F
    } else if class == 7 {
        PitchName::G
    } else if class == 8 || class == 9 {
        PitchName::A
    } else {
        PitchName::B
    }
}

/// The pitch of `chromatic` half steps spelled with the letter `name`, in
/// the octave that keeps it nearest to the natural pitch of that letter.
pub open spec fn spelled(chromatic: int, name: PitchName) -> Steps {
    let octave = chromatic / 12;
    let distance = chromatic % 12 - letter_offset(name.index());
    let nearest = if distance > 6 {
        octave + 1
    } else if distance < -6 {
        octave - 1
    } else {
        octave
    };
    Steps { diatonic: nearest * 7 + name.index(), chromatic: chromatic }
}

/// A spelled pitch carries the letter asked for and lies at most six half
/// steps from the natural pitch of that letter.
pub proof fn lemma_spelled_is_nearest(chromatic: int, name: PitchName)
    ensures
        spelled(chromatic, name).letter_index() == name.index(),
        -6 <= spelled(chromatic, name).accidental() <= 6,
{
    let octave = chromatic / 12;
    let distance = chromatic % 12 - letter_offset(name.index());
    let nearest = if distance > 6 {
        octave + 1
    } else if distance < -6 {
        octave - 1
    } else {
        octave
    };
    vstd::arithmetic::div_mod::lemma_fundamental_div_mod(chromatic, 12);
    vstd::arithmetic::div_mod::lemma_fundamental_div_mod_converse(
        nearest * 7 + name.index(),
        7,
        nearest,
        name.index(),
    );
}

impl ChromaticPitch {
    /// Constructs a chromatic pitch from the number of chromatic steps to
    /// middle C.
    pub fn new(steps: i16) -> (res: Self)
        ensures
            res.0 == steps,
    {
        Self(steps)
    }

    /// Returns the number of chromatic steps to C4.
    pub fn to_num(&self) -> (res: i16)
        ensures
            res == self.0,
    {
        self.0
    }

    /// Converts the chromatic pitch to a pitch, choosing the default
    /// letter for its pitch class.
    pub fn to_pitch(&self) -> (res: Pitch)
        ensures
            res@ == spelled(self@, default_letter(self@ % 12)),
    {
        let (_octave, chromatic) = div_remainder(self.0, 12);
        let name = if chromatic == 0 || chromatic == 1 {
            PitchName::C
        } else if chromatic == 2 {
            PitchName::D
        } else if chromatic == 3 || chromatic == 4 {
            PitchName::E
        } else if chromatic == 5 || chromatic == 6 {
            PitchName::F
        } else if chromatic == 7 {
            PitchName::G
        } else if chromatic == 8 || chromatic == 9 {
            PitchName::A
        } else {
            PitchName::B
        };
        self.to_pitch_named(name)
    }

    /// Converts the chromatic pitch to the pitch of the given name that
    /// sounds the same, in the octave that needs the smallest accidental:
    /// never more than six half steps.
    pub fn to_pitch_named(&self, name: PitchName) -> (res: Pitch)
        ensures
            res@ == spelled(self@, name),
            res.chromatic == self.0,
            res@.letter_index() == name.index(),
            -6 <= res@.accidental() <= 6,
    {
        proof {
            lemma_spelled_is_nearest(self@, name);
            crate::lemma_floor_quotient_bounds(self.0 as int, 12);
        }
        let (octave, chromatic) = div_remainder(self.0, 12);
        let distance: i16 = chromatic - name.to_chromatic_steps();
        let nearest: i16 = if distance > 6 {
            octave + 1
        } else if distance < -6 {
            octave - 1
        } else {
            octave
        };
        Pitch { diatonic: nearest * 7 + name.to_diatonic_steps(), chromatic: self.0 }
    }

    /// Returns the MIDI pitch if it is within the MIDI range `0..=127`.
    /// Middle C is 60.
    pub fn to_midi_pitch(&self) -> (res: Option<u8>)
        ensures
            0 <= self@ + 60 <= 127 ==> res == Some((self@ + 60) as u8),
            !(0 <= self@ + 60 <= 127) ==> res is None,
    {
        let pitch: i32 = self.0 as i32 + 60;
        if 0 <= pitch && pitch <= 127 {
            Some(pitch as u8)
        } else {
            None
        }
    }

    /// Creates a chromatic pitch from its MIDI number.
    pub fn from_midi_pitch(pitch: u8) -> (res: Self)
        ensures
            res@ == pitch as int - 60,
    {
        Self(pitch as i16 - 60)
    }
}

} // verus!
