//! The glyphs of the Standard Music Font Layout for accidentals.

use super::Accidental;
use vstd::prelude::*;

verus! {

/// A glyph of the Standard Music Font Layout, as the crate `smufl` names
/// them. Nothing inside such a value is looked at here.
#[verifier::external_type_specification]
#[verifier::external_body]
pub struct ExGlyph(smufl::Glyph);

/// The accidentals for which the Standard Music Font Layout has a glyph of
/// its own: up to three flats or sharps.
#[derive(Clone, Copy, PartialEq, Eq, Structural, Debug)]
pub enum AccidentalGlyph {
    TripleFlat,
    DoubleFlat,
    Flat,
    Natural,
    Sharp,
    DoubleSharp,
    TripleSharp,
}

impl AccidentalGlyph {
    /// The glyph of an accidental of `shift` half steps, if there is one.
    pub open spec fn of_shift(shift: int) -> Option<AccidentalGlyph> {
        if shift == -3 {
            Some(AccidentalGlyph::TripleFlat)
        } else if shift == -2 {
            Some(AccidentalGlyph::DoubleFlat)
        } else if shift == -1 {
            Some(AccidentalGlyph::Flat)
        } else if shift == 0 {
            Some(AccidentalGlyph::Natural)
        } else if shift == 1 {
            Some(AccidentalGlyph::Sharp)
        } else if shift == 2 {
            Some(AccidentalGlyph::DoubleSharp)
        } else if shift == 3 {
            Some(AccidentalGlyph::TripleSharp)
        } else {
            None
        }
    }
}

/// The value of `smufl::Glyph` that stands for a glyph of an accidental.
pub uninterp spec fn smufl_glyph_of(glyph: AccidentalGlyph) -> smufl::Glyph;

/// The value of `smufl::Glyph` for a glyph of an accidental: the variant
/// `AccidentalFlat` for the flat, and so on, name for name. The contract
/// claims only that the same glyph always gives the same value.
#[verifier::external_body]
fn smufl_glyph(glyph: AccidentalGlyph) -> (res: smufl::Glyph)
    ensures
        res == smufl_glyph_of(glyph),
{
    match glyph {
        AccidentalGlyph::TripleFlat => smufl::Glyph::AccidentalTripleFlat,
        AccidentalGlyph::DoubleFlat => smufl::Glyph::AccidentalDoubleFlat,
        AccidentalGlyph::Flat => smufl::Glyph::AccidentalFlat,
        AccidentalGlyph::Natural => smufl::Glyph::AccidentalNatural,
        AccidentalGlyph::Sharp => smufl::Glyph::AccidentalSharp,
        AccidentalGlyph::DoubleSharp => smufl::Glyph::AccidentalDoubleSharp,
        AccidentalGlyph::TripleSharp => smufl::Glyph::AccidentalTripleSharp,
    }
}

impl Accidental {
    /// Which glyph of the Standard Music Font Layout shows this accidental,
    /// if one does.
    pub fn glyph(&self) -> (res: Option<AccidentalGlyph>)
        ensures
            res == AccidentalGlyph::of_shift(self@),
    {
        if self.0 == -3 {
            Some(AccidentalGlyph::TripleFlat)
        } else if self.0 == -2 {
            Some(AccidentalGlyph::DoubleFlat)
        } else if self.0 == -1 {
            Some(AccidentalGlyph::Flat)
        } else if self.0 == 0 {
            Some(AccidentalGlyph::Natural)
        } else if self.0 == 1 {
            Some(AccidentalGlyph::Sharp)
        } else if self.0 == 2 {
            Some(AccidentalGlyph::DoubleSharp)
        } else if self.0 == 3 {
            Some(AccidentalGlyph::TripleSharp)
        } else {
            None
        }
    }

    /// Returns the glyph of the crate `smufl` for this accidental, for up
    /// to three flats or sharps: the one that [`glyph`](Self::glyph) names.
    pub fn to_smufl(&self) -> (res: Option<smufl::Glyph>)
        ensures
            res == match AccidentalGlyph::of_shift(self@) {
                Some(glyph) => Some(smufl_glyph_of(glyph)),
                None => None,
            },
            res is Some <==> -3 <= self@ <= 3,
    {
        match self.glyph() {
            Some(glyph) => Some(smufl_glyph(glyph)),
            None => None,
        }
    }
}

} // verus!
