//! Types for pitches and intervals of traditional western music theory in
//! twelve-tone equal temperament.

pub mod from_str;
pub mod interval;
pub mod pitch;
pub mod scale;
pub mod steps;
pub mod text;

pub use interval::{
    ChromaticInterval, ChromaticOctave, Interval, IntervalClass, Octave, ParseIntervalError,
};
pub use pitch::{
    Accidental, ChromaticPitch, ChromaticPitchClass, ParsePitchError, Pitch, PitchClass, PitchName,
};
pub use steps::Steps;

use interval::parse::IntervalFault;
use pitch::parse::PitchFault;
use vstd::prelude::*;
use vstd::std_specs::convert::FromSpecImpl;

verus! {

/// Error which can occur during parsing.
#[derive(Debug, PartialEq, Eq)]
pub enum ParseError {
    /// An error from trying to parse a pitch.
    Pitch(ParsePitchError),
    /// An error from trying to parse an interval.
    Interval(ParseIntervalError),
}

/// What a [`ParseError`] holds.
pub enum ParseFault {
    Pitch(PitchFault),
    Interval(IntervalFault),
}

impl View for ParseError {
    type V = ParseFault;

    open spec fn view(&self) -> ParseFault {
        match self {
            ParseError::Pitch(e) => ParseFault::Pitch(e@),
            ParseError::Interval(e) => ParseFault::Interval(e@),
        }
    }
}

impl ParseError {
    /// The error as a sentence: that of the error it holds.
    pub fn to_string(&self) -> (res: String)
        ensures
            res@ == match self@ {
                ParseFault::Pitch(fault) => ParsePitchError::message(fault),
                ParseFault::Interval(fault) => ParseIntervalError::message(fault),
            },
    {
        match self {
            ParseError::Pitch(e) => e.to_string(),
            ParseError::Interval(e) => e.to_string(),
        }
    }
}

impl FromSpecImpl<ParsePitchError> for ParseError {
    open spec fn obeys_from_spec() -> bool {
        true
    }

    open spec fn from_spec(value: ParsePitchError) -> ParseError {
        ParseError::Pitch(value)
    }
}

impl From<ParsePitchError> for ParseError {
    fn from(value: ParsePitchError) -> (res: Self) {
        Self::Pitch(value)
    }
}

impl FromSpecImpl<ParseIntervalError> for ParseError {
    open spec fn obeys_from_spec() -> bool {
        true
    }

    open spec fn from_spec(value: ParseIntervalError) -> ParseError {
        ParseError::Interval(value)
    }
}

impl From<ParseIntervalError> for ParseError {
    fn from(value: ParseIntervalError) -> (res: Self) {
        Self::Interval(value)
    }
}

} // verus!
