//! `str::parse` for the types that are read from text: each implementation
//! of `FromStr` reads as the `from_str` of its type does.

use super::interval::parse::{interval_of_text, ParseIntervalError};
use super::interval::Interval;
use super::pitch::class::{pitch_class_of_text, PitchClass};
use super::pitch::parse::{
    pitch_name_of_text, pitch_of_text, short_accidental_of_text, ParsePitchError,
};
use super::pitch::{Accidental, Pitch, PitchName};
use super::scale::parse::scale_of_text;
use super::scale::Scale;
use super::{ParseError, ParseFault};
use core::str::FromStr;
use vstd::prelude::*;

verus! {

impl FromStr for Interval {
    type Err = ParseIntervalError;

    fn from_str(s: &str) -> (res: Result<Interval, ParseIntervalError>)
        ensures
            match interval_of_text(s@) {
                Ok(steps) => res matches Ok(i) && i@ == steps,
                Err(fault) => res matches Err(e) && e@ == fault,
            },
    {
        Interval::from_str(s)
    }
}

impl FromStr for Accidental {
    type Err = ParsePitchError;

    fn from_str(s: &str) -> (res: Result<Accidental, ParsePitchError>)
        ensures
            match short_accidental_of_text(s@) {
                Ok(shift) => res matches Ok(a) && a@ == shift,
                Err(fault) => res matches Err(e) && e@ == fault,
            },
    {
        Accidental::from_str(s)
    }
}

impl FromStr for PitchName {
    type Err = ParsePitchError;

    fn from_str(s: &str) -> (res: Result<PitchName, ParsePitchError>)
        ensures
            match pitch_name_of_text(s@) {
                Ok(name) => res == Ok::<PitchName, ParsePitchError>(name),
                Err(fault) => res matches Err(e) && e@ == fault,
            },
    {
        PitchName::from_str(s)
    }
}

impl FromStr for Pitch {
    type Err = ParsePitchError;

    fn from_str(s: &str) -> (res: Result<Pitch, ParsePitchError>)
        ensures
            match pitch_of_text(s@) {
                Ok(steps) => res matches Ok(p) && p@ == steps,
                Err(fault) => res matches Err(e) && e@ == fault,
            },
    {
        Pitch::from_str(s)
    }
}

impl FromStr for PitchClass {
    type Err = ParsePitchError;

    fn from_str(s: &str) -> (res: Result<PitchClass, ParsePitchError>)
        ensures
            match pitch_class_of_text(s@) {
                Ok(class) => res matches Ok(c) && c@ == class,
                Err(fault) => res matches Err(e) && e@ == fault,
            },
    {
        PitchClass::from_str(s)
    }
}

impl FromStr for Scale {
    type Err = ParseError;

    fn from_str(s: &str) -> (res: Result<Scale, ParseError>)
        ensures
            match scale_of_text(s@) {
                Ok(intervals) => res matches Ok(scale) && scale@ == intervals,
                Err(fault) => res matches Err(e) && e@ == ParseFault::Interval(fault),
            },
    {
        Scale::from_str(s)
    }
}

} // verus!
