//! Interval classes: intervals without regard to the octave.

use super::display::interval_text;
use super::parse::{interval_of_text, IntervalFault, ParseIntervalError};
use super::Interval;
use crate::harmony::steps::{split_by_seven, Steps};
use crate::harmony::text::{chars_of, digit_run_start, digit_suffix_start, substring};
use core::ops::{Add, Neg, Sub};
use vstd::prelude::*;
use vstd::std_specs::ops::{AddSpecImpl, NegSpecImpl, SubSpecImpl};

verus! {

/// The class of an interval: the interval reduced into the first octave,
/// and moved one octave up where its half steps are negative then.
pub open spec fn class_of(x: Steps) -> Steps {
    let lowered = x.mod_octave();
    if lowered.chromatic < 0 {
        lowered.shift_octaves(1)
    } else {
        lowered
    }
}

/// Taking the class of a class changes nothing.
pub proof fn lemma_class_of_idempotent(x: Steps)
    ensures
        class_of(class_of(x)) == class_of(x),
{
    let lowered = x.mod_octave();
    crate::harmony::steps::lemma_mod_octave(x);
    if lowered.chromatic < 0 {
        vstd::arithmetic::div_mod::lemma_fundamental_div_mod_converse(
            lowered.diatonic + 7,
            7,
            1,
            lowered.diatonic,
        );
    }
}

/// An interval independent of the octave, held as the interval of its class.
#[derive(Clone, Copy, PartialEq, Eq, Structural, PartialOrd, Ord, Debug)]
pub struct IntervalClass(pub Interval);

impl View for IntervalClass {
    type V = Steps;

    open spec fn view(&self) -> Steps {
        self.0@
    }
}

impl IntervalClass {
    /// The interval class with the given step counts, where they fit.
    pub open spec fn of(steps: Steps) -> IntervalClass {
        IntervalClass(Interval::of(steps))
    }

    /// Creates the class of the interval of the given steps.
    pub fn new(diatonic_steps: i16, chromatic_steps: i16) -> (res: Self)
        requires
            class_of(
                Steps { diatonic: diatonic_steps as int, chromatic: chromatic_steps as int },
            ).fits(),
        ensures
            res@ == class_of(
                Steps { diatonic: diatonic_steps as int, chromatic: chromatic_steps as int },
            ),
    {
        Self(Interval::new(chromatic_steps, diatonic_steps)).reduce()
    }

    /// Places the class in an octave: the interval of the class, `octave`
    /// octaves higher.
    pub fn place_in_octave(&self, octave: i8) -> (res: Interval)
        requires
            self@.shift_octaves(octave as int).fits(),
        ensures
            res@ == self@.shift_octaves(octave as int),
    {
        Interval {
            chromatic: (self.0.chromatic as i32 + 12 * octave as i32) as i16,
            diatonic: (self.0.diatonic as i32 + 7 * octave as i32) as i16,
        }
    }

    /// The class of the interval that is held: that interval reduced into
    /// the first octave, and moved one octave up where its half steps are
    /// negative then.
    pub fn reduce(self) -> (res: Self)
        requires
            class_of(self@).fits(),
        ensures
            res@ == class_of(self@),
    {
        match reduced_steps(self.0.diatonic as i32, self.0.chromatic as i32) {
            (diatonic, chromatic) => Self(
                Interval { chromatic: chromatic as i16, diatonic: diatonic as i16 },
            ),
        }
    }

    /// Reads an interval class: an interval, of which the class is taken. A
    /// class whose half steps do not fit in sixteen bits has an invalid
    /// number.
    pub fn from_str(s: &str) -> (res: Result<IntervalClass, ParseIntervalError>)
        ensures
            match interval_class_of_text(s@) {
                Ok(steps) => res matches Ok(c) && c@ == steps,
                Err(fault) => res matches Err(e) && e@ == fault,
            },
    {
        let interval = match Interval::from_str(s) {
            Ok(interval) => interval,
            Err(e) => {
                return Err(e);
            },
        };
        let (diatonic, chromatic) = reduced_steps(
            interval.diatonic as i32,
            interval.chromatic as i32,
        );
        if -32768 <= chromatic && chromatic <= 32767 {
            Ok(Self(Interval { chromatic: chromatic as i16, diatonic: diatonic as i16 }))
        } else {
            let chars = chars_of(s);
            let n = chars.len();
            assert(chars@.subrange(0, n as int) =~= s@);
            let k = digit_run_start(&chars, 0, n);
            assert(s@.skip(k as int) =~= s@.subrange(k as int, n as int));
            Err(ParseIntervalError::InvalidNumber(substring(s, k, n)))
        }
    }

    /// The interval class as text: the text of its interval.
    pub fn to_string(&self) -> (res: String)
        ensures
            res@ == interval_text(self@),
    {
        self.0.to_string()
    }
}

/// What a text stands for when read as an interval class.
pub open spec fn interval_class_of_text(s: Seq<char>) -> Result<Steps, IntervalFault> {
    match interval_of_text(s) {
        Ok(steps) => if class_of(steps).fits() {
            Ok(class_of(steps))
        } else {
            Err(IntervalFault::InvalidNumber(s.skip(digit_suffix_start(s))))
        },
        Err(fault) => Err(fault),
    }
}

/// The steps of the class of the interval of the given steps.
fn reduced_steps(diatonic: i32, chromatic: i32) -> (res: (i32, i32))
    requires
        -70_000 <= diatonic <= 70_000,
        -70_000 <= chromatic <= 70_000,
    ensures
        (Steps { diatonic: res.0 as int, chromatic: res.1 as int }) == class_of(
            Steps { diatonic: diatonic as int, chromatic: chromatic as int },
        ),
        0 <= res.0 < 14,
{
    let (octave, rest) = split_by_seven(diatonic);
    let lowered: i32 = chromatic - 12 * octave;
    if lowered < 0 {
        (rest + 7, lowered + 12)
    } else {
        (rest, lowered)
    }
}

impl AddSpecImpl for IntervalClass {
    open spec fn obeys_add_spec() -> bool {
        true
    }

    open spec fn add_req(self, rhs: IntervalClass) -> bool {
        class_of(self@.plus(rhs@)).fits()
    }

    open spec fn add_spec(self, rhs: IntervalClass) -> IntervalClass {
        IntervalClass::of(class_of(self@.plus(rhs@)))
    }
}

impl Add for IntervalClass {
    type Output = IntervalClass;

    /// The class of the sum.
    fn add(self, rhs: IntervalClass) -> (res: IntervalClass)
        ensures
            res@ == class_of(self@.plus(rhs@)),
    {
        let (diatonic, chromatic) = reduced_steps(
            self.0.diatonic as i32 + rhs.0.diatonic as i32,
            self.0.chromatic as i32 + rhs.0.chromatic as i32,
        );
        IntervalClass(Interval { chromatic: chromatic as i16, diatonic: diatonic as i16 })
    }
}

impl NegSpecImpl for IntervalClass {
    open spec fn obeys_neg_spec() -> bool {
        true
    }

    open spec fn neg_req(self) -> bool {
        class_of(self@.negate()).fits()
    }

    open spec fn neg_spec(self) -> IntervalClass {
        IntervalClass::of(class_of(self@.negate()))
    }
}

impl Neg for IntervalClass {
    type Output = IntervalClass;

    /// The class of the interval in the other direction.
    fn neg(self) -> (res: IntervalClass)
        ensures
            res@ == class_of(self@.negate()),
    {
        let (diatonic, chromatic) = reduced_steps(
            -(self.0.diatonic as i32),
            -(self.0.chromatic as i32),
        );
        IntervalClass(Interval { chromatic: chromatic as i16, diatonic: diatonic as i16 })
    }
}

impl SubSpecImpl for IntervalClass {
    open spec fn obeys_sub_spec() -> bool {
        true
    }

    open spec fn sub_req(self, rhs: IntervalClass) -> bool {
        class_of(self@.minus(rhs@)).fits()
    }

    open spec fn sub_spec(self, rhs: IntervalClass) -> IntervalClass {
        IntervalClass::of(class_of(self@.minus(rhs@)))
    }
}

impl Sub for IntervalClass {
    type Output = IntervalClass;

    /// The class of the difference.
    fn sub(self, rhs: IntervalClass) -> (res: IntervalClass)
        ensures
            res@ == class_of(self@.minus(rhs@)),
    {
        let (diatonic, chromatic) = reduced_steps(
            self.0.diatonic as i32 - rhs.0.diatonic as i32,
            self.0.chromatic as i32 - rhs.0.chromatic as i32,
        );
        IntervalClass(Interval { chromatic: chromatic as i16, diatonic: diatonic as i16 })
    }
}

} // verus!
