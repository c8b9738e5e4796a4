//! Intervals and the arithmetic of intervals and pitches.

pub mod assign;
pub mod class;
pub mod display;
pub mod laws;
pub mod parse;
pub mod refs;

pub use class::IntervalClass;
pub use parse::ParseIntervalError;

use super::pitch::{ChromaticPitch, Pitch};
use super::steps::{
    has_perfect_quality, lemma_has_perfect_quality_symmetric, minor_offset,
    natural_chromatic, natural_chromatic_minor, natural_chromatic_perfect, perfect_offset, Steps,
};
use crate::div_remainder;
use core::cmp::Ordering;
use core::ops::{Add, Neg, Rem, Sub};
use vstd::prelude::*;
use vstd::std_specs::cmp::PartialOrdSpecImpl;
use vstd::std_specs::ops::{AddSpecImpl, NegSpecImpl, RemSpecImpl, SubSpecImpl};

verus! {

/// An interval: a displacement counted in chromatic steps (half steps) and
/// diatonic steps (staff positions). The diatonic count is zero-based, so a
/// major third is two diatonic and four chromatic steps.
///
/// Intervals are ordered by chromatic steps first and diatonic steps second.
#[derive(Copy, Clone, PartialEq, Eq, Structural, Ord, Debug, Hash)]
pub struct Interval {
    pub chromatic: i16,
    pub diatonic: i16,
}

impl View for Interval {
    type V = Steps;

    open spec fn view(&self) -> Steps {
        Steps { diatonic: self.diatonic as int, chromatic: self.chromatic as int }
    }
}

impl Interval {
    /// The interval with the given step counts, where they fit.
    pub open spec fn of(steps: Steps) -> Interval {
        Interval { chromatic: steps.chromatic as i16, diatonic: steps.diatonic as i16 }
    }

    /// Creates a new interval from the steps.
    pub fn new(chromatic_steps: i16, diatonic_steps: i16) -> (res: Self)
        ensures
            res.chromatic == chromatic_steps,
            res.diatonic == diatonic_steps,
    {
        Self { chromatic: chromatic_steps, diatonic: diatonic_steps }
    }

    /// Whether an interval of this many diatonic steps has a perfect form
    /// (and then no minor or major form).
    pub fn has_perfect(diatonic_steps: i16) -> (res: bool)
        ensures
            res == has_perfect_quality(diatonic_steps as int),
    {
        let (_octave, r) = div_remainder(diatonic_steps, 7);
        r == 0 || r == 3 || r == 4
    }

    /// Half steps of the minor interval of this many diatonic steps.
    pub fn to_chromatic_steps_minor(diatonic_steps: i16) -> (res: i32)
        requires
            !has_perfect_quality(diatonic_steps as int),
        ensures
            res == natural_chromatic_minor(diatonic_steps as int),
    {
        natural_steps(diatonic_steps as i32)
    }

    /// Half steps of the perfect interval of this many diatonic steps.
    pub fn to_chromatic_steps_perfect(diatonic_steps: i16) -> (res: i32)
        requires
            has_perfect_quality(diatonic_steps as int),
        ensures
            res == natural_chromatic_perfect(diatonic_steps as int),
    {
        natural_steps(diatonic_steps as i32)
    }
}

/// Family of an interval of `diatonic` steps, on a range wide enough for the
/// negation of any sixteen-bit count.
pub(crate) fn wide_has_perfect(diatonic: i32) -> (res: bool)
    requires
        -40000 <= diatonic <= 40000,
    ensures
        res == has_perfect_quality(diatonic as int),
{
    proof {
        lemma_has_perfect_quality_symmetric(diatonic as int);
    }
    let magnitude: i32 = if diatonic < 0 {
        -diatonic
    } else {
        diatonic
    };
    let r: i32 = magnitude % 7;
    r == 0 || r == 3 || r == 4
}

/// Reference half-step count of `diatonic` steps in its own family, on the
/// same wide range.
pub(crate) fn natural_steps(diatonic: i32) -> (res: i32)
    requires
        -40000 <= diatonic <= 40000,
    ensures
        res == natural_chromatic(diatonic as int),
        has_perfect_quality(diatonic as int) ==> res == natural_chromatic_perfect(diatonic as int),
        !has_perfect_quality(diatonic as int) ==> res == natural_chromatic_minor(diatonic as int),
        -70000 <= res <= 70000,
{
    proof {
        lemma_has_perfect_quality_symmetric(diatonic as int);
    }
    let magnitude: i32 = if diatonic < 0 {
        -diatonic
    } else {
        diatonic
    };
    let octaves: i32 = magnitude / 7;
    let r: i32 = magnitude % 7;
    let offset: i32 = if r == 1 {
        1
    } else if r == 2 {
        3
    } else if r == 3 {
        5
    } else if r == 4 {
        7
    } else if r == 5 {
        8
    } else if r == 6 {
        10
    } else {
        0
    };
    assert(offset == if has_perfect_quality(magnitude as int) {
        perfect_offset(r as int)
    } else {
        minor_offset(r as int)
    });
    let upward: i32 = octaves * 12 + offset;
    if diatonic < 0 {
        -upward
    } else {
        upward
    }
}

impl PartialOrd for Interval {
    fn partial_cmp(&self, other: &Self) -> (res: Option<Ordering>) {
        if self.chromatic < other.chromatic {
            Some(Ordering::Less)
        } else if self.chromatic > other.chromatic {
            Some(Ordering::Greater)
        } else if self.diatonic < other.diatonic {
            Some(Ordering::Less)
        } else if self.diatonic > other.diatonic {
            Some(Ordering::Greater)
        } else {
            Some(Ordering::Equal)
        }
    }
}

impl PartialOrdSpecImpl for Interval {
    open spec fn obeys_partial_cmp_spec() -> bool {
        true
    }

    open spec fn partial_cmp_spec(&self, other: &Self) -> Option<Ordering> {
        if self.chromatic < other.chromatic {
            Some(Ordering::Less)
        } else if self.chromatic > other.chromatic {
            Some(Ordering::Greater)
        } else if self.diatonic < other.diatonic {
            Some(Ordering::Less)
        } else if self.diatonic > other.diatonic {
            Some(Ordering::Greater)
        } else {
            Some(Ordering::Equal)
        }
    }
}

impl Interval {
    /// Compares by chromatic steps first and diatonic steps second: the
    /// canonical order of intervals.
    pub fn cmp_chromatic(&self, other: &Self) -> (res: Ordering)
        ensures
            res == Ordering::Less <==> (self.chromatic < other.chromatic || (self.chromatic
                == other.chromatic && self.diatonic < other.diatonic)),
            res == Ordering::Equal <==> *self == *other,
    {
        if self.chromatic < other.chromatic {
            Ordering::Less
        } else if self.chromatic > other.chromatic {
            Ordering::Greater
        } else if self.diatonic < other.diatonic {
            Ordering::Less
        } else if self.diatonic > other.diatonic {
            Ordering::Greater
        } else {
            Ordering::Equal
        }
    }
}

impl Default for Interval {
    fn default() -> (res: Self)
        ensures
            res@ == Steps::zero(),
    {
        Self { chromatic: 0, diatonic: 0 }
    }
}

/// The intervals of the first octave.
impl Interval {
    /// The unison.
    pub fn unison() -> (res: Self)
        ensures
            res.diatonic == 0,
            res.chromatic == 0,
    {
        Interval { diatonic: 0, chromatic: 0 }
    }

    /// The minor second.
    pub fn min_second() -> (res: Self)
        ensures
            res.diatonic == 1,
            res.chromatic == 1,
    {
        Interval { diatonic: 1, chromatic: 1 }
    }

    /// The major second.
    pub fn maj_second() -> (res: Self)
        ensures
            res.diatonic == 1,
            res.chromatic == 2,
    {
        Interval { diatonic: 1, chromatic: 2 }
    }

    /// The minor third.
    pub fn min_third() -> (res: Self)
        ensures
            res.diatonic == 2,
            res.chromatic == 3,
    {
        Interval { diatonic: 2, chromatic: 3 }
    }

    /// The major third.
    pub fn maj_third() -> (res: Self)
        ensures
            res.diatonic == 2,
            res.chromatic == 4,
    {
        Interval { diatonic: 2, chromatic: 4 }
    }

    /// The perfect fourth.
    pub fn fourth() -> (res: Self)
        ensures
            res.diatonic == 3,
            res.chromatic == 5,
    {
        Interval { diatonic: 3, chromatic: 5 }
    }

    /// The augmented fourth.
    pub fn aug_fourth() -> (res: Self)
        ensures
            res.diatonic == 3,
            res.chromatic == 6,
    {
        Interval { diatonic: 3, chromatic: 6 }
    }

    /// The diminished fifth.
    pub fn dim_fifth() -> (res: Self)
        ensures
            res.diatonic == 4,
            res.chromatic == 6,
    {
        Interval { diatonic: 4, chromatic: 6 }
    }

    /// The perfect fifth.
    pub fn fifth() -> (res: Self)
        ensures
            res.diatonic == 4,
            res.chromatic == 7,
    {
        Interval { diatonic: 4, chromatic: 7 }
    }

    /// The minor sixth.
    pub fn min_sixth() -> (res: Self)
        ensures
            res.diatonic == 5,
            res.chromatic == 8,
    {
        Interval { diatonic: 5, chromatic: 8 }
    }

    /// The major sixth.
    pub fn maj_sixth() -> (res: Self)
        ensures
            res.diatonic == 5,
            res.chromatic == 9,
    {
        Interval { diatonic: 5, chromatic: 9 }
    }

    /// The minor seventh.
    pub fn min_seventh() -> (res: Self)
        ensures
            res.diatonic == 6,
            res.chromatic == 10,
    {
        Interval { diatonic: 6, chromatic: 10 }
    }

    /// The major seventh.
    pub fn maj_seventh() -> (res: Self)
        ensures
            res.diatonic == 6,
            res.chromatic == 11,
    {
        Interval { diatonic: 6, chromatic: 11 }
    }

    /// The perfect octave.
    pub fn octave() -> (res: Self)
        ensures
            res.diatonic == 7,
            res.chromatic == 12,
    {
        Interval { diatonic: 7, chromatic: 12 }
    }
}

impl AddSpecImpl for Interval {
    open spec fn obeys_add_spec() -> bool {
        true
    }

    open spec fn add_req(self, rhs: Interval) -> bool {
        self@.plus(rhs@).fits()
    }

    open spec fn add_spec(self, rhs: Interval) -> Interval {
        Interval::of(self@.plus(rhs@))
    }
}

impl Add for Interval {
    type Output = Interval;

    /// Component-wise sum.
    fn add(self, rhs: Interval) -> (res: Interval)
        ensures
            res@ == self@.plus(rhs@),
    {
        Interval { chromatic: self.chromatic + rhs.chromatic, diatonic: self.diatonic + rhs.diatonic }
    }
}

impl NegSpecImpl for Interval {
    open spec fn obeys_neg_spec() -> bool {
        true
    }

    open spec fn neg_req(self) -> bool {
        self@.negate().fits()
    }

    open spec fn neg_spec(self) -> Interval {
        Interval::of(self@.negate())
    }
}

impl Neg for Interval {
    type Output = Interval;

    /// The same interval in the other direction.
    fn neg(self) -> (res: Interval)
        ensures
            res@ == self@.negate(),
    {
        Interval { chromatic: -self.chromatic, diatonic: -self.diatonic }
    }
}

impl SubSpecImpl for Interval {
    open spec fn obeys_sub_spec() -> bool {
        true
    }

    open spec fn sub_req(self, rhs: Interval) -> bool {
        self@.minus(rhs@).fits()
    }

    open spec fn sub_spec(self, rhs: Interval) -> Interval {
        Interval::of(self@.minus(rhs@))
    }
}

impl Sub for Interval {
    type Output = Interval;

    /// `self + (-rhs)`.
    fn sub(self, rhs: Interval) -> (res: Interval)
        ensures
            res@ == self@.minus(rhs@),
    {
        Interval { chromatic: self.chromatic - rhs.chromatic, diatonic: self.diatonic - rhs.diatonic }
    }
}

impl AddSpecImpl<Interval> for Pitch {
    open spec fn obeys_add_spec() -> bool {
        true
    }

    open spec fn add_req(self, rhs: Interval) -> bool {
        self@.plus(rhs@).fits()
    }

    open spec fn add_spec(self, rhs: Interval) -> Pitch {
        Pitch::of(self@.plus(rhs@))
    }
}

impl Add<Interval> for Pitch {
    type Output = Pitch;

    /// The pitch transposed by the interval.
    fn add(self, rhs: Interval) -> (res: Pitch)
        ensures
            res@ == self@.plus(rhs@),
    {
        Pitch { diatonic: self.diatonic + rhs.diatonic, chromatic: self.chromatic + rhs.chromatic }
    }
}

impl AddSpecImpl<Pitch> for Interval {
    open spec fn obeys_add_spec() -> bool {
        true
    }

    open spec fn add_req(self, rhs: Pitch) -> bool {
        rhs@.plus(self@).fits()
    }

    open spec fn add_spec(self, rhs: Pitch) -> Pitch {
        Pitch::of(rhs@.plus(self@))
    }
}

impl Add<Pitch> for Interval {
    type Output = Pitch;

    /// The pitch transposed by the interval.
    fn add(self, rhs: Pitch) -> (res: Pitch)
        ensures
            res@ == rhs@.plus(self@),
    {
        Pitch { diatonic: rhs.diatonic + self.diatonic, chromatic: rhs.chromatic + self.chromatic }
    }
}

impl SubSpecImpl for Pitch {
    open spec fn obeys_sub_spec() -> bool {
        true
    }

    open spec fn sub_req(self, rhs: Pitch) -> bool {
        self@.minus(rhs@).fits()
    }

    open spec fn sub_spec(self, rhs: Pitch) -> Interval {
        Interval::of(self@.minus(rhs@))
    }
}

impl Sub for Pitch {
    type Output = Interval;

    /// The interval that leads from `rhs` to `self`.
    fn sub(self, rhs: Pitch) -> (res: Interval)
        ensures
            res@ == self@.minus(rhs@),
    {
        Interval { chromatic: self.chromatic - rhs.chromatic, diatonic: self.diatonic - rhs.diatonic }
    }
}

impl SubSpecImpl<Interval> for Pitch {
    open spec fn obeys_sub_spec() -> bool {
        true
    }

    open spec fn sub_req(self, rhs: Interval) -> bool {
        self@.minus(rhs@).fits()
    }

    open spec fn sub_spec(self, rhs: Interval) -> Pitch {
        Pitch::of(self@.minus(rhs@))
    }
}

impl Sub<Interval> for Pitch {
    type Output = Pitch;

    /// The pitch transposed by the interval in the other direction.
    fn sub(self, rhs: Interval) -> (res: Pitch)
        ensures
            res@ == self@.minus(rhs@),
    {
        Pitch { diatonic: self.diatonic - rhs.diatonic, chromatic: self.chromatic - rhs.chromatic }
    }
}

/// An interval counted in half steps alone.
#[derive(Copy, Clone, Default, Debug, PartialEq, Eq, Structural)]
pub struct ChromaticInterval(pub i16);

impl View for ChromaticInterval {
    type V = int;

    open spec fn view(&self) -> int {
        self.0 as int
    }
}

impl AddSpecImpl for ChromaticInterval {
    open spec fn obeys_add_spec() -> bool {
        true
    }

    open spec fn add_req(self, rhs: ChromaticInterval) -> bool {
        i16::MIN <= self.0 + rhs.0 <= i16::MAX
    }

    open spec fn add_spec(self, rhs: ChromaticInterval) -> ChromaticInterval {
        ChromaticInterval((self.0 + rhs.0) as i16)
    }
}

impl Add for ChromaticInterval {
    type Output = ChromaticInterval;

    fn add(self, rhs: ChromaticInterval) -> (res: ChromaticInterval)
        ensures
            res@ == self@ + rhs@,
    {
        ChromaticInterval(self.0 + rhs.0)
    }
}

impl NegSpecImpl for ChromaticInterval {
    open spec fn obeys_neg_spec() -> bool {
        true
    }

    open spec fn neg_req(self) -> bool {
        self.0 != i16::MIN
    }

    open spec fn neg_spec(self) -> ChromaticInterval {
        ChromaticInterval((-self.0) as i16)
    }
}

impl Neg for ChromaticInterval {
    type Output = ChromaticInterval;

    fn neg(self) -> (res: ChromaticInterval)
        ensures
            res@ == -self@,
    {
        ChromaticInterval(-self.0)
    }
}

impl SubSpecImpl for ChromaticInterval {
    open spec fn obeys_sub_spec() -> bool {
        true
    }

    open spec fn sub_req(self, rhs: ChromaticInterval) -> bool {
        i16::MIN <= self.0 - rhs.0 <= i16::MAX
    }

    open spec fn sub_spec(self, rhs: ChromaticInterval) -> ChromaticInterval {
        ChromaticInterval((self.0 - rhs.0) as i16)
    }
}

impl Sub for ChromaticInterval {
    type Output = ChromaticInterval;

    fn sub(self, rhs: ChromaticInterval) -> (res: ChromaticInterval)
        ensures
            res@ == self@ - rhs@,
    {
        ChromaticInterval(self.0 - rhs.0)
    }
}

impl AddSpecImpl<ChromaticInterval> for ChromaticPitch {
    open spec fn obeys_add_spec() -> bool {
        true
    }

    open spec fn add_req(self, rhs: ChromaticInterval) -> bool {
        i16::MIN <= self.0 + rhs.0 <= i16::MAX
    }

    open spec fn add_spec(self, rhs: ChromaticInterval) -> ChromaticPitch {
        ChromaticPitch((self.0 + rhs.0) as i16)
    }
}

impl Add<ChromaticInterval> for ChromaticPitch {
    type Output = ChromaticPitch;

    fn add(self, rhs: ChromaticInterval) -> (res: ChromaticPitch)
        ensures
            res@ == self@ + rhs@,
    {
        ChromaticPitch(self.0 + rhs.0)
    }
}

impl AddSpecImpl<ChromaticPitch> for ChromaticInterval {
    open spec fn obeys_add_spec() -> bool {
        true
    }

    open spec fn add_req(self, rhs: ChromaticPitch) -> bool {
        i16::MIN <= rhs.0 + self.0 <= i16::MAX
    }

    open spec fn add_spec(self, rhs: ChromaticPitch) -> ChromaticPitch {
        ChromaticPitch((rhs.0 + self.0) as i16)
    }
}

impl Add<ChromaticPitch> for ChromaticInterval {
    type Output = ChromaticPitch;

    fn add(self, rhs: ChromaticPitch) -> (res: ChromaticPitch)
        ensures
            res@ == rhs@ + self@,
    {
        ChromaticPitch(rhs.0 + self.0)
    }
}

impl SubSpecImpl for ChromaticPitch {
    open spec fn obeys_sub_spec() -> bool {
        true
    }

    open spec fn sub_req(self, rhs: ChromaticPitch) -> bool {
        i16::MIN <= self.0 - rhs.0 <= i16::MAX
    }

    open spec fn sub_spec(self, rhs: ChromaticPitch) -> ChromaticInterval {
        ChromaticInterval((self.0 - rhs.0) as i16)
    }
}

impl Sub for ChromaticPitch {
    type Output = ChromaticInterval;

    fn sub(self, rhs: ChromaticPitch) -> (res: ChromaticInterval)
        ensures
            res@ == self@ - rhs@,
    {
        ChromaticInterval(self.0 - rhs.0)
    }
}

impl SubSpecImpl<ChromaticInterval> for ChromaticPitch {
    open spec fn obeys_sub_spec() -> bool {
        true
    }

    open spec fn sub_req(self, rhs: ChromaticInterval) -> bool {
        i16::MIN <= self.0 - rhs.0 <= i16::MAX
    }

    open spec fn sub_spec(self, rhs: ChromaticInterval) -> ChromaticPitch {
        ChromaticPitch((self.0 - rhs.0) as i16)
    }
}

impl Sub<ChromaticInterval> for ChromaticPitch {
    type Output = ChromaticPitch;

    fn sub(self, rhs: ChromaticInterval) -> (res: ChromaticPitch)
        ensures
            res@ == self@ - rhs@,
    {
        ChromaticPitch(self.0 - rhs.0)
    }
}

/// The octave as a modulus: `x % Octave` brings the diatonic steps of a
/// pitch or an interval into `0..7`. For a pitch that is the same letter
/// and accidental in the fourth octave.
#[derive(Debug, Clone, Copy, Default)]
pub struct Octave;

/// The chromatic octave as a modulus: `x % ChromaticOctave` brings the
/// chromatic steps into `0..12`.
#[derive(Debug, Clone, Copy, Default)]
pub struct ChromaticOctave;

/// Both reductions of a pair of counters, computed without overflow.
fn reduce_octave(diatonic: i16, chromatic: i16) -> (res: (i32, i32))
    ensures
        res.0 == diatonic as int % 7,
        res.1 == chromatic as int - 12 * (diatonic as int / 7),
{
    let (octave, rest) = div_remainder(diatonic, 7);
    proof {
        crate::lemma_floor_quotient_bounds(diatonic as int, 7);
    }
    (rest as i32, chromatic as i32 - (octave as i32) * 12)
}

fn reduce_chromatic_octave(diatonic: i16, chromatic: i16) -> (res: (i32, i32))
    ensures
        res.0 == diatonic as int - 7 * (chromatic as int / 12),
        res.1 == chromatic as int % 12,
{
    let (octave, rest) = div_remainder(chromatic, 12);
    proof {
        crate::lemma_floor_quotient_bounds(chromatic as int, 12);
    }
    (diatonic as i32 - (octave as i32) * 7, rest as i32)
}

impl RemSpecImpl<Octave> for Interval {
    open spec fn obeys_rem_spec() -> bool {
        true
    }

    open spec fn rem_req(self, rhs: Octave) -> bool {
        self@.mod_octave().fits()
    }

    open spec fn rem_spec(self, rhs: Octave) -> Interval {
        Interval::of(self@.mod_octave())
    }
}

impl Rem<Octave> for Interval {
    type Output = Interval;

    /// The interval reduced into the first octave.
    fn rem(self, _rhs: Octave) -> (res: Interval)
        ensures
            res@ == self@.mod_octave(),
            0 <= res.diatonic < 7,
    {
        let (diatonic, chromatic) = reduce_octave(self.diatonic, self.chromatic);
        Interval { chromatic: chromatic as i16, diatonic: diatonic as i16 }
    }
}

impl RemSpecImpl<Octave> for Pitch {
    open spec fn obeys_rem_spec() -> bool {
        true
    }

    open spec fn rem_req(self, rhs: Octave) -> bool {
        self@.mod_octave().fits()
    }

    open spec fn rem_spec(self, rhs: Octave) -> Pitch {
        Pitch::of(self@.mod_octave())
    }
}

impl Rem<Octave> for Pitch {
    type Output = Pitch;

    /// The pitch of the same name in the fourth octave.
    fn rem(self, _rhs: Octave) -> (res: Pitch)
        ensures
            res@ == self@.mod_octave(),
            0 <= res.diatonic < 7,
    {
        let (diatonic, chromatic) = reduce_octave(self.diatonic, self.chromatic);
        Pitch { diatonic: diatonic as i16, chromatic: chromatic as i16 }
    }
}

impl RemSpecImpl<ChromaticOctave> for Interval {
    open spec fn obeys_rem_spec() -> bool {
        true
    }

    open spec fn rem_req(self, rhs: ChromaticOctave) -> bool {
        self@.mod_chromatic_octave().fits()
    }

    open spec fn rem_spec(self, rhs: ChromaticOctave) -> Interval {
        Interval::of(self@.mod_chromatic_octave())
    }
}

impl Rem<ChromaticOctave> for Interval {
    type Output = Interval;

    fn rem(self, _rhs: ChromaticOctave) -> (res: Interval)
        ensures
            res@ == self@.mod_chromatic_octave(),
            0 <= res.chromatic < 12,
    {
        let (diatonic, chromatic) = reduce_chromatic_octave(self.diatonic, self.chromatic);
        Interval { chromatic: chromatic as i16, diatonic: diatonic as i16 }
    }
}

impl RemSpecImpl<ChromaticOctave> for Pitch {
    open spec fn obeys_rem_spec() -> bool {
        true
    }

    open spec fn rem_req(self, rhs: ChromaticOctave) -> bool {
        self@.mod_chromatic_octave().fits()
    }

    open spec fn rem_spec(self, rhs: ChromaticOctave) -> Pitch {
        Pitch::of(self@.mod_chromatic_octave())
    }
}

impl Rem<ChromaticOctave> for Pitch {
    type Output = Pitch;

    fn rem(self, _rhs: ChromaticOctave) -> (res: Pitch)
        ensures
            res@ == self@.mod_chromatic_octave(),
            0 <= res.chromatic < 12,
    {
        let (diatonic, chromatic) = reduce_chromatic_octave(self.diatonic, self.chromatic);
        Pitch { diatonic: diatonic as i16, chromatic: chromatic as i16 }
    }
}

impl RemSpecImpl<ChromaticOctave> for ChromaticPitch {
    open spec fn obeys_rem_spec() -> bool {
        true
    }

    open spec fn rem_req(self, rhs: ChromaticOctave) -> bool {
        true
    }

    open spec fn rem_spec(self, rhs: ChromaticOctave) -> ChromaticPitch {
        ChromaticPitch((self.0 as int % 12) as i16)
    }
}

impl Rem<ChromaticOctave> for ChromaticPitch {
    type Output = ChromaticPitch;

    fn rem(self, _rhs: ChromaticOctave) -> (res: ChromaticPitch)
        ensures
            res@ == self@ % 12,
    {
        let (_octave, chromatic) = div_remainder(self.0, 12);
        ChromaticPitch(chromatic)
    }
}

impl RemSpecImpl<ChromaticOctave> for ChromaticInterval {
    open spec fn obeys_rem_spec() -> bool {
        true
    }

    open spec fn rem_req(self, rhs: ChromaticOctave) -> bool {
        true
    }

    open spec fn rem_spec(self, rhs: ChromaticOctave) -> ChromaticInterval {
        ChromaticInterval((self.0 as int % 12) as i16)
    }
}

impl Rem<ChromaticOctave> for ChromaticInterval {
    type Output = ChromaticInterval;

    fn rem(self, _rhs: ChromaticOctave) -> (res: ChromaticInterval)
        ensures
            res@ == self@ % 12,
    {
        let (_octave, chromatic) = div_remainder(self.0, 12);
        ChromaticInterval(chromatic)
    }
}

} // verus!
