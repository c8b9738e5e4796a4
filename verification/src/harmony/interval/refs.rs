//! The operators on references: `&a + b`, `a + &b` and `&a + &b` are
//! `a + b`, and the same for `-`, for unary `-` and for the assigning forms.

use super::{ChromaticInterval, ChromaticOctave, Interval, Octave};
use crate::harmony::pitch::{ChromaticPitch, Pitch};
use core::ops::{Add, AddAssign, Neg, RemAssign, Sub, SubAssign};
use vstd::prelude::*;
use vstd::std_specs::ops::{AddSpecImpl, NegSpecImpl, SubSpecImpl};

verus! {

impl<'a> NegSpecImpl for &'a Interval {
    open spec fn obeys_neg_spec() -> bool {
        true
    }

    open spec fn neg_req(self) -> bool {
        self@.negate().fits()
    }

    open spec fn neg_spec(self) -> Interval {
        Interval::of(self@.negate())
    }
}

impl<'a> Neg for &'a Interval {
    type Output = Interval;

    fn neg(self) -> (res: Interval)
        ensures
            res@ == self@.negate(),
    {
        (*self).neg()
    }
}

impl<'a> AddSpecImpl<Interval> for &'a Interval {
    open spec fn obeys_add_spec() -> bool {
        true
    }

    open spec fn add_req(self, rhs: Interval) -> bool {
        self@.plus(rhs@).fits()
    }

    open spec fn add_spec(self, rhs: Interval) -> Interval {
        Interval::of(self@.plus(rhs@))
    }
}

impl<'a> Add<Interval> for &'a Interval {
    type Output = Interval;

    fn add(self, rhs: Interval) -> (res: Interval)
        ensures
            res@ == self@.plus(rhs@),
    {
        *self + rhs
    }
}

impl<'b> AddSpecImpl<&'b Interval> for Interval {
    open spec fn obeys_add_spec() -> bool {
        true
    }

    open spec fn add_req(self, rhs: &'b Interval) -> bool {
        self@.plus(rhs@).fits()
    }

    open spec fn add_spec(self, rhs: &'b Interval) -> Interval {
        Interval::of(self@.plus(rhs@))
    }
}

impl<'b> Add<&'b Interval> for Interval {
    type Output = Interval;

    fn add(self, rhs: &'b Interval) -> (res: Interval)
        ensures
            res@ == self@.plus(rhs@),
    {
        self + *rhs
    }
}

impl<'a, 'b> AddSpecImpl<&'b Interval> for &'a Interval {
    open spec fn obeys_add_spec() -> bool {
        true
    }

    open spec fn add_req(self, rhs: &'b Interval) -> bool {
        self@.plus(rhs@).fits()
    }

    open spec fn add_spec(self, rhs: &'b Interval) -> Interval {
        Interval::of(self@.plus(rhs@))
    }
}

impl<'a, 'b> Add<&'b Interval> for &'a Interval {
    type Output = Interval;

    fn add(self, rhs: &'b Interval) -> (res: Interval)
        ensures
            res@ == self@.plus(rhs@),
    {
        *self + *rhs
    }
}

impl<'a> SubSpecImpl<Interval> for &'a Interval {
    open spec fn obeys_sub_spec() -> bool {
        true
    }

    open spec fn sub_req(self, rhs: Interval) -> bool {
        self@.minus(rhs@).fits()
    }

    open spec fn sub_spec(self, rhs: Interval) -> Interval {
        Interval::of(self@.minus(rhs@))
    }
}

impl<'a> Sub<Interval> for &'a Interval {
    type Output = Interval;

    fn sub(self, rhs: Interval) -> (res: Interval)
        ensures
            res@ == self@.minus(rhs@),
    {
        *self - rhs
    }
}

impl<'b> SubSpecImpl<&'b Interval> for Interval {
    open spec fn obeys_sub_spec() -> bool {
        true
    }

    open spec fn sub_req(self, rhs: &'b Interval) -> bool {
        self@.minus(rhs@).fits()
    }

    open spec fn sub_spec(self, rhs: &'b Interval) -> Interval {
        Interval::of(self@.minus(rhs@))
    }
}

impl<'b> Sub<&'b Interval> for Interval {
    type Output = Interval;

    fn sub(self, rhs: &'b Interval) -> (res: Interval)
        ensures
            res@ == self@.minus(rhs@),
    {
        self - *rhs
    }
}

impl<'a, 'b> SubSpecImpl<&'b Interval> for &'a Interval {
    open spec fn obeys_sub_spec() -> bool {
        true
    }

    open spec fn sub_req(self, rhs: &'b Interval) -> bool {
        self@.minus(rhs@).fits()
    }

    open spec fn sub_spec(self, rhs: &'b Interval) -> Interval {
        Interval::of(self@.minus(rhs@))
    }
}

impl<'a, 'b> Sub<&'b Interval> for &'a Interval {
    type Output = Interval;

    fn sub(self, rhs: &'b Interval) -> (res: Interval)
        ensures
            res@ == self@.minus(rhs@),
    {
        *self - *rhs
    }
}

impl<'b> AddAssign<&'b Interval> for Interval {
    fn add_assign(&mut self, rhs: &'b Interval)
        requires
            old(self)@.plus(rhs@).fits(),
        ensures
            final(self)@ == old(self)@.plus(rhs@),
    {
        *self = *self + *rhs;
    }
}

impl<'b> SubAssign<&'b Interval> for Interval {
    fn sub_assign(&mut self, rhs: &'b Interval)
        requires
            old(self)@.minus(rhs@).fits(),
        ensures
            final(self)@ == old(self)@.minus(rhs@),
    {
        *self = *self - *rhs;
    }
}

impl<'a> SubSpecImpl<Pitch> for &'a Pitch {
    open spec fn obeys_sub_spec() -> bool {
        true
    }

    open spec fn sub_req(self, rhs: Pitch) -> bool {
        self@.minus(rhs@).fits()
    }

    open spec fn sub_spec(self, rhs: Pitch) -> Interval {
        Interval::of(self@.minus(rhs@))
    }
}

impl<'a> Sub<Pitch> for &'a Pitch {
    type Output = Interval;

    fn sub(self, rhs: Pitch) -> (res: Interval)
        ensures
            res@ == self@.minus(rhs@),
    {
        *self - rhs
    }
}

impl<'b> SubSpecImpl<&'b Pitch> for Pitch {
    open spec fn obeys_sub_spec() -> bool {
        true
    }

    open spec fn sub_req(self, rhs: &'b Pitch) -> bool {
        self@.minus(rhs@).fits()
    }

    open spec fn sub_spec(self, rhs: &'b Pitch) -> Interval {
        Interval::of(self@.minus(rhs@))
    }
}

impl<'b> Sub<&'b Pitch> for Pitch {
    type Output = Interval;

    fn sub(self, rhs: &'b Pitch) -> (res: Interval)
        ensures
            res@ == self@.minus(rhs@),
    {
        self - *rhs
    }
}

impl<'a, 'b> SubSpecImpl<&'b Pitch> for &'a Pitch {
    open spec fn obeys_sub_spec() -> bool {
        true
    }

    open spec fn sub_req(self, rhs: &'b Pitch) -> bool {
        self@.minus(rhs@).fits()
    }

    open spec fn sub_spec(self, rhs: &'b Pitch) -> Interval {
        Interval::of(self@.minus(rhs@))
    }
}

impl<'a, 'b> Sub<&'b Pitch> for &'a Pitch {
    type Output = Interval;

    fn sub(self, rhs: &'b Pitch) -> (res: Interval)
        ensures
            res@ == self@.minus(rhs@),
    {
        *self - *rhs
    }
}

impl<'a> AddSpecImpl<Interval> for &'a Pitch {
    open spec fn obeys_add_spec() -> bool {
        true
    }

    open spec fn add_req(self, rhs: Interval) -> bool {
        self@.plus(rhs@).fits()
    }

    open spec fn add_spec(self, rhs: Interval) -> Pitch {
        Pitch::of(self@.plus(rhs@))
    }
}

impl<'a> Add<Interval> for &'a Pitch {
    type Output = Pitch;

    fn add(self, rhs: Interval) -> (res: Pitch)
        ensures
            res@ == self@.plus(rhs@),
    {
        *self + rhs
    }
}

impl<'b> AddSpecImpl<&'b Interval> for Pitch {
    open spec fn obeys_add_spec() -> bool {
        true
    }

    open spec fn add_req(self, rhs: &'b Interval) -> bool {
        self@.plus(rhs@).fits()
    }

    open spec fn add_spec(self, rhs: &'b Interval) -> Pitch {
        Pitch::of(self@.plus(rhs@))
    }
}

impl<'b> Add<&'b Interval> for Pitch {
    type Output = Pitch;

    fn add(self, rhs: &'b Interval) -> (res: Pitch)
        ensures
            res@ == self@.plus(rhs@),
    {
        self + *rhs
    }
}

impl<'a, 'b> AddSpecImpl<&'b Interval> for &'a Pitch {
    open spec fn obeys_add_spec() -> bool {
        true
    }

    open spec fn add_req(self, rhs: &'b Interval) -> bool {
        self@.plus(rhs@).fits()
    }

    open spec fn add_spec(self, rhs: &'b Interval) -> Pitch {
        Pitch::of(self@.plus(rhs@))
    }
}

impl<'a, 'b> Add<&'b Interval> for &'a Pitch {
    type Output = Pitch;

    fn add(self, rhs: &'b Interval) -> (res: Pitch)
        ensures
            res@ == self@.plus(rhs@),
    {
        *self + *rhs
    }
}

impl<'a> AddSpecImpl<Pitch> for &'a Interval {
    open spec fn obeys_add_spec() -> bool {
        true
    }

    open spec fn add_req(self, rhs: Pitch) -> bool {
        rhs@.plus(self@).fits()
    }

    open spec fn add_spec(self, rhs: Pitch) -> Pitch {
        Pitch::of(rhs@.plus(self@))
    }
}

impl<'a> Add<Pitch> for &'a Interval {
    type Output = Pitch;

    fn add(self, rhs: Pitch) -> (res: Pitch)
        ensures
            res@ == rhs@.plus(self@),
    {
        *self + rhs
    }
}

impl<'b> AddSpecImpl<&'b Pitch> for Interval {
    open spec fn obeys_add_spec() -> bool {
        true
    }

    open spec fn add_req(self, rhs: &'b Pitch) -> bool {
        rhs@.plus(self@).fits()
    }

    open spec fn add_spec(self, rhs: &'b Pitch) -> Pitch {
        Pitch::of(rhs@.plus(self@))
    }
}

impl<'b> Add<&'b Pitch> for Interval {
    type Output = Pitch;

    fn add(self, rhs: &'b Pitch) -> (res: Pitch)
        ensures
            res@ == rhs@.plus(self@),
    {
        self + *rhs
    }
}

impl<'a, 'b> AddSpecImpl<&'b Pitch> for &'a Interval {
    open spec fn obeys_add_spec() -> bool {
        true
    }

    open spec fn add_req(self, rhs: &'b Pitch) -> bool {
        rhs@.plus(self@).fits()
    }

    open spec fn add_spec(self, rhs: &'b Pitch) -> Pitch {
        Pitch::of(rhs@.plus(self@))
    }
}

impl<'a, 'b> Add<&'b Pitch> for &'a Interval {
    type Output = Pitch;

    fn add(self, rhs: &'b Pitch) -> (res: Pitch)
        ensures
            res@ == rhs@.plus(self@),
    {
        *self + *rhs
    }
}

impl<'a> SubSpecImpl<Interval> for &'a Pitch {
    open spec fn obeys_sub_spec() -> bool {
        true
    }

    open spec fn sub_req(self, rhs: Interval) -> bool {
        self@.minus(rhs@).fits()
    }

    open spec fn sub_spec(self, rhs: Interval) -> Pitch {
        Pitch::of(self@.minus(rhs@))
    }
}

impl<'a> Sub<Interval> for &'a Pitch {
    type Output = Pitch;

    fn sub(self, rhs: Interval) -> (res: Pitch)
        ensures
            res@ == self@.minus(rhs@),
    {
        *self - rhs
    }
}

impl<'b> SubSpecImpl<&'b Interval> for Pitch {
    open spec fn obeys_sub_spec() -> bool {
        true
    }

    open spec fn sub_req(self, rhs: &'b Interval) -> bool {
        self@.minus(rhs@).fits()
    }

    open spec fn sub_spec(self, rhs: &'b Interval) -> Pitch {
        Pitch::of(self@.minus(rhs@))
    }
}

impl<'b> Sub<&'b Interval> for Pitch {
    type Output = Pitch;

    fn sub(self, rhs: &'b Interval) -> (res: Pitch)
        ensures
            res@ == self@.minus(rhs@),
    {
        self - *rhs
    }
}

impl<'a, 'b> SubSpecImpl<&'b Interval> for &'a Pitch {
    open spec fn obeys_sub_spec() -> bool {
        true
    }

    open spec fn sub_req(self, rhs: &'b Interval) -> bool {
        self@.minus(rhs@).fits()
    }

    open spec fn sub_spec(self, rhs: &'b Interval) -> Pitch {
        Pitch::of(self@.minus(rhs@))
    }
}

impl<'a, 'b> Sub<&'b Interval> for &'a Pitch {
    type Output = Pitch;

    fn sub(self, rhs: &'b Interval) -> (res: Pitch)
        ensures
            res@ == self@.minus(rhs@),
    {
        *self - *rhs
    }
}

impl<'b> AddAssign<&'b Interval> for Pitch {
    fn add_assign(&mut self, rhs: &'b Interval)
        requires
            old(self)@.plus(rhs@).fits(),
        ensures
            final(self)@ == old(self)@.plus(rhs@),
    {
        *self = *self + *rhs;
    }
}

impl<'b> SubAssign<&'b Interval> for Pitch {
    fn sub_assign(&mut self, rhs: &'b Interval)
        requires
            old(self)@.minus(rhs@).fits(),
        ensures
            final(self)@ == old(self)@.minus(rhs@),
    {
        *self = *self - *rhs;
    }
}

impl<'a> NegSpecImpl for &'a ChromaticInterval {
    open spec fn obeys_neg_spec() -> bool {
        true
    }

    open spec fn neg_req(self) -> bool {
        self.0 != i16::MIN
    }

    open spec fn neg_spec(self) -> ChromaticInterval {
        ChromaticInterval((-self.0) as i16)
    }
}

impl<'a> Neg for &'a ChromaticInterval {
    type Output = ChromaticInterval;

    fn neg(self) -> (res: ChromaticInterval)
        ensures
            res@ == -self@,
    {
        (*self).neg()
    }
}

impl<'a> AddSpecImpl<ChromaticInterval> for &'a ChromaticInterval {
    open spec fn obeys_add_spec() -> bool {
        true
    }

    open spec fn add_req(self, rhs: ChromaticInterval) -> bool {
        i16::MIN <= self@ + rhs@ <= i16::MAX
    }

    open spec fn add_spec(self, rhs: ChromaticInterval) -> ChromaticInterval {
        ChromaticInterval((self@ + rhs@) as i16)
    }
}

impl<'a> Add<ChromaticInterval> for &'a ChromaticInterval {
    type Output = ChromaticInterval;

    fn add(self, rhs: ChromaticInterval) -> (res: ChromaticInterval)
        ensures
            res@ == self@ + rhs@,
    {
        *self + rhs
    }
}

impl<'b> AddSpecImpl<&'b ChromaticInterval> for ChromaticInterval {
    open spec fn obeys_add_spec() -> bool {
        true
    }

    open spec fn add_req(self, rhs: &'b ChromaticInterval) -> bool {
        i16::MIN <= self@ + rhs@ <= i16::MAX
    }

    open spec fn add_spec(self, rhs: &'b ChromaticInterval) -> ChromaticInterval {
        ChromaticInterval((self@ + rhs@) as i16)
    }
}

impl<'b> Add<&'b ChromaticInterval> for ChromaticInterval {
    type Output = ChromaticInterval;

    fn add(self, rhs: &'b ChromaticInterval) -> (res: ChromaticInterval)
        ensures
            res@ == self@ + rhs@,
    {
        self + *rhs
    }
}

impl<'a, 'b> AddSpecImpl<&'b ChromaticInterval> for &'a ChromaticInterval {
    open spec fn obeys_add_spec() -> bool {
        true
    }

    open spec fn add_req(self, rhs: &'b ChromaticInterval) -> bool {
        i16::MIN <= self@ + rhs@ <= i16::MAX
    }

    open spec fn add_spec(self, rhs: &'b ChromaticInterval) -> ChromaticInterval {
        ChromaticInterval((self@ + rhs@) as i16)
    }
}

impl<'a, 'b> Add<&'b ChromaticInterval> for &'a ChromaticInterval {
    type Output = ChromaticInterval;

    fn add(self, rhs: &'b ChromaticInterval) -> (res: ChromaticInterval)
        ensures
            res@ == self@ + rhs@,
    {
        *self + *rhs
    }
}

impl<'a> SubSpecImpl<ChromaticInterval> for &'a ChromaticInterval {
    open spec fn obeys_sub_spec() -> bool {
        true
    }

    open spec fn sub_req(self, rhs: ChromaticInterval) -> bool {
        i16::MIN <= self@ - rhs@ <= i16::MAX
    }

    open spec fn sub_spec(self, rhs: ChromaticInterval) -> ChromaticInterval {
        ChromaticInterval((self@ - rhs@) as i16)
    }
}

impl<'a> Sub<ChromaticInterval> for &'a ChromaticInterval {
    type Output = ChromaticInterval;

    fn sub(self, rhs: ChromaticInterval) -> (res: ChromaticInterval)
        ensures
            res@ == self@ - rhs@,
    {
        *self - rhs
    }
}

impl<'b> SubSpecImpl<&'b ChromaticInterval> for ChromaticInterval {
    open spec fn obeys_sub_spec() -> bool {
        true
    }

    open spec fn sub_req(self, rhs: &'b ChromaticInterval) -> bool {
        i16::MIN <= self@ - rhs@ <= i16::MAX
    }

    open spec fn sub_spec(self, rhs: &'b ChromaticInterval) -> ChromaticInterval {
        ChromaticInterval((self@ - rhs@) as i16)
    }
}

impl<'b> Sub<&'b ChromaticInterval> for ChromaticInterval {
    type Output = ChromaticInterval;

    fn sub(self, rhs: &'b ChromaticInterval) -> (res: ChromaticInterval)
        ensures
            res@ == self@ - rhs@,
    {
        self - *rhs
    }
}

impl<'a, 'b> SubSpecImpl<&'b ChromaticInterval> for &'a ChromaticInterval {
    open spec fn obeys_sub_spec() -> bool {
        true
    }

    open spec fn sub_req(self, rhs: &'b ChromaticInterval) -> bool {
        i16::MIN <= self@ - rhs@ <= i16::MAX
    }

    open spec fn sub_spec(self, rhs: &'b ChromaticInterval) -> ChromaticInterval {
        ChromaticInterval((self@ - rhs@) as i16)
    }
}

impl<'a, 'b> Sub<&'b ChromaticInterval> for &'a ChromaticInterval {
    type Output = ChromaticInterval;

    fn sub(self, rhs: &'b ChromaticInterval) -> (res: ChromaticInterval)
        ensures
            res@ == self@ - rhs@,
    {
        *self - *rhs
    }
}

impl<'b> AddAssign<&'b ChromaticInterval> for ChromaticInterval {
    fn add_assign(&mut self, rhs: &'b ChromaticInterval)
        requires
            i16::MIN <= old(self)@ + rhs@ <= i16::MAX,
        ensures
            final(self)@ == old(self)@ + rhs@,
    {
        *self = *self + *rhs;
    }
}

impl<'b> SubAssign<&'b ChromaticInterval> for ChromaticInterval {
    fn sub_assign(&mut self, rhs: &'b ChromaticInterval)
        requires
            i16::MIN <= old(self)@ - rhs@ <= i16::MAX,
        ensures
            final(self)@ == old(self)@ - rhs@,
    {
        *self = *self - *rhs;
    }
}

impl<'a> SubSpecImpl<ChromaticPitch> for &'a ChromaticPitch {
    open spec fn obeys_sub_spec() -> bool {
        true
    }

    open spec fn sub_req(self, rhs: ChromaticPitch) -> bool {
        i16::MIN <= self@ - rhs@ <= i16::MAX
    }

    open spec fn sub_spec(self, rhs: ChromaticPitch) -> ChromaticInterval {
        ChromaticInterval((self@ - rhs@) as i16)
    }
}

impl<'a> Sub<ChromaticPitch> for &'a ChromaticPitch {
    type Output = ChromaticInterval;

    fn sub(self, rhs: ChromaticPitch) -> (res: ChromaticInterval)
        ensures
            res@ == self@ - rhs@,
    {
        *self - rhs
    }
}

impl<'b> SubSpecImpl<&'b ChromaticPitch> for ChromaticPitch {
    open spec fn obeys_sub_spec() -> bool {
        true
    }

    open spec fn sub_req(self, rhs: &'b ChromaticPitch) -> bool {
        i16::MIN <= self@ - rhs@ <= i16::MAX
    }

    open spec fn sub_spec(self, rhs: &'b ChromaticPitch) -> ChromaticInterval {
        ChromaticInterval((self@ - rhs@) as i16)
    }
}

impl<'b> Sub<&'b ChromaticPitch> for ChromaticPitch {
    type Output = ChromaticInterval;

    fn sub(self, rhs: &'b ChromaticPitch) -> (res: ChromaticInterval)
        ensures
            res@ == self@ - rhs@,
    {
        self - *rhs
    }
}

impl<'a, 'b> SubSpecImpl<&'b ChromaticPitch> for &'a ChromaticPitch {
    open spec fn obeys_sub_spec() -> bool {
        true
    }

    open spec fn sub_req(self, rhs: &'b ChromaticPitch) -> bool {
        i16::MIN <= self@ - rhs@ <= i16::MAX
    }

    open spec fn sub_spec(self, rhs: &'b ChromaticPitch) -> ChromaticInterval {
        ChromaticInterval((self@ - rhs@) as i16)
    }
}

impl<'a, 'b> Sub<&'b ChromaticPitch> for &'a ChromaticPitch {
    type Output = ChromaticInterval;

    fn sub(self, rhs: &'b ChromaticPitch) -> (res: ChromaticInterval)
        ensures
            res@ == self@ - rhs@,
    {
        *self - *rhs
    }
}

impl<'a> AddSpecImpl<ChromaticInterval> for &'a ChromaticPitch {
    open spec fn obeys_add_spec() -> bool {
        true
    }

    open spec fn add_req(self, rhs: ChromaticInterval) -> bool {
        i16::MIN <= self@ + rhs@ <= i16::MAX
    }

    open spec fn add_spec(self, rhs: ChromaticInterval) -> ChromaticPitch {
        ChromaticPitch((self@ + rhs@) as i16)
    }
}

impl<'a> Add<ChromaticInterval> for &'a ChromaticPitch {
    type Output = ChromaticPitch;

    fn add(self, rhs: ChromaticInterval) -> (res: ChromaticPitch)
        ensures
            res@ == self@ + rhs@,
    {
        *self + rhs
    }
}

impl<'b> AddSpecImpl<&'b ChromaticInterval> for ChromaticPitch {
    open spec fn obeys_add_spec() -> bool {
        true
    }

    open spec fn add_req(self, rhs: &'b ChromaticInterval) -> bool {
        i16::MIN <= self@ + rhs@ <= i16::MAX
    }

    open spec fn add_spec(self, rhs: &'b ChromaticInterval) -> ChromaticPitch {
        ChromaticPitch((self@ + rhs@) as i16)
    }
}

impl<'b> Add<&'b ChromaticInterval> for ChromaticPitch {
    type Output = ChromaticPitch;

    fn add(self, rhs: &'b ChromaticInterval) -> (res: ChromaticPitch)
        ensures
            res@ == self@ + rhs@,
    {
        self + *rhs
    }
}

impl<'a, 'b> AddSpecImpl<&'b ChromaticInterval> for &'a ChromaticPitch {
    open spec fn obeys_add_spec() -> bool {
        true
    }

    open spec fn add_req(self, rhs: &'b ChromaticInterval) -> bool {
        i16::MIN <= self@ + rhs@ <= i16::MAX
    }

    open spec fn add_spec(self, rhs: &'b ChromaticInterval) -> ChromaticPitch {
        ChromaticPitch((self@ + rhs@) as i16)
    }
}

impl<'a, 'b> Add<&'b ChromaticInterval> for &'a ChromaticPitch {
    type Output = ChromaticPitch;

    fn add(self, rhs: &'b ChromaticInterval) -> (res: ChromaticPitch)
        ensures
            res@ == self@ + rhs@,
    {
        *self + *rhs
    }
}

impl<'a> AddSpecImpl<ChromaticPitch> for &'a ChromaticInterval {
    open spec fn obeys_add_spec() -> bool {
        true
    }

    open spec fn add_req(self, rhs: ChromaticPitch) -> bool {
        i16::MIN <= rhs@ + self@ <= i16::MAX
    }

    open spec fn add_spec(self, rhs: ChromaticPitch) -> ChromaticPitch {
        ChromaticPitch((rhs@ + self@) as i16)
    }
}

impl<'a> Add<ChromaticPitch> for &'a ChromaticInterval {
    type Output = ChromaticPitch;

    fn add(self, rhs: ChromaticPitch) -> (res: ChromaticPitch)
        ensures
            res@ == rhs@ + self@,
    {
        *self + rhs
    }
}

impl<'b> AddSpecImpl<&'b ChromaticPitch> for ChromaticInterval {
    open spec fn obeys_add_spec() -> bool {
        true
    }

    open spec fn add_req(self, rhs: &'b ChromaticPitch) -> bool {
        i16::MIN <= rhs@ + self@ <= i16::MAX
    }

    open spec fn add_spec(self, rhs: &'b ChromaticPitch) -> ChromaticPitch {
        ChromaticPitch((rhs@ + self@) as i16)
    }
}

impl<'b> Add<&'b ChromaticPitch> for ChromaticInterval {
    type Output = ChromaticPitch;

    fn add(self, rhs: &'b ChromaticPitch) -> (res: ChromaticPitch)
        ensures
            res@ == rhs@ + self@,
    {
        self + *rhs
    }
}

impl<'a, 'b> AddSpecImpl<&'b ChromaticPitch> for &'a ChromaticInterval {
    open spec fn obeys_add_spec() -> bool {
        true
    }

    open spec fn add_req(self, rhs: &'b ChromaticPitch) -> bool {
        i16::MIN <= rhs@ + self@ <= i16::MAX
    }

    open spec fn add_spec(self, rhs: &'b ChromaticPitch) -> ChromaticPitch {
        ChromaticPitch((rhs@ + self@) as i16)
    }
}

impl<'a, 'b> Add<&'b ChromaticPitch> for &'a ChromaticInterval {
    type Output = ChromaticPitch;

    fn add(self, rhs: &'b ChromaticPitch) -> (res: ChromaticPitch)
        ensures
            res@ == rhs@ + self@,
    {
        *self + *rhs
    }
}

impl<'a> SubSpecImpl<ChromaticInterval> for &'a ChromaticPitch {
    open spec fn obeys_sub_spec() -> bool {
        true
    }

    open spec fn sub_req(self, rhs: ChromaticInterval) -> bool {
        i16::MIN <= self@ - rhs@ <= i16::MAX
    }

    open spec fn sub_spec(self, rhs: ChromaticInterval) -> ChromaticPitch {
        ChromaticPitch((self@ - rhs@) as i16)
    }
}

impl<'a> Sub<ChromaticInterval> for &'a ChromaticPitch {
    type Output = ChromaticPitch;

    fn sub(self, rhs: ChromaticInterval) -> (res: ChromaticPitch)
        ensures
            res@ == self@ - rhs@,
    {
        *self - rhs
    }
}

impl<'b> SubSpecImpl<&'b ChromaticInterval> for ChromaticPitch {
    open spec fn obeys_sub_spec() -> bool {
        true
    }

    open spec fn sub_req(self, rhs: &'b ChromaticInterval) -> bool {
        i16::MIN <= self@ - rhs@ <= i16::MAX
    }

    open spec fn sub_spec(self, rhs: &'b ChromaticInterval) -> ChromaticPitch {
        ChromaticPitch((self@ - rhs@) as i16)
    }
}

impl<'b> Sub<&'b ChromaticInterval> for ChromaticPitch {
    type Output = ChromaticPitch;

    fn sub(self, rhs: &'b ChromaticInterval) -> (res: ChromaticPitch)
        ensures
            res@ == self@ - rhs@,
    {
        self - *rhs
    }
}

impl<'a, 'b> SubSpecImpl<&'b ChromaticInterval> for &'a ChromaticPitch {
    open spec fn obeys_sub_spec() -> bool {
        true
    }

    open spec fn sub_req(self, rhs: &'b ChromaticInterval) -> bool {
        i16::MIN <= self@ - rhs@ <= i16::MAX
    }

    open spec fn sub_spec(self, rhs: &'b ChromaticInterval) -> ChromaticPitch {
        ChromaticPitch((self@ - rhs@) as i16)
    }
}

impl<'a, 'b> Sub<&'b ChromaticInterval> for &'a ChromaticPitch {
    type Output = ChromaticPitch;

    fn sub(self, rhs: &'b ChromaticInterval) -> (res: ChromaticPitch)
        ensures
            res@ == self@ - rhs@,
    {
        *self - *rhs
    }
}

impl<'b> AddAssign<&'b ChromaticInterval> for ChromaticPitch {
    fn add_assign(&mut self, rhs: &'b ChromaticInterval)
        requires
            i16::MIN <= old(self)@ + rhs@ <= i16::MAX,
        ensures
            final(self)@ == old(self)@ + rhs@,
    {
        *self = *self + *rhs;
    }
}

impl<'b> SubAssign<&'b ChromaticInterval> for ChromaticPitch {
    fn sub_assign(&mut self, rhs: &'b ChromaticInterval)
        requires
            i16::MIN <= old(self)@ - rhs@ <= i16::MAX,
        ensures
            final(self)@ == old(self)@ - rhs@,
    {
        *self = *self - *rhs;
    }
}

impl<'b> RemAssign<&'b Octave> for Pitch {
    fn rem_assign(&mut self, rhs: &'b Octave)
        requires
            old(self)@.mod_octave().fits(),
        ensures
            final(self)@ == old(self)@.mod_octave(),
    {
        *self = *self % *rhs;
    }
}

impl<'b> RemAssign<&'b Octave> for Interval {
    fn rem_assign(&mut self, rhs: &'b Octave)
        requires
            old(self)@.mod_octave().fits(),
        ensures
            final(self)@ == old(self)@.mod_octave(),
    {
        *self = *self % *rhs;
    }
}

impl<'b> RemAssign<&'b ChromaticOctave> for Pitch {
    fn rem_assign(&mut self, rhs: &'b ChromaticOctave)
        requires
            old(self)@.mod_chromatic_octave().fits(),
        ensures
            final(self)@ == old(self)@.mod_chromatic_octave(),
    {
        *self = *self % *rhs;
    }
}

impl<'b> RemAssign<&'b ChromaticOctave> for Interval {
    fn rem_assign(&mut self, rhs: &'b ChromaticOctave)
        requires
            old(self)@.mod_chromatic_octave().fits(),
        ensures
            final(self)@ == old(self)@.mod_chromatic_octave(),
    {
        *self = *self % *rhs;
    }
}

impl<'b> RemAssign<&'b ChromaticOctave> for ChromaticPitch {
    fn rem_assign(&mut self, rhs: &'b ChromaticOctave)
        ensures
            final(self)@ == old(self)@ % 12,
    {
        *self = *self % *rhs;
    }
}

impl<'b> RemAssign<&'b ChromaticOctave> for ChromaticInterval {
    fn rem_assign(&mut self, rhs: &'b ChromaticOctave)
        ensures
            final(self)@ == old(self)@ % 12,
    {
        *self = *self % *rhs;
    }
}

} // verus!
