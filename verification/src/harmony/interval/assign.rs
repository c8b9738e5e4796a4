//! The assigning forms of the operators: `a += b` is `a = a + b`, and the
//! same for `-=` and `%=`.

use super::{ChromaticInterval, ChromaticOctave, Interval, Octave};
use crate::harmony::pitch::{ChromaticPitch, Pitch};
use core::ops::{AddAssign, RemAssign, SubAssign};
use vstd::prelude::*;

verus! {

impl AddAssign<Interval> for Interval {
    fn add_assign(&mut self, rhs: Interval)
        requires
            old(self)@.plus(rhs@).fits(),
        ensures
            final(self)@ == old(self)@.plus(rhs@),
    {
        *self = *self + rhs;
    }
}

impl SubAssign<Interval> for Interval {
    fn sub_assign(&mut self, rhs: Interval)
        requires
            old(self)@.minus(rhs@).fits(),
        ensures
            final(self)@ == old(self)@.minus(rhs@),
    {
        *self = *self - rhs;
    }
}

impl AddAssign<Interval> for Pitch {
    fn add_assign(&mut self, rhs: Interval)
        requires
            old(self)@.plus(rhs@).fits(),
        ensures
            final(self)@ == old(self)@.plus(rhs@),
    {
        *self = *self + rhs;
    }
}

impl SubAssign<Interval> for Pitch {
    fn sub_assign(&mut self, rhs: Interval)
        requires
            old(self)@.minus(rhs@).fits(),
        ensures
            final(self)@ == old(self)@.minus(rhs@),
    {
        *self = *self - rhs;
    }
}

impl AddAssign<ChromaticInterval> for ChromaticInterval {
    fn add_assign(&mut self, rhs: ChromaticInterval)
        requires
            i16::MIN <= old(self)@ + rhs@ <= i16::MAX,
        ensures
            final(self)@ == old(self)@ + rhs@,
    {
        *self = *self + rhs;
    }
}

impl SubAssign<ChromaticInterval> for ChromaticInterval {
    fn sub_assign(&mut self, rhs: ChromaticInterval)
        requires
            i16::MIN <= old(self)@ - rhs@ <= i16::MAX,
        ensures
            final(self)@ == old(self)@ - rhs@,
    {
        *self = *self - rhs;
    }
}

impl AddAssign<ChromaticInterval> for ChromaticPitch {
    fn add_assign(&mut self, rhs: ChromaticInterval)
        requires
            i16::MIN <= old(self)@ + rhs@ <= i16::MAX,
        ensures
            final(self)@ == old(self)@ + rhs@,
    {
        *self = *self + rhs;
    }
}

impl SubAssign<ChromaticInterval> for ChromaticPitch {
    fn sub_assign(&mut self, rhs: ChromaticInterval)
        requires
            i16::MIN <= old(self)@ - rhs@ <= i16::MAX,
        ensures
            final(self)@ == old(self)@ - rhs@,
    {
        *self = *self - rhs;
    }
}

impl RemAssign<Octave> for Pitch {
    fn rem_assign(&mut self, rhs: Octave)
        requires
            old(self)@.mod_octave().fits(),
        ensures
            final(self)@ == old(self)@.mod_octave(),
    {
        *self = *self % rhs;
    }
}

impl RemAssign<ChromaticOctave> for Pitch {
    fn rem_assign(&mut self, rhs: ChromaticOctave)
        requires
            old(self)@.mod_chromatic_octave().fits(),
        ensures
            final(self)@ == old(self)@.mod_chromatic_octave(),
    {
        *self = *self % rhs;
    }
}

impl RemAssign<Octave> for Interval {
    fn rem_assign(&mut self, rhs: Octave)
        requires
            old(self)@.mod_octave().fits(),
        ensures
            final(self)@ == old(self)@.mod_octave(),
    {
        *self = *self % rhs;
    }
}

impl RemAssign<ChromaticOctave> for Interval {
    fn rem_assign(&mut self, rhs: ChromaticOctave)
        requires
            old(self)@.mod_chromatic_octave().fits(),
        ensures
            final(self)@ == old(self)@.mod_chromatic_octave(),
    {
        *self = *self % rhs;
    }
}

impl RemAssign<ChromaticOctave> for ChromaticPitch {
    fn rem_assign(&mut self, rhs: ChromaticOctave)
        ensures
            final(self)@ == old(self)@ % 12,
    {
        *self = *self % rhs;
    }
}

impl RemAssign<ChromaticOctave> for ChromaticInterval {
    fn rem_assign(&mut self, rhs: ChromaticOctave)
        ensures
            final(self)@ == old(self)@ % 12,
    {
        *self = *self % rhs;
    }
}

} // verus!
