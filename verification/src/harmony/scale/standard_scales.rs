//! The common seven-note scales.

use super::Scale;
use crate::harmony::interval::Interval;
use vstd::prelude::*;

verus! {

/// A list of seven intervals on the seven diatonic steps of one octave,
/// with the given chromatic steps.
pub open spec fn seven(c: Seq<int>) -> Seq<Interval>
    recommends
        c.len() == 7,
{
    Seq::new(7, |i: int| Interval { chromatic: c[i] as i16, diatonic: i as i16 })
}

/// A scale of seven notes on the seven diatonic steps, with the given
/// chromatic steps.
fn seven_notes(c: [i16; 7]) -> (res: Scale)
    ensures
        res@ == seven(c@.map_values(|x: i16| x as int)),
{
    let res = Scale(
        vec![
            Interval { chromatic: c[0], diatonic: 0 },
            Interval { chromatic: c[1], diatonic: 1 },
            Interval { chromatic: c[2], diatonic: 2 },
            Interval { chromatic: c[3], diatonic: 3 },
            Interval { chromatic: c[4], diatonic: 4 },
            Interval { chromatic: c[5], diatonic: 5 },
            Interval { chromatic: c[6], diatonic: 6 },
        ],
    );
    assert(res@ =~= seven(c@.map_values(|x: i16| x as int)));
    res
}

/// The common scales.
impl Scale {
    /// The major scale.
    pub fn major() -> (res: Self)
        ensures
            res@ == seven(seq![0, 2, 4, 5, 7, 9, 11]),
            res.normal(),
            res.climbs(),
    {
        let res = seven_notes([0, 2, 4, 5, 7, 9, 11]);
        assert(res@ =~= seven(seq![0, 2, 4, 5, 7, 9, 11]));
        res
    }

    /// The natural minor scale.
    pub fn minor() -> (res: Self)
        ensures
            res@ == seven(seq![0, 2, 3, 5, 7, 8, 10]),
            res.normal(),
            res.climbs(),
    {
        let res = seven_notes([0, 2, 3, 5, 7, 8, 10]);
        assert(res@ =~= seven(seq![0, 2, 3, 5, 7, 8, 10]));
        res
    }

    /// The harmonic minor scale: natural minor with a major seventh.
    pub fn harmonic_minor() -> (res: Self)
        ensures
            res@ == seven(seq![0, 2, 3, 5, 7, 8, 11]),
            res.normal(),
            res.climbs(),
    {
        let res = seven_notes([0, 2, 3, 5, 7, 8, 11]);
        assert(res@ =~= seven(seq![0, 2, 3, 5, 7, 8, 11]));
        res
    }

    /// The melodic minor scale, ascending: natural minor with a major sixth and seventh.
    pub fn melodic_minor() -> (res: Self)
        ensures
            res@ == seven(seq![0, 2, 3, 5, 7, 9, 11]),
            res.normal(),
            res.climbs(),
    {
        let res = seven_notes([0, 2, 3, 5, 7, 9, 11]);
        assert(res@ =~= seven(seq![0, 2, 3, 5, 7, 9, 11]));
        res
    }

    /// The lydian mode: major with an augmented fourth.
    pub fn lydian() -> (res: Self)
        ensures
            res@ == seven(seq![0, 2, 4, 6, 7, 9, 11]),
            res.normal(),
            res.climbs(),
    {
        let res = seven_notes([0, 2, 4, 6, 7, 9, 11]);
        assert(res@ =~= seven(seq![0, 2, 4, 6, 7, 9, 11]));
        res
    }

    /// The ionian mode, which is the major scale.
    pub fn ionian() -> (res: Self)
        ensures
            res@ == seven(seq![0, 2, 4, 5, 7, 9, 11]),
            res.normal(),
            res.climbs(),
    {
        Self::major()
    }

    /// The mixolydian mode: major with a minor seventh.
    pub fn mixolydian() -> (res: Self)
        ensures
            res@ == seven(seq![0, 2, 4, 5, 7, 9, 10]),
            res.normal(),
            res.climbs(),
    {
        let res = seven_notes([0, 2, 4, 5, 7, 9, 10]);
        assert(res@ =~= seven(seq![0, 2, 4, 5, 7, 9, 10]));
        res
    }

    /// The dorian mode: minor with a major sixth.
    pub fn dorian() -> (res: Self)
        ensures
            res@ == seven(seq![0, 2, 3, 5, 7, 9, 10]),
            res.normal(),
            res.climbs(),
    {
        let res = seven_notes([0, 2, 3, 5, 7, 9, 10]);
        assert(res@ =~= seven(seq![0, 2, 3, 5, 7, 9, 10]));
        res
    }

    /// The aeolian mode, which is the natural minor scale.
    pub fn aeolian() -> (res: Self)
        ensures
            res@ == seven(seq![0, 2, 3, 5, 7, 8, 10]),
            res.normal(),
            res.climbs(),
    {
        Self::minor()
    }

    /// The phrygian mode: minor with a minor second.
    pub fn phrygian() -> (res: Self)
        ensures
            res@ == seven(seq![0, 1, 3, 5, 7, 8, 10]),
            res.normal(),
            res.climbs(),
    {
        let res = seven_notes([0, 1, 3, 5, 7, 8, 10]);
        assert(res@ =~= seven(seq![0, 1, 3, 5, 7, 8, 10]));
        res
    }

    /// The locrian mode: phrygian with a diminished fifth.
    pub fn locrian() -> (res: Self)
        ensures
            res@ == seven(seq![0, 1, 3, 5, 6, 8, 10]),
            res.normal(),
            res.climbs(),
    {
        let res = seven_notes([0, 1, 3, 5, 6, 8, 10]);
        assert(res@ =~= seven(seq![0, 1, 3, 5, 6, 8, 10]));
        res
    }
}

} // verus!
