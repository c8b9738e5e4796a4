//! The mathematical model shared by pitches and intervals: a pair of
//! unbounded step counts, with the arithmetic and the quality
//! classification stated over it.

use vstd::prelude::*;

verus! {

/// The mathematical value of a pitch or an interval: unbounded diatonic and
/// chromatic step counts. Diatonic steps are zero-based: a unison is 0.
pub struct Steps {
    pub diatonic: int,
    pub chromatic: int,
}

impl Steps {
    /// The unison: no displacement at all.
    pub open spec fn zero() -> Steps {
        Steps { diatonic: 0, chromatic: 0 }
    }

    /// Component-wise sum.
    pub open spec fn plus(self, other: Steps) -> Steps {
        Steps {
            diatonic: self.diatonic + other.diatonic,
            chromatic: self.chromatic + other.chromatic,
        }
    }

    /// Component-wise negation.
    pub open spec fn negate(self) -> Steps {
        Steps { diatonic: -self.diatonic, chromatic: -self.chromatic }
    }

    /// Difference, defined as `self + (-other)`.
    pub open spec fn minus(self, other: Steps) -> Steps {
        self.plus(other.negate())
    }

    /// `self` moved by `n` octaves.
    pub open spec fn shift_octaves(self, n: int) -> Steps {
        Steps { diatonic: self.diatonic + 7 * n, chromatic: self.chromatic + 12 * n }
    }

    /// Both counters fit in sixteen signed bits.
    pub open spec fn fits(self) -> bool {
        &&& i16::MIN <= self.diatonic <= i16::MAX
        &&& i16::MIN <= self.chromatic <= i16::MAX
    }

    /// Reduction modulo the octave: the diatonic counter is brought into
    /// `0..7` and the chromatic counter follows by whole octaves.
    pub open spec fn mod_octave(self) -> Steps {
        Steps {
            diatonic: self.diatonic % 7,
            chromatic: self.chromatic - 12 * (self.diatonic / 7),
        }
    }

    /// Reduction modulo the chromatic octave: the chromatic counter is
    /// brought into `0..12` and the diatonic counter follows.
    pub open spec fn mod_chromatic_octave(self) -> Steps {
        Steps {
            diatonic: self.diatonic - 7 * (self.chromatic / 12),
            chromatic: self.chromatic % 12,
        }
    }

    /// Index of the letter of a pitch: 0 for C up to 6 for B.
    pub open spec fn letter_index(self) -> int {
        self.diatonic % 7
    }

    /// Octave of a pitch in scientific pitch notation: middle C starts the
    /// fourth octave.
    pub open spec fn octave_number(self) -> int {
        self.diatonic / 7 + 4
    }

    /// Half steps by which a pitch lies above the natural pitch of its
    /// letter in its octave.
    pub open spec fn accidental(self) -> int {
        self.chromatic - (12 * (self.diatonic / 7) + letter_offset(self.diatonic % 7))
    }

    /// The pitch with letter `letter` (0 for C up to 6 for B), the given
    /// accidental and the given octave.
    pub open spec fn compose(letter: int, accidental: int, octave: int) -> Steps {
        Steps {
            diatonic: (octave - 4) * 7 + letter,
            chromatic: (octave - 4) * 12 + letter_offset(letter) + accidental,
        }
    }

    /// The canonical order of intervals: by chromatic steps, then by
    /// diatonic steps.
    pub open spec fn chromatic_le(self, other: Steps) -> bool {
        self.chromatic < other.chromatic || (self.chromatic == other.chromatic && self.diatonic
            <= other.diatonic)
    }
}

/// Half steps from C to the natural pitch of the letter with index `r`.
pub open spec fn letter_offset(r: int) -> int {
    if r == 1 {
        2
    } else if r == 2 {
        4
    } else if r == 3 {
        5
    } else if r == 4 {
        7
    } else if r == 5 {
        9
    } else if r == 6 {
        11
    } else {
        0
    }
}

/// Whether an interval of `diatonic` steps belongs to the perfect family
/// (unison, fourth, fifth and their octaves) rather than to the minor/major
/// family (second, third, sixth, seventh).
pub open spec fn has_perfect_quality(diatonic: int) -> bool {
    let r = diatonic % 7;
    r == 0 || r == 3 || r == 4
}

/// Half steps of the perfect interval of `r` diatonic steps within one
/// octave.
pub open spec fn perfect_offset(r: int) -> int {
    if r == 3 {
        5
    } else if r == 4 {
        7
    } else {
        0
    }
}

/// Half steps of the minor interval of `r` diatonic steps within one octave.
pub open spec fn minor_offset(r: int) -> int {
    if r == 1 {
        1
    } else if r == 2 {
        3
    } else if r == 5 {
        8
    } else if r == 6 {
        10
    } else {
        0
    }
}

/// Half steps of the perfect interval of `diatonic` steps. Twelve per whole
/// octave plus the offset within the octave; a downward interval is the
/// negative of the upward one.
pub open spec fn natural_chromatic_perfect(diatonic: int) -> int
    recommends
        has_perfect_quality(diatonic),
{
    if diatonic < 0 {
        -(12 * ((-diatonic) / 7) + perfect_offset((-diatonic) % 7))
    } else {
        12 * (diatonic / 7) + perfect_offset(diatonic % 7)
    }
}

/// Half steps of the minor interval of `diatonic` steps, built like
/// [`natural_chromatic_perfect`].
pub open spec fn natural_chromatic_minor(diatonic: int) -> int
    recommends
        !has_perfect_quality(diatonic),
{
    if diatonic < 0 {
        -(12 * ((-diatonic) / 7) + minor_offset((-diatonic) % 7))
    } else {
        12 * (diatonic / 7) + minor_offset(diatonic % 7)
    }
}

/// The reference half-step count of `diatonic` steps in its own family:
/// perfect where that family applies, minor otherwise.
pub open spec fn natural_chromatic(diatonic: int) -> int {
    if has_perfect_quality(diatonic) {
        natural_chromatic_perfect(diatonic)
    } else {
        natural_chromatic_minor(diatonic)
    }
}

/// The interval qualities on one numeric scale: -2 diminished, -1 minor,
/// 0 perfect, 1 major, 2 augmented, and beyond these the multiply
/// diminished and augmented ones. `quality_shift` gives the half steps by
/// which an interval of that quality lies above the natural interval of its
/// family, or nothing where the family has no such quality: the perfect
/// family has neither minor nor major, the other family has no perfect.
pub open spec fn quality_shift(perfect: bool, quality: int) -> Option<int> {
    if perfect {
        if quality <= -2 {
            Some(quality + 1)
        } else if quality == 0 {
            Some(0)
        } else if quality >= 2 {
            Some(quality - 1)
        } else {
            None
        }
    } else {
        if quality <= -1 {
            Some(quality + 1)
        } else if quality >= 1 {
            Some(quality)
        } else {
            None
        }
    }
}

/// The quality, on the same numeric scale, of an interval that lies `shift`
/// half steps above the natural interval of its family.
pub open spec fn shift_quality(perfect: bool, shift: int) -> int {
    if perfect {
        if shift <= -1 {
            shift - 1
        } else if shift == 0 {
            0
        } else {
            shift + 1
        }
    } else {
        if shift <= 0 {
            shift - 1
        } else {
            shift
        }
    }
}

/// The two readings of the quality scale are inverse to each other.
pub proof fn lemma_quality_shift_inverse(perfect: bool, shift: int, quality: int)
    ensures
        quality_shift(perfect, shift_quality(perfect, shift)) == Some(shift),
        quality_shift(perfect, quality) is Some ==> shift_quality(
            perfect,
            quality_shift(perfect, quality)->0,
        ) == quality,
{
}

/// Reduction modulo the octave leaves the diatonic counter in `0..7`, keeps
/// the value a whole number of octaves from where it was, and
/// changes nothing when applied again.
pub proof fn lemma_mod_octave(a: Steps)
    ensures
        0 <= a.mod_octave().diatonic < 7,
        a.mod_octave().shift_octaves(a.diatonic / 7) == a,
        a.mod_octave().mod_octave() == a.mod_octave(),
{
    vstd::arithmetic::div_mod::lemma_fundamental_div_mod(a.diatonic, 7);
    let r = a.diatonic % 7;
    vstd::arithmetic::div_mod::lemma_small_mod(r as nat, 7);
    vstd::arithmetic::div_mod::lemma_basic_div(r, 7);
}

/// Reduction modulo the chromatic octave leaves the chromatic counter in
/// `0..12`, keeps the value a whole number of octaves from where it was,
/// and changes nothing when applied again.
pub proof fn lemma_mod_chromatic_octave(a: Steps)
    ensures
        0 <= a.mod_chromatic_octave().chromatic < 12,
        a.mod_chromatic_octave().shift_octaves(a.chromatic / 12) == a,
        a.mod_chromatic_octave().mod_chromatic_octave() == a.mod_chromatic_octave(),
{
    vstd::arithmetic::div_mod::lemma_fundamental_div_mod(a.chromatic, 12);
    let r = a.chromatic % 12;
    vstd::arithmetic::div_mod::lemma_small_mod(r as nat, 12);
    vstd::arithmetic::div_mod::lemma_basic_div(r, 12);
}

/// The family of an interval does not depend on its direction.
pub proof fn lemma_has_perfect_quality_symmetric(diatonic: int)
    ensures
        has_perfect_quality(-diatonic) == has_perfect_quality(diatonic),
{
    let r = diatonic % 7;
    vstd::arithmetic::div_mod::lemma_fundamental_div_mod(diatonic, 7);
    let q = diatonic / 7;
    if r == 0 {
        vstd::arithmetic::div_mod::lemma_fundamental_div_mod_converse(-diatonic, 7, -q, 0);
    } else {
        vstd::arithmetic::div_mod::lemma_fundamental_div_mod_converse(
            -diatonic,
            7,
            -q - 1,
            7 - r,
        );
    }
}

/// The natural half-step counts are antisymmetric in the direction of the
/// interval.
pub proof fn lemma_natural_chromatic_antisymmetric(diatonic: int)
    ensures
        natural_chromatic_perfect(-diatonic) == -natural_chromatic_perfect(diatonic),
        natural_chromatic_minor(-diatonic) == -natural_chromatic_minor(diatonic),
        natural_chromatic(-diatonic) == -natural_chromatic(diatonic),
{
    lemma_has_perfect_quality_symmetric(diatonic);
}

/// Taking a pitch apart and putting it together again gives the same pitch.
pub proof fn lemma_compose_of_parts(p: Steps)
    ensures
        0 <= p.letter_index() < 7,
        Steps::compose(p.letter_index(), p.accidental(), p.octave_number()) == p,
{
    vstd::arithmetic::div_mod::lemma_fundamental_div_mod(p.diatonic, 7);
}

/// Putting a pitch together and taking it apart again gives the same parts.
pub proof fn lemma_parts_of_compose(letter: int, accidental: int, octave: int)
    requires
        0 <= letter < 7,
    ensures
        Steps::compose(letter, accidental, octave).letter_index() == letter,
        Steps::compose(letter, accidental, octave).accidental() == accidental,
        Steps::compose(letter, accidental, octave).octave_number() == octave,
{
    vstd::arithmetic::div_mod::lemma_fundamental_div_mod_converse(
        (octave - 4) * 7 + letter,
        7,
        octave - 4,
        letter,
    );
}

/// The floor quotient and remainder of `x` by seven.
pub(crate) fn split_by_seven(x: i32) -> (res: (i32, i32))
    requires
        -100_000 <= x <= 100_000,
    ensures
        res.0 == x as int / 7,
        res.1 == x as int % 7,
        -15_000 <= res.0 <= 15_000,
        0 <= res.1 < 7,
{
    proof {
        vstd::arithmetic::div_mod::lemma_fundamental_div_mod(x as int, 7);
    }
    if x >= 0 {
        (x / 7, x % 7)
    } else {
        let magnitude: i32 = -x;
        proof {
            vstd::arithmetic::div_mod::lemma_fundamental_div_mod(magnitude as int, 7);
            if magnitude % 7 == 0 {
                vstd::arithmetic::div_mod::lemma_fundamental_div_mod_converse(
                    x as int,
                    7,
                    -(magnitude as int / 7),
                    0,
                );
            } else {
                vstd::arithmetic::div_mod::lemma_fundamental_div_mod_converse(
                    x as int,
                    7,
                    -(magnitude as int / 7) - 1,
                    7 - magnitude as int % 7,
                );
            }
        }
        if magnitude % 7 == 0 {
            (-(magnitude / 7), 0)
        } else {
            (-(magnitude / 7) - 1, 7 - magnitude % 7)
        }
    }
}

} // verus!
