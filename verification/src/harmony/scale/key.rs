//! Key signatures, and the decision which accidentals a reader must be
//! shown.

use crate::div_remainder;
use crate::harmony::pitch::{Accidental, Pitch};
use crate::harmony::steps::{letter_offset, split_by_seven, Steps};
use vstd::prelude::*;
use vstd::std_specs::convert::FromSpecImpl;

verus! {

/// An accidental of a key signature. It holds for its letter in every
/// octave, so its staff position is kept in `0..7`.
#[derive(Debug, Clone, Copy, PartialEq, Eq, Structural)]
pub struct KeyAccidental {
    pub staffposition: i16,
    pub accidental: Accidental,
}

impl KeyAccidental {
    /// Creates the accidental of a key signature for the letter at the
    /// given staff position.
    pub fn new(staffposition: i16, accidental: Accidental) -> (res: Self)
        ensures
            res.staffposition == staffposition as int % 7,
            res.accidental == accidental,
    {
        let (_octave, staffposition) = div_remainder(staffposition, 7);
        Self { staffposition, accidental }
    }
}

/// The accidentals of the common key signatures.
impl KeyAccidental {
    /// C flat.
    pub fn c_flat() -> (res: Self)
        ensures
            res.staffposition == 0,
            res.accidental@ == -1,
    {
        Self { staffposition: 0, accidental: Accidental(-1) }
    }

    /// G flat.
    pub fn g_flat() -> (res: Self)
        ensures
            res.staffposition == 4,
            res.accidental@ == -1,
    {
        Self { staffposition: 4, accidental: Accidental(-1) }
    }

    /// D flat.
    pub fn d_flat() -> (res: Self)
        ensures
            res.staffposition == 1,
            res.accidental@ == -1,
    {
        Self { staffposition: 1, accidental: Accidental(-1) }
    }

    /// A flat.
    pub fn a_flat() -> (res: Self)
        ensures
            res.staffposition == 5,
            res.accidental@ == -1,
    {
        Self { staffposition: 5, accidental: Accidental(-1) }
    }

    /// E flat.
    pub fn e_flat() -> (res: Self)
        ensures
            res.staffposition == 2,
            res.accidental@ == -1,
    {
        Self { staffposition: 2, accidental: Accidental(-1) }
    }

    /// B flat.
    pub fn b_flat() -> (res: Self)
        ensures
            res.staffposition == 6,
            res.accidental@ == -1,
    {
        Self { staffposition: 6, accidental: Accidental(-1) }
    }

    /// F sharp.
    pub fn f_sharp() -> (res: Self)
        ensures
            res.staffposition == 3,
            res.accidental@ == 1,
    {
        Self { staffposition: 3, accidental: Accidental(1) }
    }

    /// C sharp.
    pub fn c_sharp() -> (res: Self)
        ensures
            res.staffposition == 0,
            res.accidental@ == 1,
    {
        Self { staffposition: 0, accidental: Accidental(1) }
    }

    /// G sharp.
    pub fn g_sharp() -> (res: Self)
        ensures
            res.staffposition == 4,
            res.accidental@ == 1,
    {
        Self { staffposition: 4, accidental: Accidental(1) }
    }

    /// D sharp.
    pub fn d_sharp() -> (res: Self)
        ensures
            res.staffposition == 1,
            res.accidental@ == 1,
    {
        Self { staffposition: 1, accidental: Accidental(1) }
    }

    /// A sharp.
    pub fn a_sharp() -> (res: Self)
        ensures
            res.staffposition == 5,
            res.accidental@ == 1,
    {
        Self { staffposition: 5, accidental: Accidental(1) }
    }

    /// E sharp.
    pub fn e_sharp() -> (res: Self)
        ensures
            res.staffposition == 2,
            res.accidental@ == 1,
    {
        Self { staffposition: 2, accidental: Accidental(1) }
    }
}

/// An accidental written on the staff. It holds for its own staff position
/// only, not for the same letter in other octaves.
#[derive(Debug, Clone, Copy, PartialEq, Eq, Structural)]
pub struct ConcreteAccidental {
    pub staffposition: i16,
    pub accidental: Accidental,
}

impl ConcreteAccidental {
    /// Creates an accidental on the given staff position.
    pub fn new(staffposition: i16, accidental: Accidental) -> (res: Self)
        ensures
            res.staffposition == staffposition,
            res.accidental == accidental,
    {
        Self { staffposition, accidental }
    }
}

/// The `k`-th note of the major scale above `root`.
pub open spec fn major_note(root: Steps, k: int) -> Steps {
    root.plus(Steps { diatonic: k, chromatic: letter_offset(k) })
}

/// The accidentals of the seven notes of the major scale above `root`, in
/// the order of the scale.
pub open spec fn major_key(root: Steps) -> Seq<KeyAccidental> {
    Seq::new(
        7,
        |k: int|
            KeyAccidental {
                staffposition: (major_note(root, k).diatonic % 7) as i16,
                accidental: Accidental(major_note(root, k).accidental() as i16),
            },
    )
}

/// Whether the accidentals of the major scale above `root` all fit in
/// sixteen bits, as they do unless the root itself is thousands of half
/// steps away from the natural pitch of its letter.
pub open spec fn has_major_key(root: Steps) -> bool {
    forall|k: int|
        0 <= k < 7 ==> i16::MIN <= (#[trigger] major_note(root, k)).accidental() <= i16::MAX
}

/// The accidentals of a major scale differ from that of its root by one
/// sharp or flat at most, and those of a natural minor scale by two at
/// most. So every pitch whose own accidental is not at the very end of
/// sixteen bits is the root of a major and of a minor key.
pub proof fn lemma_key_accidentals(root: Steps, k: int)
    requires
        0 <= k < 7,
    ensures
        -1 <= major_note(root, k).accidental() - root.accidental() <= 1,
        -2 <= major_note(root.plus(Steps { diatonic: 2, chromatic: 3 }), k).accidental()
            - root.accidental() <= 1,
        i16::MIN + 2 <= root.accidental() <= i16::MAX - 1 ==> i16::MIN <= major_note(
            root,
            k,
        ).accidental() <= i16::MAX && i16::MIN <= major_note(
            root.plus(Steps { diatonic: 2, chromatic: 3 }),
            k,
        ).accidental() <= i16::MAX,
{
    let d = root.diatonic;
    let q = d / 7;
    let r = d % 7;
    vstd::arithmetic::div_mod::lemma_fundamental_div_mod(d, 7);
    lemma_split_sum(q, r + k);
    lemma_split_sum(q, r + 2 + k);
    assert(d + k == 7 * q + (r + k));
    assert(d + 2 + k == 7 * q + (r + 2 + k));
}

/// Quotient and remainder by seven of a multiple of seven plus a small
/// number.
proof fn lemma_split_sum(q: int, x: int)
    requires
        0 <= x < 21,
    ensures
        (7 * q + x) / 7 == q + (if x < 7 {
            0int
        } else if x < 14 {
            1int
        } else {
            2int
        }),
        (7 * q + x) % 7 == (if x < 7 {
            x
        } else if x < 14 {
            x - 7
        } else {
            x - 14
        }),
{
    let carry = if x < 7 {
        0int
    } else if x < 14 {
        1int
    } else {
        2int
    };
    vstd::arithmetic::div_mod::lemma_fundamental_div_mod_converse(
        7 * q + x,
        7,
        q + carry,
        x - 7 * carry,
    );
}

/// A key signature: the accidentals of the notes of a key.
#[derive(Debug, Clone)]
pub struct KeySignature(pub Vec<KeyAccidental>);

impl Default for KeySignature {
    /// The key signature without accidentals.
    fn default() -> (res: Self)
        ensures
            res@.len() == 0,
    {
        Self(Vec::new())
    }
}

impl View for KeySignature {
    type V = Seq<KeyAccidental>;

    open spec fn view(&self) -> Seq<KeyAccidental> {
        self.0@
    }
}

/// Half steps from C to the natural pitch of the letter with index `r`.
fn natural_of_letter(r: i32) -> (res: i32)
    requires
        0 <= r < 7,
    ensures
        res == letter_offset(r as int),
        0 <= res < 12,
{
    if r == 1 {
        2
    } else if r == 2 {
        4
    } else if r == 3 {
        5
    } else if r == 4 {
        7
    } else if r == 5 {
        9
    } else if r == 6 {
        11
    } else {
        0
    }
}

/// The key signature of the major scale above the pitch of the given
/// steps.
fn major_above(diatonic: i32, chromatic: i32) -> (res: KeySignature)
    requires
        -40_000 <= diatonic <= 40_000,
        -40_000 <= chromatic <= 40_000,
        has_major_key(Steps { diatonic: diatonic as int, chromatic: chromatic as int }),
    ensures
        res@ == major_key(Steps { diatonic: diatonic as int, chromatic: chromatic as int }),
{
    let ghost root = Steps { diatonic: diatonic as int, chromatic: chromatic as int };
    let mut accidentals: Vec<KeyAccidental> = Vec::new();
    let mut k: i32 = 0;
    while k < 7
        invariant
            0 <= k <= 7,
            -40_000 <= diatonic <= 40_000,
            -40_000 <= chromatic <= 40_000,
            root == (Steps { diatonic: diatonic as int, chromatic: chromatic as int }),
            has_major_key(root),
            accidentals@ == major_key(root).take(k as int),
        decreases 7 - k,
    {
        let note_diatonic: i32 = diatonic + k;
        let note_chromatic: i32 = chromatic + natural_of_letter(k);
        let (octave, position) = split_by_seven(note_diatonic);
        let accidental: i32 = note_chromatic - (12 * octave + natural_of_letter(position));
        proof {
            let note = major_note(root, k as int);
            assert(note.diatonic == note_diatonic);
            assert(note.chromatic == note_chromatic);
            assert(note.accidental() == accidental);
        }
        accidentals.push(
            KeyAccidental {
                staffposition: position as i16,
                accidental: Accidental(accidental as i16),
            },
        );
        assert(accidentals@ =~= major_key(root).take(k + 1));
        k += 1;
    }
    assert(accidentals@ =~= major_key(root));
    KeySignature(accidentals)
}

impl KeySignature {
    /// Creates the key signature of the major scale with root `pitch`: the
    /// accidentals of its seven notes, in the order of the scale.
    pub fn major(pitch: Pitch) -> (res: Self)
        requires
            has_major_key(pitch@),
        ensures
            res@ == major_key(pitch@),
    {
        major_above(pitch.diatonic as i32, pitch.chromatic as i32)
    }

    /// Creates the key signature of the natural minor scale with root
    /// `pitch`, which is that of the major scale a minor third higher.
    pub fn minor(pitch: Pitch) -> (res: Self)
        requires
            has_major_key(pitch@.plus(Steps { diatonic: 2, chromatic: 3 })),
        ensures
            res@ == major_key(pitch@.plus(Steps { diatonic: 2, chromatic: 3 })),
    {
        major_above(pitch.diatonic as i32 + 2, pitch.chromatic as i32 + 3)
    }
}

/// The accidental of the most recent entry of `accidentals` on the staff
/// position `position`, if there is one.
pub open spec fn latest_at(accidentals: Seq<ConcreteAccidental>, position: int) -> Option<
    Accidental,
>
    decreases accidentals.len(),
{
    if accidentals.len() == 0 {
        None
    } else if accidentals.last().staffposition == position {
        Some(accidentals.last().accidental)
    } else {
        latest_at(accidentals.drop_last(), position)
    }
}

/// The accidental of the first entry of `signature` for the letter at
/// `position`, which is a staff position in `0..7`, if there is one.
pub open spec fn first_in_key(signature: Seq<KeyAccidental>, position: int) -> Option<Accidental>
    decreases signature.len(),
{
    if signature.len() == 0 {
        None
    } else if signature[0].staffposition == position {
        Some(signature[0].accidental)
    } else {
        first_in_key(signature.skip(1), position)
    }
}

/// The accidental that a reader takes a note on the staff position of
/// `pitch` to have: that of the most recent accidental written on this very
/// position; else that of the key signature for its letter; else the
/// natural.
pub open spec fn implied_accidental(
    signature: Seq<KeyAccidental>,
    accidentals: Seq<ConcreteAccidental>,
    pitch: Steps,
) -> int {
    match latest_at(accidentals, pitch.diatonic) {
        Some(a) => a@,
        None => match first_in_key(signature, pitch.diatonic % 7) {
            Some(a) => a@,
            None => 0,
        },
    }
}

/// The accidental that must be written before `pitch`: its own, where that
/// is not what the reader would take it to be; none otherwise.
pub open spec fn shown_accidental(
    signature: Seq<KeyAccidental>,
    accidentals: Seq<ConcreteAccidental>,
    pitch: Steps,
) -> Option<int> {
    if pitch.accidental() != implied_accidental(signature, accidentals, pitch) {
        Some(pitch.accidental())
    } else {
        None
    }
}

/// What an [`AccidentalCalulator`] holds: the accidentals of the key, and
/// the accidentals written since the last bar line, oldest first.
pub struct Engraving {
    pub signature: Seq<KeyAccidental>,
    pub accidentals: Seq<ConcreteAccidental>,
}

/// Decides, note by note, which accidentals must be written in the context
/// of a key signature and of the accidentals written before in the same
/// bar. The notes must be given in the order in which they are read.
#[derive(Debug, Clone)]
pub struct AccidentalCalulator {
    signature: Vec<KeyAccidental>,
    accidentals: Vec<ConcreteAccidental>,
}

impl View for AccidentalCalulator {
    type V = Engraving;

    closed spec fn view(&self) -> Engraving {
        Engraving { signature: self.signature@, accidentals: self.accidentals@ }
    }
}

impl Default for AccidentalCalulator {
    fn default() -> (res: Self)
        ensures
            res@.signature.len() == 0,
            res@.accidentals.len() == 0,
    {
        Self { signature: Vec::new(), accidentals: Vec::new() }
    }
}

impl FromSpecImpl<KeySignature> for AccidentalCalulator {
    open spec fn obeys_from_spec() -> bool {
        false
    }

    open spec fn from_spec(value: KeySignature) -> AccidentalCalulator {
        choose|c: AccidentalCalulator| c@.signature == value@ && c@.accidentals.len() == 0
    }
}

impl From<KeySignature> for AccidentalCalulator {
    fn from(value: KeySignature) -> (res: Self)
        ensures
            res@.signature == value@,
            res@.accidentals.len() == 0,
    {
        Self { signature: value.0, accidentals: Vec::new() }
    }
}

impl AccidentalCalulator {
    /// Creates a calculator for a key signature, with no accidental written
    /// yet.
    pub fn from_key_signature(key: KeySignature) -> (res: Self)
        ensures
            res@.signature == key@,
            res@.accidentals.len() == 0,
    {
        Self { signature: key.0, accidentals: Vec::new() }
    }

    /// Gets the accidental that must be written before `pitch`, if any.
    pub fn get_display_accidental(&self, pitch: Pitch) -> (res: Option<Accidental>)
        requires
            pitch.has_accidental(),
        ensures
            match shown_accidental(self@.signature, self@.accidentals, pitch@) {
                Some(shift) => res matches Some(a) && a@ == shift,
                None => res is None,
            },
    {
        let own = pitch.accidental();
        let position = pitch.staff_position();
        let mut i: usize = self.accidentals.len();
        assert(self.accidentals@.take(i as int) =~= self.accidentals@);
        while i > 0
            invariant
                i <= self.accidentals.len(),
                own@ == pitch@.accidental(),
                position == pitch.diatonic,
                latest_at(self.accidentals@, position as int) == latest_at(
                    self.accidentals@.take(i as int),
                    position as int,
                ),
            decreases i,
        {
            assert(self.accidentals@.take(i as int).last() == self.accidentals@[i - 1]);
            assert(self.accidentals@.take(i as int).drop_last() =~= self.accidentals@.take(i - 1));
            let entry = self.accidentals[i - 1];
            if entry.staffposition == position {
                if entry.accidental.0 != own.0 {
                    return Some(own);
                } else {
                    return None;
                }
            }
            i -= 1;
        }
        assert(self.accidentals@.take(0) =~= Seq::<ConcreteAccidental>::empty());
        let (_octave, letter) = div_remainder(position, 7);
        let mut k: usize = 0;
        assert(self.signature@.skip(0) =~= self.signature@);
        while k < self.signature.len()
            invariant
                k <= self.signature.len(),
                own@ == pitch@.accidental(),
                position == pitch.diatonic,
                letter == position as int % 7,
                latest_at(self.accidentals@, position as int) is None,
                first_in_key(self.signature@, letter as int) == first_in_key(
                    self.signature@.skip(k as int),
                    letter as int,
                ),
            decreases self.signature.len() - k,
        {
            assert(self.signature@.skip(k as int)[0] == self.signature@[k as int]);
            assert(self.signature@.skip(k as int).skip(1) =~= self.signature@.skip(k + 1));
            let entry = self.signature[k];
            if entry.staffposition == letter {
                if entry.accidental.0 != own.0 {
                    return Some(own);
                } else {
                    return None;
                }
            }
            k += 1;
        }
        if own.0 != 0 {
            Some(own)
        } else {
            None
        }
    }

    /// Gets the accidental that must be written before `pitch`, if any, and
    /// remembers it as written on the staff position of `pitch`.
    pub fn get_and_update(&mut self, pitch: Pitch) -> (res: Option<Accidental>)
        requires
            pitch.has_accidental(),
        ensures
            final(self)@.signature == old(self)@.signature,
            match shown_accidental(old(self)@.signature, old(self)@.accidentals, pitch@) {
                Some(shift) => {
                    &&& res matches Some(a)
                    &&& a@ == shift
                    &&& final(self)@.accidentals == old(self)@.accidentals.push(
                        ConcreteAccidental { staffposition: pitch.diatonic, accidental: a },
                    )
                },
                None => res is None && final(self)@.accidentals == old(self)@.accidentals,
            },
    {
        let shown = self.get_display_accidental(pitch);
        if let Some(accidental) = shown {
            self.push(ConcreteAccidental::new(pitch.staff_position(), accidental));
        }
        shown
    }

    /// Forgets the accidentals written so far, as at a bar line. The key
    /// signature stays.
    pub fn clear(&mut self)
        ensures
            final(self)@.signature == old(self)@.signature,
            final(self)@.accidentals.len() == 0,
    {
        self.accidentals.clear();
    }

    /// Changes the key signature and forgets the accidentals written so
    /// far.
    pub fn change_key_signature(&mut self, key: KeySignature)
        ensures
            final(self)@.signature == key@,
            final(self)@.accidentals.len() == 0,
    {
        self.accidentals.clear();
        self.signature = key.0;
    }

    /// Remembers the accidental as written, as the most recent one.
    pub fn push(&mut self, accidental: ConcreteAccidental)
        ensures
            final(self)@.signature == old(self)@.signature,
            final(self)@.accidentals == old(self)@.accidentals.push(accidental),
    {
        self.accidentals.push(accidental);
    }
}

} // verus!
