//! What holds of the text of every pitch.

use super::display::{accidental_text, pitch_text};
use super::parse::{
    accidental_of_text, accidental_symbol, pitch_of_text, short_accidental_of_text, PitchFault,
};
use super::{Accidental, Pitch, PitchName};
use crate::harmony::steps::{lemma_compose_of_parts, Steps};
use crate::harmony::text::{
    decimal_digits, is_digit, lemma_decimal_digits, lemma_digits_behind, lemma_signed_decimal,
    signed_decimal, unsigned_number,
};
use vstd::prelude::*;

verus! {

/// The text of an accidental reads back as that accidental, whatever its
/// size. It holds neither a digit at its end nor a minus sign.
pub proof fn lemma_accidental_text_round_trip(shift: int)
    ensures
        accidental_of_text(accidental_text(shift)) == Ok::<int, PitchFault>(shift),
        accidental_text(shift).len() == 0 || (!is_digit(accidental_text(shift).last())
            && accidental_text(shift).last() != '-'),
{
    let s = accidental_text(shift);
    if shift == 0 {
    } else if -2 <= shift <= 2 {
        assert(s.len() == 1);
        assert(accidental_symbol(s[0]) == Some(shift));
    } else {
        let magnitude = if shift > 0 {
            shift
        } else {
            -shift
        };
        let sign = if shift > 0 {
            '#'
        } else {
            'b'
        };
        let digits = decimal_digits(magnitude);
        lemma_decimal_digits(magnitude);
        lemma_signed_decimal(magnitude);
        assert(s =~= seq!['('] + digits + seq![sign, ')']);
        assert(s.len() == digits.len() + 3);
        assert(s[0] == '(');
        let rest = s.skip(1);
        assert(rest.last() == ')');
        let inner = rest.drop_last();
        assert(inner =~= digits.push(sign));
        assert(inner.last() == sign);
        assert(inner.drop_last() =~= digits);
        assert(unsigned_number(digits) == Some(magnitude));
    }
}

/// Reading an accidental back from its own text gives the accidental:
/// `parse(format(a)) == a`, for every accidental.
pub proof fn lemma_accidental_round_trip(a: Accidental)
    ensures
        short_accidental_of_text(accidental_text(a@)) == Ok::<int, PitchFault>(a@),
{
    lemma_accidental_text_round_trip(a@);
}

/// Reading a pitch back from its own text gives the pitch:
/// `parse(format(p)) == p`, for every pitch.
pub proof fn lemma_pitch_text_round_trip(p: Pitch)
    ensures
        pitch_of_text(pitch_text(p@)) == Ok::<Steps, PitchFault>(p@),
{
    let name = PitchName::of_index(p@.letter_index());
    let shift = p@.accidental();
    let octave = p@.octave_number();
    let head = seq![name.letter()] + accidental_text(shift);
    let s = pitch_text(p@);
    lemma_accidental_text_round_trip(shift);
    lemma_compose_of_parts(p@);
    lemma_signed_decimal(octave);
    crate::lemma_floor_quotient_bounds(p@.diatonic, 7);
    assert(head.len() >= 1);
    assert(head[0] == name.letter());
    assert(PitchName::of_letter(name.letter()) == Some(name));
    assert(name.index() == p@.letter_index());
    assert(head.skip(1) =~= accidental_text(shift));
    if accidental_text(shift).len() > 0 {
        assert(head.last() == accidental_text(shift).last());
    }
    assert(!is_digit(head.last()) && head.last() != '-');
    if octave < 0 {
        let prefix = head.push('-');
        let digits = decimal_digits(-octave);
        assert(s =~= prefix + digits);
        lemma_digits_behind(prefix, -octave);
        let k = prefix.len() as int;
        assert(s[k - 1] == '-');
        assert(s.skip(k - 1) =~= signed_decimal(octave));
        assert(s.take(k - 1) =~= head);
    } else {
        let digits = decimal_digits(octave);
        assert(s =~= head + digits);
        lemma_digits_behind(head, octave);
        let k = head.len() as int;
        assert(s[k - 1] == head.last());
    }
}

/// The Unicode symbol of an accidental, where it has one, reads back as
/// that accidental.
pub proof fn lemma_symbol_round_trip(a: Accidental)
    requires
        Accidental::symbol(a@) is Some,
    ensures
        accidental_of_text(seq![Accidental::symbol(a@)->0]) == Ok::<int, PitchFault>(a@),
{
    let s = seq![Accidental::symbol(a@)->0];
    assert(s.len() == 1);
    assert(accidental_symbol(s[0]) == Some(a@));
}

} // verus!
