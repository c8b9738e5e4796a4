//! Decimal numbers in text: what the notation of pitches and intervals
//! shares.

use vstd::prelude::*;
use vstd::string::*;

verus! {

/// Whether `c` is one of the ASCII digits.
pub open spec fn is_digit(c: char) -> bool {
    '0' <= c <= '9'
}

/// Value of the ASCII digit `c`.
pub open spec fn digit_value(c: char) -> int {
    c as int - '0' as int
}

/// The ASCII digit of value `d`, for `d` in `0..10`.
pub open spec fn digit_char(d: int) -> char {
    if d == 1 {
        '1'
    } else if d == 2 {
        '2'
    } else if d == 3 {
        '3'
    } else if d == 4 {
        '4'
    } else if d == 5 {
        '5'
    } else if d == 6 {
        '6'
    } else if d == 7 {
        '7'
    } else if d == 8 {
        '8'
    } else if d == 9 {
        '9'
    } else {
        '0'
    }
}

/// Whether every character of `s` is an ASCII digit.
pub open spec fn all_digits(s: Seq<char>) -> bool {
    forall|i: int| 0 <= i < s.len() ==> is_digit(#[trigger] s[i])
}

/// Value of a run of digits read as a decimal number; the empty run is 0.
pub open spec fn decimal_value(s: Seq<char>) -> int
    decreases s.len(),
{
    if s.len() == 0 {
        0
    } else {
        decimal_value(s.drop_last()) * 10 + digit_value(s.last())
    }
}

/// Index at which the longest run of digits at the end of `s` starts;
/// `s.len()` where `s` does not end in a digit.
pub open spec fn digit_suffix_start(s: Seq<char>) -> int
    decreases s.len(),
{
    if s.len() == 0 || !is_digit(s.last()) {
        s.len() as int
    } else {
        digit_suffix_start(s.drop_last())
    }
}

/// The decimal digits of `n`, without leading zeros.
pub open spec fn decimal_digits(n: int) -> Seq<char>
    decreases n,
{
    if n < 10 {
        seq![digit_char(n)]
    } else {
        decimal_digits(n / 10).push(digit_char(n % 10))
    }
}

/// The decimal spelling of `n`: a minus sign before the digits of a
/// negative number.
pub open spec fn signed_decimal(n: int) -> Seq<char> {
    if n < 0 {
        seq!['-'] + decimal_digits(-n)
    } else {
        decimal_digits(n)
    }
}

/// What a text holds when read as an unsigned decimal number: one digit or
/// more and nothing else.
pub open spec fn unsigned_number(s: Seq<char>) -> Option<int> {
    if s.len() > 0 && all_digits(s) {
        Some(decimal_value(s))
    } else {
        None
    }
}

/// What a text holds when read as a signed decimal number: a plus or a
/// minus sign or none, then one digit or more and nothing else.
pub open spec fn signed_number(s: Seq<char>) -> Option<int> {
    if s.len() > 0 && s[0] == '-' {
        match unsigned_number(s.skip(1)) {
            Some(n) => Some(-n),
            None => None,
        }
    } else if s.len() > 0 && s[0] == '+' {
        unsigned_number(s.skip(1))
    } else {
        unsigned_number(s)
    }
}

/// The number that a text holds when read as a signed number of sixteen
/// bits; none where it is no number or does not fit.
pub open spec fn number_i16(s: Seq<char>) -> Option<int> {
    match signed_number(s) {
        Some(n) => if i16::MIN <= n <= i16::MAX {
            Some(n)
        } else {
            None
        },
        None => None,
    }
}

/// `n` where it lies between `-cap` and `cap`, else the nearer of the two.
pub open spec fn capped(n: int, cap: int) -> int {
    if n > cap {
        cap
    } else if n < -cap {
        -cap
    } else {
        n
    }
}

/// A run of digits has a value that is not negative, and that is no smaller
/// than the value of each of its prefixes.
pub proof fn lemma_decimal_value_prefix(s: Seq<char>, k: int)
    requires
        all_digits(s),
        0 <= k <= s.len(),
    ensures
        0 <= decimal_value(s.take(k)) <= decimal_value(s),
    decreases s.len(),
{
    if s.len() == 0 {
        assert(s.take(k) =~= s);
    } else if k == s.len() {
        assert(s.take(k) =~= s);
        lemma_decimal_value_prefix(s.drop_last(), k - 1);
        assert(is_digit(s.last()));
    } else {
        lemma_decimal_value_prefix(s.drop_last(), k);
        assert(s.drop_last().take(k) =~= s.take(k));
        assert(is_digit(s.last()));
    }
}

/// The start of the digit run at the end of a text is the one index from
/// which on all is digits and before which stands no digit.
pub proof fn lemma_digit_suffix_start(s: Seq<char>, k: int)
    requires
        0 <= k <= s.len(),
        all_digits(s.skip(k)),
        k == 0 || !is_digit(s[k - 1]),
    ensures
        digit_suffix_start(s) == k,
    decreases s.len(),
{
    if s.len() == 0 {
    } else if !is_digit(s.last()) {
        if k < s.len() {
            assert(s.skip(k)[s.len() - 1 - k] == s.last());
        }
    } else {
        let t = s.drop_last();
        assert forall|i: int| 0 <= i < t.skip(k).len() implies is_digit(#[trigger] t.skip(k)[i]) by {
            assert(t.skip(k)[i] == s.skip(k)[i]);
        }
        lemma_digit_suffix_start(t, k);
    }
}

/// The digit run at the end of a text lies within the text and holds digits
/// only.
pub proof fn lemma_digit_suffix_is_digits(s: Seq<char>)
    ensures
        0 <= digit_suffix_start(s) <= s.len(),
        all_digits(s.skip(digit_suffix_start(s))),
        digit_suffix_start(s) == 0 || !is_digit(s[digit_suffix_start(s) - 1]),
    decreases s.len(),
{
    if s.len() == 0 || !is_digit(s.last()) {
    } else {
        let t = s.drop_last();
        lemma_digit_suffix_is_digits(t);
        let k = digit_suffix_start(t);
        assert forall|i: int| 0 <= i < s.skip(k).len() implies is_digit(#[trigger] s.skip(k)[i]) by {
            if i < t.skip(k).len() {
                assert(s.skip(k)[i] == t.skip(k)[i]);
            }
        }
    }
}

/// The digits of a number that is not negative are digits, at least one,
/// and their value is the number.
pub proof fn lemma_decimal_digits(n: int)
    requires
        n >= 0,
    ensures
        decimal_digits(n).len() >= 1,
        all_digits(decimal_digits(n)),
        decimal_value(decimal_digits(n)) == n,
    decreases n,
{
    if n < 10 {
        let s = decimal_digits(n);
        assert(s.drop_last() =~= Seq::<char>::empty());
        assert(decimal_value(s.drop_last()) == 0);
    } else {
        lemma_decimal_digits(n / 10);
        let s = decimal_digits(n);
        assert(s.drop_last() =~= decimal_digits(n / 10));
    }
}

/// The decimal spelling of a number reads back as that number. It starts
/// with a digit or a minus sign, never with a plus sign.
pub proof fn lemma_signed_decimal(n: int)
    ensures
        signed_decimal(n).len() >= 1,
        is_digit(signed_decimal(n)[0]) || signed_decimal(n)[0] == '-',
        n >= 0 ==> is_digit(signed_decimal(n)[0]),
        signed_number(signed_decimal(n)) == Some(n),
        n >= 0 ==> unsigned_number(signed_decimal(n)) == Some(n),
{
    if n < 0 {
        let s = signed_decimal(n);
        lemma_decimal_digits(-n);
        assert(s.skip(1) =~= decimal_digits(-n));
        assert(s[0] == '-');
    } else {
        lemma_decimal_digits(n);
        let s = decimal_digits(n);
        assert(is_digit(s[0]));
    }
}

/// Where digits are written behind a text that does not end in a digit,
/// the digit run at the end of the whole is just these digits.
pub proof fn lemma_digits_behind(prefix: Seq<char>, n: int)
    requires
        n >= 0,
        prefix.len() == 0 || !is_digit(prefix.last()),
    ensures
        digit_suffix_start(prefix + decimal_digits(n)) == prefix.len(),
        (prefix + decimal_digits(n)).skip(prefix.len() as int) == decimal_digits(n),
        (prefix + decimal_digits(n)).take(prefix.len() as int) == prefix,
{
    let s = prefix + decimal_digits(n);
    lemma_decimal_digits(n);
    assert(s.skip(prefix.len() as int) =~= decimal_digits(n));
    assert(s.take(prefix.len() as int) =~= prefix);
    if prefix.len() > 0 {
        assert(s[prefix.len() - 1] == prefix.last());
    }
    lemma_digit_suffix_start(s, prefix.len() as int);
}

/// Whether `c` is one of the ASCII digits.
pub(crate) fn is_ascii_digit(c: char) -> (res: bool)
    ensures
        res == is_digit(c),
{
    '0' <= c && c <= '9'
}

/// The characters of a text, one by one.
pub(crate) fn chars_of(s: &str) -> (res: Vec<char>)
    ensures
        res@ == s@,
{
    let n = s.unicode_len();
    let mut res: Vec<char> = Vec::new();
    let mut i: usize = 0;
    while i < n
        invariant
            n == s@.len(),
            0 <= i <= n,
            res@ == s@.take(i as int),
        decreases n - i,
    {
        res.push(s.get_char(i));
        assert(s@.take(i as int).push(s@[i as int]) =~= s@.take(i + 1));
        i += 1;
    }
    assert(s@.take(n as int) =~= s@);
    res
}

/// The part of a text between two character positions, as a text of its
/// own.
pub(crate) fn substring(s: &str, from: usize, to: usize) -> (res: String)
    requires
        from <= to <= s@.len(),
    ensures
        res@ == s@.subrange(from as int, to as int),
{
    s.substring_char(from, to).to_owned()
}

/// Position at which the run of digits that ends at `to` starts, looking no
/// further back than `from`.
pub(crate) fn digit_run_start(chars: &Vec<char>, from: usize, to: usize) -> (res: usize)
    requires
        from <= to <= chars.len(),
    ensures
        from <= res <= to,
        res == from + digit_suffix_start(chars@.subrange(from as int, to as int)),
{
    let mut k: usize = to;
    while k > from && is_ascii_digit(chars[k - 1])
        invariant
            from <= k <= to <= chars.len(),
            all_digits(chars@.subrange(k as int, to as int)),
        decreases k,
    {
        assert forall|i: int| 0 <= i < to - (k - 1) implies is_digit(
            #[trigger] chars@.subrange(k - 1, to as int)[i],
        ) by {
            if i > 0 {
                assert(chars@.subrange(k - 1, to as int)[i] == chars@.subrange(
                    k as int,
                    to as int,
                )[i - 1]);
            }
        }
        k -= 1;
    }
    proof {
        let s = chars@.subrange(from as int, to as int);
        assert(s.skip(k - from) =~= chars@.subrange(k as int, to as int));
        lemma_digit_suffix_start(s, k - from);
    }
    k
}

/// Reads the characters from `from` to `to` as a run of digits: their value
/// where there is at least one, all are digits and the value is no larger
/// than `limit`.
pub(crate) fn parse_digits(chars: &Vec<char>, from: usize, to: usize, limit: u32) -> (res: Option<u32>)
    requires
        from <= to <= chars.len(),
        limit <= 100_000_000,
    ensures
        res is Some <==> ({
            let s = chars@.subrange(from as int, to as int);
            s.len() > 0 && all_digits(s) && decimal_value(s) <= limit
        }),
        res is Some ==> res.unwrap() as int == decimal_value(
            chars@.subrange(from as int, to as int),
        ),
{
    let ghost s = chars@.subrange(from as int, to as int);
    if from == to {
        return None;
    }
    let mut value: u32 = 0;
    let mut i: usize = from;
    while i < to
        invariant
            from <= i <= to <= chars.len(),
            limit <= 100_000_000,
            s == chars@.subrange(from as int, to as int),
            all_digits(s.take(i - from)),
            value == decimal_value(s.take(i - from)),
            value <= limit,
        decreases to - i,
    {
        let c = chars[i];
        assert(c == s[i - from]);
        if !is_ascii_digit(c) {
            return None;
        }
        let digit: u32 = c as u32 - '0' as u32;
        proof {
            let t = s.take(i - from + 1);
            assert(t.drop_last() =~= s.take(i - from));
            assert(t.last() == c);
            assert forall|j: int| 0 <= j < t.len() implies is_digit(#[trigger] t[j]) by {
                if j < t.len() - 1 {
                    assert(t[j] == s.take(i - from)[j]);
                }
            }
            if all_digits(s) {
                lemma_decimal_value_prefix(s, i - from + 1);
            }
        }
        value = value * 10 + digit;
        if value > limit {
            return None;
        }
        i += 1;
    }
    assert(s.take(to - from) =~= s);
    Some(value)
}

/// Reads the characters from `from` to `to` as a run of digits, of any
/// length: their value, or `cap` where the value is larger.
pub(crate) fn parse_capped(chars: &Vec<char>, from: usize, to: usize, cap: u32) -> (res: Option<
    u32,
>)
    requires
        from <= to <= chars.len(),
        cap <= 100_000_000,
    ensures
        match unsigned_number(chars@.subrange(from as int, to as int)) {
            Some(n) => res matches Some(v) && v == capped(n, cap as int) && n >= 0,
            None => res is None,
        },
{
    let ghost s = chars@.subrange(from as int, to as int);
    if from == to {
        return None;
    }
    let mut value: u32 = 0;
    let mut i: usize = from;
    while i < to
        invariant
            from <= i <= to <= chars.len(),
            cap <= 100_000_000,
            s == chars@.subrange(from as int, to as int),
            all_digits(s.take(i - from)),
            0 <= decimal_value(s.take(i - from)),
            value == capped(decimal_value(s.take(i - from)), cap as int),
        decreases to - i,
    {
        let c = chars[i];
        assert(c == s[i - from]);
        if !is_ascii_digit(c) {
            return None;
        }
        let digit: u32 = c as u32 - '0' as u32;
        proof {
            let t = s.take(i - from + 1);
            assert(t.drop_last() =~= s.take(i - from));
            assert(t.last() == c);
            assert forall|j: int| 0 <= j < t.len() implies is_digit(#[trigger] t[j]) by {
                if j < t.len() - 1 {
                    assert(t[j] == s.take(i - from)[j]);
                }
            }
        }
        value = if value >= cap {
            cap
        } else {
            let next: u32 = value * 10 + digit;
            if next > cap {
                cap
            } else {
                next
            }
        };
        i += 1;
    }
    assert(s.take(to - from) =~= s);
    Some(value)
}

/// Reads the characters from `from` to `to` as a signed number, of any
/// length: its value, or the nearer of `-cap` and `cap` where the value
/// lies beyond them.
pub(crate) fn parse_signed_capped(chars: &Vec<char>, from: usize, to: usize, cap: u32) -> (res:
    Option<i32>)
    requires
        from <= to <= chars.len(),
        cap <= 100_000_000,
    ensures
        match signed_number(chars@.subrange(from as int, to as int)) {
            Some(n) => res matches Some(v) && v == capped(n, cap as int),
            None => res is None,
        },
{
    let ghost s = chars@.subrange(from as int, to as int);
    if from < to {
        assert(s[0] == chars@[from as int]);
        assert(s.skip(1) =~= chars@.subrange(from + 1, to as int));
    }
    if from < to && chars[from] == '-' {
        match parse_capped(chars, from + 1, to, cap) {
            Some(magnitude) => Some(-(magnitude as i32)),
            None => None,
        }
    } else if from < to && chars[from] == '+' {
        match parse_capped(chars, from + 1, to, cap) {
            Some(magnitude) => Some(magnitude as i32),
            None => None,
        }
    } else {
        match parse_capped(chars, from, to, cap) {
            Some(magnitude) => Some(magnitude as i32),
            None => None,
        }
    }
}

/// Reads the characters from `from` to `to` as a signed number of sixteen
/// bits.
pub(crate) fn parse_i16(chars: &Vec<char>, from: usize, to: usize) -> (res: Option<i16>)
    requires
        from <= to <= chars.len(),
    ensures
        res is Some == number_i16(chars@.subrange(from as int, to as int)) is Some,
        res is Some ==> number_i16(chars@.subrange(from as int, to as int)) == Some(
            res.unwrap() as int,
        ),
{
    match parse_signed_capped(chars, from, to, 40_000) {
        Some(value) => if -32768 <= value && value <= 32767 {
            Some(value as i16)
        } else {
            None
        },
        None => None,
    }
}

/// Appends the digit of value `d`.
fn push_digit(out: &mut String, d: u32)
    requires
        d < 10,
    ensures
        final(out)@ == old(out)@.push(digit_char(d as int)),
{
    proof {
        reveal_strlit("0");
        reveal_strlit("1");
        reveal_strlit("2");
        reveal_strlit("3");
        reveal_strlit("4");
        reveal_strlit("5");
        reveal_strlit("6");
        reveal_strlit("7");
        reveal_strlit("8");
        reveal_strlit("9");
    }
    let ghost before = out@;
    let digit: &str = if d == 0 {
        "0"
    } else if d == 1 {
        "1"
    } else if d == 2 {
        "2"
    } else if d == 3 {
        "3"
    } else if d == 4 {
        "4"
    } else if d == 5 {
        "5"
    } else if d == 6 {
        "6"
    } else if d == 7 {
        "7"
    } else if d == 8 {
        "8"
    } else {
        "9"
    };
    assert(digit@ =~= seq![digit_char(d as int)]);
    out.append(digit);
    assert(out@ =~= before.push(digit_char(d as int)));
}

/// Appends the decimal digits of `n`.
pub(crate) fn push_decimal(out: &mut String, n: u32)
    ensures
        final(out)@ == old(out)@ + decimal_digits(n as int),
    decreases n,
{
    let ghost before = out@;
    if n < 10 {
        push_digit(out, n);
        assert(out@ =~= before + decimal_digits(n as int));
    } else {
        push_decimal(out, n / 10);
        push_digit(out, n % 10);
        assert(out@ =~= before + decimal_digits(n as int));
    }
}

/// Appends the decimal spelling of `n`, with a minus sign where it is
/// negative.
pub(crate) fn push_signed(out: &mut String, n: i64)
    requires
        -(u32::MAX as int) <= n <= u32::MAX as int,
    ensures
        final(out)@ == old(out)@ + signed_decimal(n as int),
{
    let ghost before = out@;
    if n < 0 {
        proof {
            reveal_strlit("-");
        }
        out.append("-");
        push_decimal(out, (-n) as u32);
        assert(out@ =~= before + signed_decimal(n as int));
    } else {
        push_decimal(out, n as u32);
    }
}

} // verus!
