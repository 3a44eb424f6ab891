//! Numbers as the tool writes them, and the whole percent that they give.
//!
//! A number is written as a decimal literal: an optional sign; digits with
//! an optional dot among them; an optional exponent, the letter `e` or `E`
//! followed by an optional sign and digits. Words that stand for no number
//! or for infinity are no numbers. What a literal is worth is taken exactly,
//! by moving the dot; nothing is rounded.

use crate::numbers::{all_digits, at_most, digits_capped, digits_value, is_digit};
use crate::text::{find_char, index_of_from, push_all, slice};
use vstd::prelude::*;

verus! {

/// The digits of `t` before its first dot.
pub open spec fn whole_part(t: Seq<char>) -> Seq<char> {
    t.subrange(0, index_of_from(t, '.', 0))
}

/// The digits of `t` after its first dot; empty where it has none.
pub open spec fn fraction_part(t: Seq<char>) -> Seq<char> {
    let dot = index_of_from(t, '.', 0);
    if dot < t.len() {
        t.subrange(dot + 1, t.len() as int)
    } else {
        Seq::empty()
    }
}

/// A plain decimal number: digits, optionally a dot and more digits, with at
/// least one digit in all.
pub open spec fn is_decimal(t: Seq<char>) -> bool {
    &&& all_digits(whole_part(t))
    &&& all_digits(fraction_part(t))
    &&& whole_part(t).len() + fraction_part(t).len() > 0
}

/// Whether `s` is a plain decimal number.
pub fn decimal(s: &Vec<char>) -> (r: bool)
    ensures
        r == is_decimal(s@),
{
    let n: usize = s.len();
    let dot: usize = find_char(s, '.', 0);
    let mut i: usize = 0;
    while i < n
        invariant
            i <= n,
            n == s.len(),
            dot == index_of_from(s@, '.', 0),
            dot <= n,
            forall|j: int| 0 <= j < i && j != dot ==> is_digit(#[trigger] s@[j]),
        decreases n - i,
    {
        let c = s[i];
        if i != dot && !('0' <= c && c <= '9') {
            proof {
                if i < dot {
                    assert(whole_part(s@)[i as int] == s@[i as int]);
                } else {
                    assert(fraction_part(s@)[i - dot - 1] == s@[i as int]);
                }
            }
            return false;
        }
        i += 1;
    }
    assert(all_digits(whole_part(s@)));
    assert(all_digits(fraction_part(s@)));
    if dot < n {
        n > 1
    } else {
        n > 0
    }
}

/// `t` begins with a sign.
pub open spec fn is_signed(t: Seq<char>) -> bool {
    t.len() > 0 && (t[0] == '+' || t[0] == '-')
}

/// `t` begins with a minus sign.
pub open spec fn is_negative(t: Seq<char>) -> bool {
    t.len() > 0 && t[0] == '-'
}

/// `t` without the sign that it may begin with.
pub open spec fn unsigned_part(t: Seq<char>) -> Seq<char> {
    if is_signed(t) {
        t.subrange(1, t.len() as int)
    } else {
        t
    }
}

/// `t` without the sign that it may begin with.
fn unsigned(t: &Vec<char>) -> (r: Vec<char>)
    ensures
        r@ == unsigned_part(t@),
{
    let n: usize = t.len();
    if n > 0 && (t[0] == '+' || t[0] == '-') {
        slice(t, 1, n)
    } else {
        let r = slice(t, 0, n);
        assert(t@.subrange(0, n as int) =~= t@);
        r
    }
}

/// The index of the first `e` or `E` in `u` at or after `from`; `u.len()`
/// when there is none.
pub open spec fn exponent_mark(u: Seq<char>, from: int) -> int
    decreases u.len() - from,
{
    if from < 0 || from >= u.len() {
        u.len() as int
    } else if u[from] == 'e' || u[from] == 'E' {
        from
    } else {
        exponent_mark(u, from + 1)
    }
}

/// The part of `u` before its exponent.
pub open spec fn mantissa_of(u: Seq<char>) -> Seq<char> {
    u.subrange(0, exponent_mark(u, 0))
}

/// `u` has an exponent.
pub open spec fn has_exponent(u: Seq<char>) -> bool {
    exponent_mark(u, 0) < u.len()
}

/// The exponent of `u`, sign included, without the letter before it; empty
/// where `u` has none.
pub open spec fn exponent_of(u: Seq<char>) -> Seq<char> {
    if has_exponent(u) {
        u.subrange(exponent_mark(u, 0) + 1, u.len() as int)
    } else {
        Seq::empty()
    }
}

/// Digits, at least one, behind an optional sign.
pub open spec fn is_signed_digits(x: Seq<char>) -> bool {
    unsigned_part(x).len() > 0 && all_digits(unsigned_part(x))
}

/// A plain decimal number, with or without an exponent.
pub open spec fn is_number(u: Seq<char>) -> bool {
    is_decimal(mantissa_of(u)) && (has_exponent(u) ==> is_signed_digits(exponent_of(u)))
}

/// A number as the tool may write it: a plain decimal number, with or
/// without an exponent, behind an optional sign.
pub open spec fn is_float_literal(t: Seq<char>) -> bool {
    is_number(unsigned_part(t))
}

fn find_exponent(u: &Vec<char>) -> (r: usize)
    ensures
        r == exponent_mark(u@, 0),
        r <= u.len(),
{
    let mut i: usize = 0;
    while i < u.len() && u[i] != 'e' && u[i] != 'E'
        invariant
            i <= u.len(),
            exponent_mark(u@, 0) == exponent_mark(u@, i as int),
        decreases u.len() - i,
    {
        i += 1;
    }
    i
}

fn all_digit_chars(s: &Vec<char>) -> (r: bool)
    ensures
        r == all_digits(s@),
{
    let mut i: usize = 0;
    while i < s.len()
        invariant
            i <= s.len(),
            forall|j: int| 0 <= j < i ==> is_digit(#[trigger] s@[j]),
        decreases s.len() - i,
    {
        let c = s[i];
        if !('0' <= c && c <= '9') {
            return false;
        }
        i += 1;
    }
    true
}

fn number(u: &Vec<char>) -> (r: bool)
    ensures
        r == is_number(u@),
{
    let mark: usize = find_exponent(u);
    let mantissa = slice(u, 0, mark);
    if !decimal(&mantissa) {
        return false;
    }
    if mark < u.len() {
        let exponent = slice(u, mark + 1, u.len());
        let digits = unsigned(&exponent);
        digits.len() > 0 && all_digit_chars(&digits)
    } else {
        true
    }
}

/// Whether `s` is a number as the tool may write it.
pub fn float_literal(s: &Vec<char>) -> (r: bool)
    ensures
        r == is_float_literal(s@),
{
    let u = unsigned(s);
    number(&u)
}

/// What the exponent of `u` is worth; nothing where `u` has none.
pub open spec fn exponent_value(u: Seq<char>) -> int {
    let x = exponent_of(u);
    if is_negative(x) {
        -(digits_value(unsigned_part(x)) as int)
    } else {
        digits_value(unsigned_part(x)) as int
    }
}

/// `n` zeros.
pub open spec fn zeros(n: nat) -> Seq<char> {
    Seq::new(n, |i: int| '0')
}

/// The digits of the number `u` that stand before the dot once the dot has
/// been moved by the exponent: to the right for a positive exponent, with
/// zeros filled in where the digits run out, and to the left for a negative
/// one.
pub open spec fn shifted_whole(u: Seq<char>) -> Seq<char> {
    let digits = whole_part(mantissa_of(u)) + fraction_part(mantissa_of(u));
    let point = whole_part(mantissa_of(u)).len() + exponent_value(u);
    if point <= 0 {
        Seq::empty()
    } else if point <= digits.len() {
        digits.subrange(0, point)
    } else {
        digits + zeros((point - digits.len()) as nat)
    }
}

/// The whole number of percent that `t` gives, between 0 and 100: nothing
/// for text that writes no number and for a number with a minus sign; else
/// the number before the dot, or one hundred if that is more.
pub open spec fn whole_percent_of(t: Seq<char>) -> nat {
    if !is_float_literal(t) || is_negative(t) {
        0
    } else {
        at_most(digits_value(shifted_whole(unsigned_part(t))), 100)
    }
}

/// The number `t` is at least one hundred.
pub open spec fn reaches_hundred(t: Seq<char>) -> bool {
    whole_percent_of(t) == 100
}

/// What a number capped at one hundred becomes when `n` zeros are written
/// behind it.
pub open spec fn padded(capped: nat, n: nat) -> nat
    decreases n,
{
    if n == 0 {
        capped
    } else {
        at_most(padded(capped, (n - 1) as nat) * 10, 100)
    }
}

/// Writing zeros behind digits multiplies by ten each time, and two zeros
/// do as much to a number capped at one hundred as any more.
proof fn lemma_padded(digits: Seq<char>, n: nat)
    ensures
        at_most(digits_value(digits + zeros(n)), 100) == padded(
            at_most(digits_value(digits), 100),
            n,
        ),
        n >= 2 ==> padded(at_most(digits_value(digits), 100), n) == padded(
            at_most(digits_value(digits), 100),
            2,
        ),
    decreases n,
{
    let capped = at_most(digits_value(digits), 100);
    if n == 0 {
        assert(digits + zeros(0) =~= digits);
    } else {
        lemma_padded(digits, (n - 1) as nat);
        let longer = digits + zeros(n);
        assert(longer.drop_last() =~= digits + zeros((n - 1) as nat));
        assert(longer.last() == '0');
        assert(padded(capped, 1) == at_most(padded(capped, 0) * 10, 100));
        assert(padded(capped, 2) == at_most(padded(capped, 1) * 10, 100));
    }
}

/// The empty text writes no number.
pub proof fn lemma_empty_is_no_number()
    ensures
        !is_float_literal(Seq::<char>::empty()),
{
    let none = Seq::<char>::empty();
    assert(unsigned_part(none) == none);
    assert(exponent_mark(none, 0) == 0);
    assert(mantissa_of(none) =~= none);
    assert(index_of_from(none, '.', 0) == 0);
    assert(whole_part(none).len() == 0);
    assert(fraction_part(none).len() == 0);
}

/// An exponent is read exactly up to this number, which is more than any
/// text has characters.
pub const EXPONENT_CAP: u128 = 1_000_000_000_000_000_000_000_000;

/// The whole number of percent that `s` gives.
pub fn whole_percent_in(s: &Vec<char>) -> (r: u8)
    ensures
        r == whole_percent_of(s@),
        r <= 100,
{
    if !float_literal(s) {
        return 0;
    }
    let u = unsigned(s);
    if s.len() > 0 && s[0] == '-' {
        return 0;
    }
    let mark: usize = find_exponent(&u);
    let mantissa = slice(&u, 0, mark);
    let dot: usize = find_char(&mantissa, '.', 0);
    let mut digits = slice(&mantissa, 0, dot);
    let whole_len: usize = dot;
    let mut fraction_len: usize = 0;
    if dot < mantissa.len() {
        let fraction = slice(&mantissa, dot + 1, mantissa.len());
        fraction_len = fraction.len();
        push_all(&mut digits, &fraction);
    }
    assert(digits@ =~= whole_part(mantissa@) + fraction_part(mantissa@));
    assert(all_digits(digits@)) by {
        assert forall|i: int| 0 <= i < digits@.len() implies is_digit(#[trigger] digits@[i]) by {
            if i < whole_len {
                assert(digits@[i] == whole_part(mantissa@)[i]);
            } else {
                assert(digits@[i] == fraction_part(mantissa@)[i - whole_len]);
            }
        }
    }
    let mut downward: bool = false;
    let mut exponent: u128 = 0;
    if mark < u.len() {
        let written = slice(&u, mark + 1, u.len());
        downward = written.len() > 0 && written[0] == '-';
        let exponent_digits = unsigned(&written);
        assert(exponent_digits@.subrange(0, exponent_digits@.len() as int) =~= exponent_digits@);
        exponent = digits_capped(&exponent_digits, 0, exponent_digits.len(), EXPONENT_CAP);
    } else {
        assert(digits_value(unsigned_part(exponent_of(u@))) == 0);
    }
    let ghost worth = digits_value(unsigned_part(exponent_of(u@)));
    assert(exponent == at_most(worth, EXPONENT_CAP as nat));
    assert(downward == is_negative(exponent_of(u@)));
    let ghost point = whole_len + exponent_value(u@);
    let total: usize = digits.len();
    let capped: u128 = if downward {
        if exponent >= whole_len as u128 {
            0
        } else {
            let stop: usize = whole_len - exponent as usize;
            assert(stop == point);
            digits_capped(&digits, 0, stop, 100)
        }
    } else if exponent <= fraction_len as u128 {
        let stop: usize = whole_len + exponent as usize;
        assert(stop == point);
        let r = digits_capped(&digits, 0, stop, 100);
        assert(stop == 0 ==> digits@.subrange(0, 0) =~= Seq::<char>::empty());
        r
    } else {
        let all = digits_capped(&digits, 0, total, 100);
        assert(digits@.subrange(0, total as int) =~= digits@);
        let once: u128 = if all * 10 > 100 {
            100
        } else {
            all * 10
        };
        proof {
            lemma_padded(digits@, (point - total) as nat);
            assert(padded(all as nat, 1) == at_most(padded(all as nat, 0) * 10, 100));
            assert(padded(all as nat, 2) == at_most(padded(all as nat, 1) * 10, 100));
        }
        if exponent - fraction_len as u128 >= 2 {
            if once * 10 > 100 {
                100
            } else {
                once * 10
            }
        } else {
            once
        }
    };
    capped as u8
}

} // verus!
