//! Decimal digits: the numbers they write, and the digits that write a number.

use vstd::prelude::*;

verus! {

/// The ten decimal digits.
pub open spec fn is_digit(c: char) -> bool {
    '0' <= c <= '9'
}

/// Every character of `s` is a decimal digit.
pub open spec fn all_digits(s: Seq<char>) -> bool {
    forall|i: int| 0 <= i < s.len() ==> is_digit(#[trigger] s[i])
}

/// The number that a run of digits writes.
pub open spec fn digits_value(s: Seq<char>) -> nat
    decreases s.len(),
{
    if s.len() == 0 {
        0
    } else {
        digits_value(s.drop_last()) * 10 + (s.last() as nat - '0' as nat) as nat
    }
}

/// The smaller of two numbers.
pub open spec fn at_most(n: nat, cap: nat) -> nat {
    if n < cap {
        n
    } else {
        cap
    }
}

/// The number that the digits of `s` from `from` up to `to` write, or `cap`
/// if that number is larger.
pub(crate) fn digits_capped(s: &Vec<char>, from: usize, to: usize, cap: u128) -> (r: u128)
    requires
        from <= to <= s.len(),
        all_digits(s@.subrange(from as int, to as int)),
        cap <= 1_000_000_000_000_000_000_000_000_000_000,
    ensures
        r == at_most(digits_value(s@.subrange(from as int, to as int)), cap as nat),
{
    let ghost run = s@.subrange(from as int, to as int);
    let mut capped: u128 = 0;
    let mut i: usize = from;
    assert(run.take(0) =~= Seq::<char>::empty());
    while i < to
        invariant
            from <= i <= to <= s.len(),
            run == s@.subrange(from as int, to as int),
            all_digits(run),
            cap <= 1_000_000_000_000_000_000_000_000_000_000,
            capped == at_most(digits_value(run.take(i - from)), cap as nat),
        decreases to - i,
    {
        let c = s[i];
        assert(run[i - from] == c);
        assert(is_digit(run[i - from]));
        assert(run.take(i - from + 1).drop_last() =~= run.take(i - from));
        assert(run.take(i - from + 1).last() == c);
        let d: u128 = (c as u32 - '0' as u32) as u128;
        let next: u128 = capped * 10 + d;
        capped = if next > cap {
            cap
        } else {
            next
        };
        i += 1;
    }
    assert(run.take(to - from) =~= run);
    capped
}

/// The character that writes the digit `d`.
pub open spec fn digit_char(d: nat) -> char {
    ('0' as nat + d) as char
}

/// The decimal digits of `n`, without leading zeros.
pub open spec fn digits_of(n: nat) -> Seq<char>
    decreases n,
{
    if n < 10 {
        seq![digit_char(n)]
    } else {
        digits_of(n / 10).push(digit_char(n % 10))
    }
}

/// The digits of a number are digits, and write that number.
pub proof fn lemma_digits_of(n: nat)
    ensures
        digits_of(n).len() > 0,
        all_digits(digits_of(n)),
        digits_value(digits_of(n)) == n,
    decreases n,
{
    let ds = digits_of(n);
    if n < 10 {
        assert(ds.drop_last() =~= Seq::<char>::empty());
        assert(digits_value(ds.drop_last()) == 0);
    } else {
        lemma_digits_of(n / 10);
        assert(ds.drop_last() =~= digits_of(n / 10));
        assert(ds.last() == digit_char(n % 10));
    }
}

/// Appends the decimal digits of `n` to `out`.
pub fn push_decimal(out: &mut Vec<char>, n: u64)
    ensures
        final(out)@ == old(out)@ + digits_of(n as nat),
    decreases n,
{
    if n >= 10 {
        push_decimal(out, n / 10);
    }
    let d: u8 = (n % 10) as u8;
    let c: char = (48u8 + d) as char;
    out.push(c);
    assert(c == digit_char((n % 10) as nat));
    assert(out@ =~= old(out)@ + digits_of(n as nat));
}

/// A decimal integer that fits in 32 bits with a sign: an optional `+` or `-`,
/// then at least one digit, the number written being at most 2147483647, or
/// 2147483648 after a `-`.
pub open spec fn is_i32_literal(s: Seq<char>) -> bool {
    let signed = s.len() > 0 && (s[0] == '+' || s[0] == '-');
    let digits = if signed {
        s.subrange(1, s.len() as int)
    } else {
        s
    };
    let limit: nat = if s.len() > 0 && s[0] == '-' {
        2147483648
    } else {
        2147483647
    };
    digits.len() > 0 && all_digits(digits) && digits_value(digits) <= limit
}

/// Whether `s` is a decimal integer that fits in 32 bits with a sign.
pub fn i32_literal(s: &Vec<char>) -> (r: bool)
    ensures
        r == is_i32_literal(s@),
{
    let n: usize = s.len();
    let signed: bool = n > 0 && (s[0] == '+' || s[0] == '-');
    let start: usize = if signed {
        1
    } else {
        0
    };
    let limit: u128 = if n > 0 && s[0] == '-' {
        2147483648
    } else {
        2147483647
    };
    assert(s@.subrange(0, n as int) =~= s@);
    if start == n {
        return false;
    }
    let mut i: usize = start;
    while i < n
        invariant
            start <= i <= n,
            n == s.len(),
            signed == (n > 0 && (s@[0] == '+' || s@[0] == '-')),
            start == if signed {
                1usize
            } else {
                0usize
            },
            forall|j: int| start <= j < i ==> is_digit(#[trigger] s@[j]),
        decreases n - i,
    {
        let c = s[i];
        if !('0' <= c && c <= '9') {
            assert(s@.subrange(start as int, n as int)[i - start] == c);
            assert(s@[i as int] == c);
            return false;
        }
        i += 1;
    }
    assert(all_digits(s@.subrange(start as int, n as int)));
    digits_capped(s, start, n, limit + 1) <= limit
}

} // verus!
