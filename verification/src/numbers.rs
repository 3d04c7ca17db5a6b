//! Whole numbers in decimal notation.

use vstd::prelude::*;

use crate::text::{is_digit, skip_chars};

verus! {

/// The value of a decimal digit.
pub open spec fn digit_value(c: char) -> nat {
    (c as u32 - '0' as u32) as nat
}

/// The digit for a number below ten.
pub open spec fn digit_char(n: nat) -> char {
    if n == 0 { '0' } else if n == 1 { '1' } else if n == 2 { '2' } else if n == 3 { '3' }
    else if n == 4 { '4' } else if n == 5 { '5' } else if n == 6 { '6' } else if n == 7 { '7' }
    else if n == 8 { '8' } else { '9' }
}

/// The number that a run of digits writes down.
pub open spec fn value_of(s: Seq<char>) -> nat
    decreases s.len(),
{
    if s.len() == 0 {
        0
    } else {
        value_of(s.drop_last()) * 10 + digit_value(s.last())
    }
}

/// Whether the text is a non-empty run of digits.
pub open spec fn all_digits(s: Seq<char>) -> bool {
    s.len() > 0 && forall|i: int| 0 <= i < s.len() ==> is_digit(#[trigger] s[i])
}

/// The number of at most `max` that the text writes down: digits, which a
/// single `+` may precede.
pub open spec fn parse_unsigned(s: Seq<char>, max: nat) -> Option<nat> {
    let digits = if s.len() > 0 && s[0] == '+' {
        s.skip(1)
    } else {
        s
    };
    if all_digits(digits) && value_of(digits) <= max {
        Some(value_of(digits))
    } else {
        None
    }
}

/// The decimal notation of a number.
pub open spec fn decimal(n: nat) -> Seq<char>
    decreases n,
{
    if n < 10 {
        seq![digit_char(n)]
    } else {
        decimal(n / 10).push(digit_char(n % 10))
    }
}

/// The decimal notation of a number, with a zero in front of a single digit.
pub open spec fn two_digits(n: nat) -> Seq<char> {
    if n < 10 {
        seq!['0', digit_char(n)]
    } else {
        decimal(n)
    }
}

/// The decimal notation of a number, with zeros in front up to four digits.
pub open spec fn four_digits(n: nat) -> Seq<char> {
    if n < 100 {
        seq!['0', '0'] + two_digits(n)
    } else if n < 1000 {
        seq!['0'] + decimal(n)
    } else {
        decimal(n)
    }
}

/// Reading a number's decimal notation gives the number back.
pub proof fn decimal_reads_back(n: nat, max: nat)
    requires
        n <= max,
    ensures
        parse_unsigned(decimal(n), max) == Some(n),
        all_digits(decimal(n)),
{
    decimal_value(n);
}

proof fn decimal_value(n: nat)
    ensures
        value_of(decimal(n)) == n,
        all_digits(decimal(n)),
        decimal(n)[0] != '+',
    decreases n,
{
    if n < 10 {
        let s = decimal(n);
        assert(s.drop_last() =~= Seq::empty());
        assert(s.last() == digit_char(n));
        assert(value_of(s.drop_last()) == 0);
    } else {
        decimal_value(n / 10);
        let s = decimal(n);
        assert(s.drop_last() =~= decimal(n / 10));
        assert forall|i: int| 0 <= i < s.len() implies is_digit(#[trigger] s[i]) by {
            if i < s.len() - 1 {
                assert(s[i] == decimal(n / 10)[i]);
            }
        }
        assert(s[0] == decimal(n / 10)[0]);
    }
}

/// Different numbers have different decimal notations.
pub proof fn decimal_is_injective(a: nat, b: nat)
    requires
        decimal(a) == decimal(b),
    ensures
        a == b,
{
    decimal_value(a);
    decimal_value(b);
}

/// Reading a two-digit notation gives the number back.
pub proof fn two_digits_read_back(n: nat, max: nat)
    requires
        n <= max,
    ensures
        parse_unsigned(two_digits(n), max) == Some(n),
        all_digits(two_digits(n)),
{
    decimal_value(n);
    if n < 10 {
        let s = two_digits(n);
        assert(s.drop_last() =~= seq!['0']);
        assert(s.drop_last().drop_last() =~= Seq::empty());
        assert(value_of(s.drop_last().drop_last()) == 0);
        assert(value_of(s.drop_last()) == 0);
    }
}

proof fn leading_zero(s: Seq<char>)
    ensures
        value_of(seq!['0'] + s) == value_of(s),
    decreases s.len(),
{
    let t = seq!['0'] + s;
    if s.len() == 0 {
        assert(t.drop_last() =~= Seq::empty());
        assert(value_of(t.drop_last()) == 0);
    } else {
        assert(t.drop_last() =~= seq!['0'] + s.drop_last());
        leading_zero(s.drop_last());
    }
}

/// Reading a four-digit notation gives the number back.
pub proof fn four_digits_read_back(n: nat, max: nat)
    requires
        n <= max,
    ensures
        parse_unsigned(four_digits(n), max) == Some(n),
        all_digits(four_digits(n)),
{
    decimal_value(n);
    if n < 100 {
        two_digits_read_back(n, max);
        assert(two_digits(n)[0] != '+');
        leading_zero(two_digits(n));
        leading_zero(seq!['0'] + two_digits(n));
        assert(four_digits(n) =~= seq!['0'] + (seq!['0'] + two_digits(n)));
    } else if n < 1000 {
        leading_zero(decimal(n));
    }
}

proof fn value_grows(s: Seq<char>, i: int)
    requires
        0 <= i <= s.len(),
    ensures
        value_of(s.take(i)) <= value_of(s),
    decreases s.len(),
{
    if i < s.len() {
        value_grows(s.drop_last(), i);
        assert(s.drop_last().take(i) =~= s.take(i));
    } else {
        assert(s.take(i) =~= s);
    }
}

/// Reads a number of at most `max`.
pub fn read_unsigned(s: &[char], max: u64) -> (r: Option<u64>)
    ensures
        match r {
            Some(n) => parse_unsigned(s@, max as nat) == Some(n as nat) && n <= max,
            None => parse_unsigned(s@, max as nat) is None,
        },
{
    let digits = if s.len() > 0 && s[0] == '+' {
        skip_chars(s, 1)
    } else {
        s
    };
    if digits.len() == 0 {
        return None;
    }
    let mut value: u64 = 0;
    let mut i: usize = 0;
    while i < digits.len()
        invariant
            i <= digits.len(),
            digits@ == (if s@.len() > 0 && s@[0] == '+' {
                s@.skip(1)
            } else {
                s@
            }),
            forall|j: int| 0 <= j < i ==> is_digit(#[trigger] digits@[j]),
            value == value_of(digits@.take(i as int)),
            value <= max,
        decreases digits.len() - i,
    {
        let c = digits[i];
        if !('0' <= c && c <= '9') {
            assert(!is_digit(digits@[i as int]));
            return None;
        }
        let d: u64 = (c as u32 - '0' as u32) as u64;
        assert(digits@.take(i + 1).drop_last() =~= digits@.take(i as int));
        proof {
            value_grows(digits@, i + 1);
        }
        if value > (u64::MAX - d) / 10 || value * 10 + d > max {
            return None;
        }
        value = value * 10 + d;
        i += 1;
    }
    assert(digits@.take(i as int) =~= digits@);
    Some(value)
}

/// Reads a `u32`.
pub fn read_u32(s: &[char]) -> (r: Option<u32>)
    ensures
        match r {
            Some(n) => parse_unsigned(s@, u32::MAX as nat) == Some(n as nat),
            None => parse_unsigned(s@, u32::MAX as nat) is None,
        },
{
    match read_unsigned(s, 0xffff_ffff) {
        Some(n) => Some(n as u32),
        None => None,
    }
}

fn digit_text(n: u64) -> (r: char)
    requires
        n < 10,
    ensures
        r == digit_char(n as nat),
{
    if n == 0 { '0' } else if n == 1 { '1' } else if n == 2 { '2' } else if n == 3 { '3' }
    else if n == 4 { '4' } else if n == 5 { '5' } else if n == 6 { '6' } else if n == 7 { '7' }
    else if n == 8 { '8' } else { '9' }
}

/// Writes a number in decimal notation.
pub fn write_decimal(n: u64) -> (r: String)
    ensures
        r@ == decimal(n as nat),
    decreases n,
{
    if n < 10 {
        let mut out = String::new();
        out.push(digit_text(n));
        assert(out@ =~= seq![digit_char(n as nat)]);
        out
    } else {
        let mut out = write_decimal(n / 10);
        out.push(digit_text(n % 10));
        out
    }
}

/// Writes a number with zeros in front up to four digits.
pub fn write_four_digits(n: u64) -> (r: String)
    ensures
        r@ == four_digits(n as nat),
{
    let mut out = String::new();
    if n < 100 {
        out.push('0');
        out.push('0');
        out.append(write_two_digits(n).as_str());
    } else if n < 1000 {
        out.push('0');
        out.append(write_decimal(n).as_str());
    } else {
        out.append(write_decimal(n).as_str());
    }
    assert(out@ =~= four_digits(n as nat));
    out
}

/// Writes a number with a zero in front of a single digit.
pub fn write_two_digits(n: u64) -> (r: String)
    ensures
        r@ == two_digits(n as nat),
{
    if n < 10 {
        let mut out = String::new();
        out.push('0');
        out.push(digit_text(n));
        assert(out@ =~= seq!['0', digit_char(n as nat)]);
        out
    } else {
        write_decimal(n)
    }
}

/// Each digit counts ten times as much as the one behind it.
pub proof fn digits_count_tenfold(s: Seq<char>, c: char)
    ensures
        value_of(Seq::empty()) == 0,
        '0' <= c <= '9' ==> value_of(s.push(c)) == 10 * value_of(s) + (c as u32 - '0' as u32),
{
    assert(s.push(c).drop_last() =~= s);
}

/// What is written is read again, and different numbers are written differently.
pub proof fn numbers_are_read_as_they_are_written(
    n: u64,
    m: u64,
    text: String,
    other: String,
    chars: &[char],
    r: Option<u64>,
)
    requires
        call_ensures(write_decimal, (n,), text),
        call_ensures(write_decimal, (m,), other),
        chars@ == text@,
        call_ensures(read_unsigned, (chars, u64::MAX), r),
    ensures
        r == Some(n),
        text@ == other@ ==> n == m,
        n < 10 ==> text@.len() == 1,
        n > 0 ==> text@[0] != '0',
{
    decimal_reads_back(n as nat, u64::MAX as nat);
    if text@ == other@ {
        decimal_is_injective(n as nat, m as nat);
    }
    if n > 0 {
        first_digit_counts(n as nat);
    }
}

proof fn first_digit_counts(n: nat)
    requires
        n > 0,
    ensures
        decimal(n).len() > 0,
        decimal(n)[0] != '0',
    decreases n,
{
    if n >= 10 {
        first_digit_counts(n / 10);
        assert(decimal(n)[0] == decimal(n / 10)[0]);
    }
}

} // verus!
