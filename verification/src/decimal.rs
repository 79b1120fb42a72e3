//! Integers in decimal notation.

use vstd::arithmetic::div_mod;
use vstd::arithmetic::power;
use vstd::prelude::*;

verus! {

/// The character of a decimal digit.
pub open spec fn digit_char(digit: int) -> char
    recommends
        0 <= digit < 10,
{
    ('0' as int + digit) as char
}

/// The decimal notation of a natural number: no leading zeros, and `0` for
/// zero.
pub open spec fn decimal_nat(n: nat) -> Seq<char>
    decreases n,
{
    if n < 10 {
        seq![digit_char(n as int)]
    } else {
        decimal_nat(n / 10).push(digit_char((n % 10) as int))
    }
}

/// The decimal notation of an integer: negative numbers carry a leading `-`,
/// others no sign.
pub open spec fn decimal_int(i: int) -> Seq<char> {
    if i < 0 {
        seq!['-'] + decimal_nat((-i) as nat)
    } else {
        decimal_nat(i as nat)
    }
}

/// A decimal digit as a string.
fn digit(d: u8) -> (s: &'static str)
    requires
        d < 10,
    ensures
        s@ == seq![digit_char(d as int)],
{
    proof {
        reveal_strlit("0");
        reveal_strlit("1");
        reveal_strlit("2");
        reveal_strlit("3");
        reveal_strlit("4");
        reveal_strlit("5");
        reveal_strlit("6");
        reveal_strlit("7");
        reveal_strlit("8");
        reveal_strlit("9");
    }
    match d {
        0 => "0",
        1 => "1",
        2 => "2",
        3 => "3",
        4 => "4",
        5 => "5",
        6 => "6",
        7 => "7",
        8 => "8",
        _ => "9",
    }
}

/// Appends the decimal notation of `n` to `out`.
pub fn append_u128(out: &mut String, n: u128)
    ensures
        final(out)@ == old(out)@ + decimal_nat(n as nat),
    decreases n,
{
    if n >= 10 {
        append_u128(out, n / 10);
    }
    out.append(digit((n % 10) as u8));
}

/// Appends the decimal notation of `i` to `out`.
pub fn append_i128(out: &mut String, i: i128)
    ensures
        final(out)@ == old(out)@ + decimal_int(i as int),
{
    if i < 0 {
        proof {
            reveal_strlit("-");
        }
        out.append("-");
        // `-i` itself is out of range for the least value.
        append_u128(out, (-(i + 1)) as u128 + 1);
    } else {
        append_u128(out, i as u128);
    }
}

/// The number that a sequence of digits stands for.
pub open spec fn digits_value(digits: Seq<char>) -> int
    decreases digits.len(),
{
    if digits.len() == 0 {
        0
    } else {
        10 * digits_value(digits.drop_last()) + (digits.last() as int - '0' as int)
    }
}

/// Whether a character is a decimal digit.
pub open spec fn is_digit(c: char) -> bool {
    '0' <= c <= '9'
}

/// The decimal notation of a natural number consists of digits, starts with a
/// zero only where it is `0`, and stands for that number.
pub proof fn law_decimal_nat_reads_back(n: nat)
    ensures
        decimal_nat(n).len() > 0,
        forall|i: int| 0 <= i < decimal_nat(n).len() ==> is_digit(#[trigger] decimal_nat(n)[i]),
        decimal_nat(n)[0] == '0' ==> decimal_nat(n) == seq!['0'],
        digits_value(decimal_nat(n)) == n,
    decreases n,
{
    reveal_with_fuel(digits_value, 2);
    if n >= 10 {
        law_decimal_nat_reads_back(n / 10);
        assert(decimal_nat(n).drop_last() == decimal_nat(n / 10));
        assert(decimal_nat(0) == seq!['0']);
        if decimal_nat(n)[0] == '0' {
            assert(decimal_nat(n / 10) == seq!['0']);
            assert(digits_value(seq!['0']) == 0);
        }
    }
}

/// The digit at the `k`-th place from the right, counted from zero, says how
/// many times the `k`-th power of ten is left over from the next higher one.
pub proof fn law_decimal_nat_digit_at(n: nat, k: nat)
    requires
        k < decimal_nat(n).len(),
    ensures
        decimal_nat(n)[decimal_nat(n).len() - 1 - k] as int == '0' as int + (n as int / power::pow(
            10,
            k,
        )) % 10,
    decreases n,
{
    if k == 0 {
        power::lemma_pow0(10);
    } else {
        let rest = (k - 1) as nat;
        law_decimal_nat_digit_at(n / 10, rest);
        power::lemma_pow_positive(10, rest);
        power::lemma_pow1(10);
        power::lemma_pow_adds(10, 1, rest);
        div_mod::lemma_div_denominator(n as int, 10, power::pow(10, rest));
    }
}

/// A positive number has as many digits as it takes powers of ten to pass it;
/// zero has one digit.
pub proof fn law_decimal_nat_length(n: nat)
    ensures
        decimal_nat(n).len() >= 1,
        n == 0 ==> decimal_nat(n).len() == 1,
        n > 0 ==> power::pow(10, (decimal_nat(n).len() - 1) as nat) <= n < power::pow(
            10,
            decimal_nat(n).len(),
        ),
    decreases n,
{
    power::lemma_pow0(10);
    power::lemma_pow1(10);
    if n >= 10 {
        law_decimal_nat_length(n / 10);
        let shorter = decimal_nat(n / 10).len();
        power::lemma_pow_adds(10, 1, (shorter - 1) as nat);
        power::lemma_pow_adds(10, 1, shorter);
    }
}

/// A number that is not negative is written as its digits alone, and a negative
/// one as a minus sign and the digits of its magnitude.
pub proof fn law_decimal_int_sign(i: int)
    ensures
        i >= 0 ==> decimal_int(i) == decimal_nat(i as nat),
        i < 0 ==> decimal_int(i).len() > 0 && decimal_int(i)[0] == '-' && decimal_int(i).skip(1)
            == decimal_nat((-i) as nat),
{
}

/// Two integers with the same decimal notation are the same.
pub proof fn law_decimal_int_is_injective(a: int, b: int)
    requires
        decimal_int(a) == decimal_int(b),
    ensures
        a == b,
{
    let magnitude_a: nat = if a < 0 { (-a) as nat } else { a as nat };
    let magnitude_b: nat = if b < 0 { (-b) as nat } else { b as nat };
    law_decimal_nat_reads_back(magnitude_a);
    law_decimal_nat_reads_back(magnitude_b);
    if a < 0 {
        assert(decimal_int(a)[0] == '-');
        assert(decimal_int(a).skip(1) == decimal_nat(magnitude_a));
    }
    if b < 0 {
        assert(decimal_int(b)[0] == '-');
        assert(decimal_int(b).skip(1) == decimal_nat(magnitude_b));
    }
}

} // verus!
