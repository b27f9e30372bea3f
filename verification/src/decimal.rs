//! Decimal rendering of natural numbers.

use vstd::prelude::*;

verus! {

/// The character that stands for the digit `d`, for `d` below ten.
pub open spec fn digit_char(d: nat) -> char {
    if d == 0 {
        '0'
    } else if d == 1 {
        '1'
    } else if d == 2 {
        '2'
    } else if d == 3 {
        '3'
    } else if d == 4 {
        '4'
    } else if d == 5 {
        '5'
    } else if d == 6 {
        '6'
    } else if d == 7 {
        '7'
    } else if d == 8 {
        '8'
    } else {
        '9'
    }
}

/// The decimal numeral of `n`: its digits, most significant first, with no
/// leading zero (zero itself is the single digit `0`).
pub open spec fn decimal(n: nat) -> Seq<char>
    decreases n,
{
    if n < 10 {
        seq![digit_char(n)]
    } else {
        decimal(n / 10).push(digit_char(n % 10))
    }
}

/// The numeral of `n` at least two characters wide: a single digit gets a
/// zero in front, anything longer stands as it is.
pub open spec fn two_digit(n: nat) -> Seq<char> {
    if n < 10 {
        seq!['0', digit_char(n)]
    } else {
        decimal(n)
    }
}

/// The digit that `c` stands for; zero for any other character.
pub open spec fn digit_value(c: char) -> nat {
    if c == '1' {
        1
    } else if c == '2' {
        2
    } else if c == '3' {
        3
    } else if c == '4' {
        4
    } else if c == '5' {
        5
    } else if c == '6' {
        6
    } else if c == '7' {
        7
    } else if c == '8' {
        8
    } else if c == '9' {
        9
    } else {
        0
    }
}

/// The number that a string of digits denotes, read most significant first.
pub open spec fn numeral_value(digits: Seq<char>) -> nat
    decreases digits.len(),
{
    if digits.len() == 0 {
        0
    } else {
        numeral_value(digits.drop_last()) * 10 + digit_value(digits.last())
    }
}

/// Reading a numeral back gives the number it was written for, so two
/// different numbers never share a numeral.
pub proof fn decimal_denotes(n: nat)
    ensures
        numeral_value(decimal(n)) == n,
    decreases n,
{
    if n < 10 {
        let one = seq![digit_char(n)];
        assert(one.drop_last() =~= Seq::<char>::empty());
        assert(numeral_value(one.drop_last()) == 0);
    } else {
        decimal_denotes(n / 10);
        let all = decimal(n / 10).push(digit_char(n % 10));
        assert(all.drop_last() =~= decimal(n / 10));
    }
}

/// A numeral is never empty, and it begins with a zero only when the number
/// is zero: nothing is padded.
pub proof fn decimal_has_no_leading_zero(n: nat)
    ensures
        decimal(n).len() >= 1,
        decimal(n)[0] == '0' <==> n == 0,
    decreases n,
{
    if n >= 10 {
        decimal_has_no_leading_zero(n / 10);
    }
}

/// Below one hundred the two-character form is exactly the tens digit and
/// the ones digit.
pub proof fn two_digit_is_tens_then_ones(n: nat)
    requires
        n < 100,
    ensures
        two_digit(n) == seq![digit_char(n / 10), digit_char(n % 10)],
{
    if n >= 10 {
        assert(decimal(n) =~= seq![digit_char(n / 10), digit_char(n % 10)]) by {
            reveal_with_fuel(decimal, 2);
        }
    } else {
        assert(two_digit(n) =~= seq![digit_char(n / 10), digit_char(n % 10)]);
    }
}

/// The one-character string of a digit.
fn digit_str(d: u8) -> (text: &'static str)
    requires
        d < 10,
    ensures
        text@ == seq![digit_char(d as nat)],
{
    proof {
        reveal_strlit("0");
        reveal_strlit("1");
        reveal_strlit("2");
        reveal_strlit("3");
        reveal_strlit("4");
        reveal_strlit("5");
        reveal_strlit("6");
        reveal_strlit("7");
        reveal_strlit("8");
        reveal_strlit("9");
    }
    let text: &'static str = match d {
        0 => "0",
        1 => "1",
        2 => "2",
        3 => "3",
        4 => "4",
        5 => "5",
        6 => "6",
        7 => "7",
        8 => "8",
        _ => "9",
    };
    assert(text@ =~= seq![digit_char(d as nat)]);
    text
}

/// Appends the decimal numeral of `n` to `text`.
pub fn append_decimal(text: &mut String, n: u64)
    ensures
        final(text)@ == old(text)@ + decimal(n as nat),
    decreases n,
{
    if n >= 10 {
        append_decimal(text, n / 10);
    }
    let last: u8 = (n % 10) as u8;
    text.append(digit_str(last));
    assert(text@ =~= old(text)@ + decimal(n as nat));
}

/// Appends the numeral of `n`, at least two characters wide, to `text`.
pub fn append_two_digit(text: &mut String, n: u64)
    ensures
        final(text)@ == old(text)@ + two_digit(n as nat),
{
    if n < 10 {
        text.append(digit_str(0));
    }
    append_decimal(text, n);
    assert(text@ =~= old(text)@ + two_digit(n as nat));
}

} // verus!
