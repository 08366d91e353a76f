//! Integers written out in decimal digits, as they appear in error messages.

use vstd::prelude::*;
use vstd::string::StringExecFns;

verus! {

/// The character for a digit from 0 to 9.
pub open spec fn digit_char(digit: nat) -> char {
    if digit == 0 {
        '0'
    } else if digit == 1 {
        '1'
    } else if digit == 2 {
        '2'
    } else if digit == 3 {
        '3'
    } else if digit == 4 {
        '4'
    } else if digit == 5 {
        '5'
    } else if digit == 6 {
        '6'
    } else if digit == 7 {
        '7'
    } else if digit == 8 {
        '8'
    } else {
        '9'
    }
}

/// The digits of a natural number, the most significant first. Zero is "0",
/// and no other number starts with a zero.
pub open spec fn decimal_digits(value: nat) -> Seq<char>
    decreases value,
{
    if value < 10 {
        seq![digit_char(value)]
    } else {
        decimal_digits(value / 10).push(digit_char(value % 10))
    }
}

/// An integer in decimal, with a minus sign in front of a negative one.
pub open spec fn decimal(value: int) -> Seq<char> {
    if value < 0 {
        seq!['-'] + decimal_digits((-value) as nat)
    } else {
        decimal_digits(value as nat)
    }
}

/// The digit that a character stands for; 0 for a character that is no digit.
pub open spec fn digit_value(digit: char) -> nat {
    if digit == '1' {
        1
    } else if digit == '2' {
        2
    } else if digit == '3' {
        3
    } else if digit == '4' {
        4
    } else if digit == '5' {
        5
    } else if digit == '6' {
        6
    } else if digit == '7' {
        7
    } else if digit == '8' {
        8
    } else if digit == '9' {
        9
    } else {
        0
    }
}

/// The natural number that a sequence of digits writes.
pub open spec fn digits_value(digits: Seq<char>) -> nat
    decreases digits.len(),
{
    if digits.len() == 0 {
        0
    } else {
        digits_value(digits.drop_last()) * 10 + digit_value(digits.last())
    }
}

/// The integer that a text in decimal writes.
pub open spec fn decimal_value(text: Seq<char>) -> int {
    if text.len() > 0 && text[0] == '-' {
        -(digits_value(text.skip(1)) as int)
    } else {
        digits_value(text) as int
    }
}

/// The digits of a number write that number, and they start with a digit.
pub proof fn lemma_digits_value(value: nat)
    ensures
        digits_value(decimal_digits(value)) == value,
        decimal_digits(value).len() > 0,
        decimal_digits(value)[0] != '-',
    decreases value,
{
    let digits = decimal_digits(value);
    if value >= 10 {
        let front = decimal_digits(value / 10);
        lemma_digits_value(value / 10);
        assert(digits.drop_last() =~= front);
        assert(digits.last() == digit_char(value % 10));
        assert(digits[0] == front[0]);
    } else {
        assert(digits.drop_last() =~= Seq::<char>::empty());
        assert(digits.last() == digit_char(value));
        assert(digits_value(digits.drop_last()) == 0);
    }
}

/// An integer can be read back from its decimal text.
pub proof fn lemma_decimal_value(value: int)
    ensures
        decimal_value(decimal(value)) == value,
{
    if value < 0 {
        lemma_digits_value((-value) as nat);
        assert(decimal(value).skip(1) =~= decimal_digits((-value) as nat));
    } else {
        lemma_digits_value(value as nat);
    }
}

/// The one-character string for a digit.
fn digit_str(digit: u32) -> (text: &'static str)
    requires
        digit < 10,
    ensures
        text@ == seq![digit_char(digit as nat)],
{
    proof {
        reveal_strlit("0");
        reveal_strlit("1");
        reveal_strlit("2");
        reveal_strlit("3");
        reveal_strlit("4");
        reveal_strlit("5");
        reveal_strlit("6");
        reveal_strlit("7");
        reveal_strlit("8");
        reveal_strlit("9");
    }
    let text = match digit {
        0 => "0",
        1 => "1",
        2 => "2",
        3 => "3",
        4 => "4",
        5 => "5",
        6 => "6",
        7 => "7",
        8 => "8",
        _ => "9",
    };
    assert(text@ =~= seq![digit_char(digit as nat)]);
    text
}

/// Writes the digits of `value` behind what `text` already holds.
fn push_digits(text: &mut String, value: u32)
    ensures
        final(text)@ == old(text)@ + decimal_digits(value as nat),
    decreases value,
{
    if value >= 10 {
        push_digits(text, value / 10);
    }
    text.append(digit_str(value % 10));
    assert(text@ =~= old(text)@ + decimal_digits(value as nat));
}

/// `value` in decimal.
pub fn decimal_string(value: i32) -> (text: String)
    ensures
        text@ == decimal(value as int),
{
    let mut text = String::new();
    if value < 0 {
        proof {
            reveal_strlit("-");
        }
        text.append("-");
        assert(text@ =~= seq!['-']);
        push_digits(&mut text, (-(value as i64)) as u32);
    } else {
        push_digits(&mut text, value as u32);
    }
    assert(text@ =~= decimal(value as int));
    text
}

} // verus!
