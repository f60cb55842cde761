//! Decimal rendering of integers into text.

use vstd::prelude::*;
use vstd::string::*;

verus! {

/// The character of a decimal digit.
pub open spec fn digit(value: int) -> char {
    if value == 0 {
        '0'
    } else if value == 1 {
        '1'
    } else if value == 2 {
        '2'
    } else if value == 3 {
        '3'
    } else if value == 4 {
        '4'
    } else if value == 5 {
        '5'
    } else if value == 6 {
        '6'
    } else if value == 7 {
        '7'
    } else if value == 8 {
        '8'
    } else {
        '9'
    }
}

/// The decimal digits of a natural number, without leading zeros.
pub open spec fn decimal(value: nat) -> Seq<char>
    decreases value,
{
    if value < 10 {
        seq![digit(value as int)]
    } else {
        decimal(value / 10).push(digit((value % 10) as int))
    }
}

/// A number given by sign and magnitude in at least two characters: a minus
/// sign before the digits of a negative one, a leading zero before a single
/// digit.
pub open spec fn two_wide(negative: bool, magnitude: nat) -> Seq<char> {
    if negative {
        seq!['-'] + decimal(magnitude)
    } else if magnitude < 10 {
        seq!['0'] + decimal(magnitude)
    } else {
        decimal(magnitude)
    }
}

/// An integer in at least two characters.
pub open spec fn two_wide_integer(value: int) -> Seq<char> {
    two_wide(value < 0, (if value < 0 { -value } else { value }) as nat)
}

/// The text of one decimal digit.
fn digit_text(value: u64) -> (text: &'static str)
    requires
        value < 10,
    ensures
        text@ == seq![digit(value as int)],
{
    proof {
        reveal_strlit("0");
        reveal_strlit("1");
        reveal_strlit("2");
        reveal_strlit("3");
        reveal_strlit("4");
        reveal_strlit("5");
        reveal_strlit("6");
        reveal_strlit("7");
        reveal_strlit("8");
        reveal_strlit("9");
    }
    let text = if value == 0 {
        "0"
    } else if value == 1 {
        "1"
    } else if value == 2 {
        "2"
    } else if value == 3 {
        "3"
    } else if value == 4 {
        "4"
    } else if value == 5 {
        "5"
    } else if value == 6 {
        "6"
    } else if value == 7 {
        "7"
    } else if value == 8 {
        "8"
    } else {
        "9"
    };
    text
}

/// Appends the decimal digits of a number.
pub fn push_decimal(text: &mut String, value: u64)
    ensures
        final(text)@ == old(text)@ + decimal(value as nat),
    decreases value,
{
    if value >= 10 {
        push_decimal(text, value / 10);
    }
    text.append(digit_text(value % 10));
    proof {
        assert(text@ =~= old(text)@ + decimal(value as nat));
    }
}

/// Appends a number given by sign and magnitude in at least two characters.
pub fn push_two_wide(text: &mut String, negative: bool, magnitude: u64)
    ensures
        final(text)@ == old(text)@ + two_wide(negative, magnitude as nat),
{
    let ghost before = text@;
    if negative {
        proof {
            reveal_strlit("-");
        }
        text.append("-");
    } else if magnitude < 10 {
        proof {
            reveal_strlit("0");
        }
        text.append("0");
    }
    push_decimal(text, magnitude);
    proof {
        assert(text@ =~= before + two_wide(negative, magnitude as nat));
    }
}

/// Appends an integer in at least two characters.
pub fn push_two_wide_integer(text: &mut String, value: i64)
    ensures
        final(text)@ == old(text)@ + two_wide_integer(value as int),
{
    if value < 0 {
        push_two_wide(text, true, (-(value as i128)) as u64);
    } else {
        push_two_wide(text, false, value as u64);
    }
}

} // verus!
