//! Numbers as decimal text, as they stand in a document's attributes.

use crate::geometry::Length;
use vstd::prelude::*;
use vstd::string::*;

verus! {

/// The character of a decimal digit.
pub open spec fn digit_char(digit: int) -> char {
    if digit == 0 {
        '0'
    } else if digit == 1 {
        '1'
    } else if digit == 2 {
        '2'
    } else if digit == 3 {
        '3'
    } else if digit == 4 {
        '4'
    } else if digit == 5 {
        '5'
    } else if digit == 6 {
        '6'
    } else if digit == 7 {
        '7'
    } else if digit == 8 {
        '8'
    } else {
        '9'
    }
}

/// The decimal numeral of `number`, without leading zeros.
pub open spec fn decimal(number: nat) -> Seq<char>
    decreases number,
{
    if number < 10 {
        seq![digit_char(number as int)]
    } else {
        decimal(number / 10).push(digit_char((number % 10) as int))
    }
}

/// The decimal text of a length: its whole part, followed by `.5` where the
/// length has a further half.
pub open spec fn length_text(length: Length) -> Seq<char> {
    if length.half {
        decimal(length.whole as nat) + seq!['.', '5']
    } else {
        decimal(length.whole as nat)
    }
}

/// The value of a decimal digit; zero for any other character.
pub open spec fn digit_value(digit: char) -> nat {
    if digit == '1' {
        1
    } else if digit == '2' {
        2
    } else if digit == '3' {
        3
    } else if digit == '4' {
        4
    } else if digit == '5' {
        5
    } else if digit == '6' {
        6
    } else if digit == '7' {
        7
    } else if digit == '8' {
        8
    } else if digit == '9' {
        9
    } else {
        0
    }
}

/// The number that a string of decimal digits denotes.
pub open spec fn numeral_value(digits: Seq<char>) -> nat
    decreases digits.len(),
{
    if digits.len() == 0 {
        0
    } else {
        10 * numeral_value(digits.drop_last()) + digit_value(digits.last())
    }
}

/// The decimal numeral of a number denotes that number, is not empty, and
/// starts with a zero only where the number is zero.
pub proof fn lemma_decimal_denotes(number: nat)
    ensures
        numeral_value(decimal(number)) == number,
        decimal(number).len() >= 1,
        number > 0 ==> decimal(number)[0] != '0',
    decreases number,
{
    if number < 10 {
        assert(numeral_value(decimal(number).drop_last()) == 0);
    } else {
        lemma_decimal_denotes(number / 10);
        assert(decimal(number).drop_last() =~= decimal(number / 10));
    }
}

/// The text of a length denotes it: the numeral in front counts the whole
/// units, and `.5` follows exactly where a further half does.
pub proof fn lemma_length_text_denotes(length: Length)
    ensures
        length_text(length).take(decimal(length.whole as nat).len() as int) == decimal(
            length.whole as nat,
        ),
        numeral_value(decimal(length.whole as nat)) == length.whole,
        length_text(length).len() == decimal(length.whole as nat).len() + (if length.half {
            2nat
        } else {
            0nat
        }),
        length.half ==> length_text(length).skip(decimal(length.whole as nat).len() as int)
            == seq!['.', '5'],
{
    lemma_decimal_denotes(length.whole as nat);
}

/// The text of one digit.
fn digit_text(digit: u64) -> (text: &'static str)
    requires
        digit < 10,
    ensures
        text@ == seq![digit_char(digit as int)],
{
    proof {
        reveal_strlit("0");
        reveal_strlit("1");
        reveal_strlit("2");
        reveal_strlit("3");
        reveal_strlit("4");
        reveal_strlit("5");
        reveal_strlit("6");
        reveal_strlit("7");
        reveal_strlit("8");
        reveal_strlit("9");
    }
    let text = if digit == 0 {
        "0"
    } else if digit == 1 {
        "1"
    } else if digit == 2 {
        "2"
    } else if digit == 3 {
        "3"
    } else if digit == 4 {
        "4"
    } else if digit == 5 {
        "5"
    } else if digit == 6 {
        "6"
    } else if digit == 7 {
        "7"
    } else if digit == 8 {
        "8"
    } else {
        "9"
    };
    text
}

/// Appends the decimal numeral of `number` to `text`.
pub fn append_decimal(text: &mut String, number: u64)
    ensures
        final(text)@ == old(text)@ + decimal(number as nat),
    decreases number,
{
    if number >= 10 {
        append_decimal(text, number / 10);
    }
    text.append(digit_text(number % 10));
}

/// The decimal numeral of `number`.
pub fn decimal_text(number: u64) -> (text: String)
    ensures
        text@ == decimal(number as nat),
{
    let mut text = String::new();
    append_decimal(&mut text, number);
    text
}

/// The decimal text of `length`.
pub fn length_to_text(length: Length) -> (text: String)
    ensures
        text@ == length_text(length),
{
    let mut text = decimal_text(length.whole);
    if length.half {
        proof {
            reveal_strlit(".5");
        }
        text.append(".5");
    }
    text
}

} // verus!
