//! Texts: lower case, comparison, decimal numbers.

use vstd::prelude::*;

verus! {

/// The lower-case form that `str::to_lowercase` gives to a text.
///
/// Unicode's default case mapping is long; the library only needs that the
/// form depends on the text alone, so it is named and not spelled out.
pub uninterp spec fn lowercase(text: Seq<char>) -> Seq<char>;

/// Calls `str::to_lowercase`.
///
/// Not proved: that the returned string is the lower-case form of `text` as
/// the standard library defines it, here called `lowercase`.
#[verifier::external_body]
pub(crate) fn to_lowercase(text: &str) -> (lowered: String)
    ensures
        lowered@ == lowercase(text@),
{
    text.to_lowercase()
}

/// Whether two texts hold the same characters.
pub fn same_text(left: &str, right: &str) -> (same: bool)
    ensures
        same == (left@ == right@),
{
    let left_owned = left.to_owned();
    let right_owned = right.to_owned();
    left_owned == right_owned
}

/// The character of a decimal digit.
pub open spec fn digit_char(digit: int) -> char {
    if digit == 0 {
        '0'
    } else if digit == 1 {
        '1'
    } else if digit == 2 {
        '2'
    } else if digit == 3 {
        '3'
    } else if digit == 4 {
        '4'
    } else if digit == 5 {
        '5'
    } else if digit == 6 {
        '6'
    } else if digit == 7 {
        '7'
    } else if digit == 8 {
        '8'
    } else {
        '9'
    }
}

/// A number in decimal notation, without leading zeros.
pub open spec fn decimal_text(number: nat) -> Seq<char>
    decreases number,
{
    if number < 10 {
        seq![digit_char(number as int)]
    } else {
        decimal_text(number / 10).push(digit_char((number % 10) as int))
    }
}

fn digit_text(digit: usize) -> (text: &'static str)
    requires
        digit < 10,
    ensures
        text@ == seq![digit_char(digit as int)],
{
    proof {
        reveal_strlit("0");
        reveal_strlit("1");
        reveal_strlit("2");
        reveal_strlit("3");
        reveal_strlit("4");
        reveal_strlit("5");
        reveal_strlit("6");
        reveal_strlit("7");
        reveal_strlit("8");
        reveal_strlit("9");
    }
    let text = if digit == 0 {
        "0"
    } else if digit == 1 {
        "1"
    } else if digit == 2 {
        "2"
    } else if digit == 3 {
        "3"
    } else if digit == 4 {
        "4"
    } else if digit == 5 {
        "5"
    } else if digit == 6 {
        "6"
    } else if digit == 7 {
        "7"
    } else if digit == 8 {
        "8"
    } else {
        "9"
    };
    assert(text@ =~= seq![digit_char(digit as int)]);
    text
}

/// Writes `number` in decimal notation.
pub fn decimal(number: usize) -> (text: String)
    ensures
        text@ == decimal_text(number as nat),
    decreases number,
{
    if number < 10 {
        digit_text(number).to_owned()
    } else {
        let mut text = decimal(number / 10);
        text.append(digit_text(number % 10));
        assert(text@ =~= decimal_text(number as nat));
        text
    }
}

/// A number below ten is written with one digit, any other with at least two.
proof fn lemma_decimal_text_length(number: nat)
    ensures
        decimal_text(number).len() >= 1,
        number >= 10 ==> decimal_text(number).len() >= 2,
    decreases number,
{
    if number >= 10 {
        lemma_decimal_text_length(number / 10);
    }
}

/// Two numbers that are written alike are the same number.
pub proof fn lemma_decimal_text_is_injective(left: nat, right: nat)
    requires
        decimal_text(left) == decimal_text(right),
    ensures
        left == right,
    decreases left,
{
    lemma_decimal_text_length(left);
    lemma_decimal_text_length(right);
    if left < 10 && right < 10 {
        assert(decimal_text(left)[0] == digit_char(left as int));
        assert(decimal_text(right)[0] == digit_char(right as int));
    } else if left >= 10 && right >= 10 {
        let left_front = decimal_text(left / 10);
        let right_front = decimal_text(right / 10);
        assert(decimal_text(left).drop_last() =~= left_front);
        assert(decimal_text(right).drop_last() =~= right_front);
        assert(decimal_text(left).last() == digit_char((left % 10) as int));
        assert(decimal_text(right).last() == digit_char((right % 10) as int));
        lemma_decimal_text_is_injective(left / 10, right / 10);
        assert(left % 10 == right % 10);
    } else if left < 10 {
        assert(decimal_text(left).len() == 1);
    } else {
        assert(decimal_text(right).len() == 1);
    }
}

} // verus!
