//! Whole numbers written out in base ten.

use vstd::prelude::*;

verus! {

/// The character that stands for the digit `d`, for `0 <= d <= 9`.
pub open spec fn digit(d: int) -> char
    recommends
        0 <= d <= 9,
{
    ('0' as int + d) as char
}

/// The digits of `n` in base ten, most significant first, without leading
/// zeros; `0` is written with the single digit `0`.
pub open spec fn digits(n: nat) -> Seq<char>
    decreases n,
{
    if n < 10 {
        seq![digit(n as int)]
    } else {
        digits(n / 10).push(digit((n % 10) as int))
    }
}

/// The number `n` in base ten, with a leading `-` when it is negative.
pub open spec fn decimal(n: int) -> Seq<char> {
    if n < 0 {
        seq!['-'] + digits((-n) as nat)
    } else {
        digits(n as nat)
    }
}

/// The one-character text of the digit `d`.
fn digit_text(d: u32) -> (text: &'static str)
    requires
        d <= 9,
    ensures
        text@ == seq![digit(d as int)],
{
    proof {
        reveal_strlit("0");
        reveal_strlit("1");
        reveal_strlit("2");
        reveal_strlit("3");
        reveal_strlit("4");
        reveal_strlit("5");
        reveal_strlit("6");
        reveal_strlit("7");
        reveal_strlit("8");
        reveal_strlit("9");
    }
    if d == 0 {
        "0"
    } else if d == 1 {
        "1"
    } else if d == 2 {
        "2"
    } else if d == 3 {
        "3"
    } else if d == 4 {
        "4"
    } else if d == 5 {
        "5"
    } else if d == 6 {
        "6"
    } else if d == 7 {
        "7"
    } else if d == 8 {
        "8"
    } else {
        "9"
    }
}

/// Writes the digits of `n`.
fn digits_text(n: u32) -> (text: String)
    ensures
        text@ == digits(n as nat),
    decreases n,
{
    if n < 10 {
        String::from_str(digit_text(n))
    } else {
        let mut text: String = digits_text(n / 10);
        text.append(digit_text(n % 10));
        text
    }
}

/// Writes `n` in base ten.
pub fn decimal_text(n: i32) -> (text: String)
    ensures
        text@ == decimal(n as int),
{
    if n < 0 {
        let magnitude: u32 = (-(n as i64)) as u32;
        let mut text: String = String::from_str("-");
        proof {
            reveal_strlit("-");
        }
        let rest: String = digits_text(magnitude);
        text.append(rest.as_str());
        text
    } else {
        digits_text(n as u32)
    }
}

} // verus!
