//! Decimal notation of natural numbers.

use vstd::prelude::*;
use vstd::string::*;

verus! {

/// The character that writes a single decimal digit; beyond nine it stays `9`.
pub open spec fn digit_char(digit: nat) -> char {
    if digit == 0 {
        '0'
    } else if digit == 1 {
        '1'
    } else if digit == 2 {
        '2'
    } else if digit == 3 {
        '3'
    } else if digit == 4 {
        '4'
    } else if digit == 5 {
        '5'
    } else if digit == 6 {
        '6'
    } else if digit == 7 {
        '7'
    } else if digit == 8 {
        '8'
    } else {
        '9'
    }
}

/// The decimal notation of `n`: most significant digit first, no leading
/// zero, and the single digit `0` for zero.
pub open spec fn decimal_digits(n: nat) -> Seq<char>
    decreases n,
{
    if n < 10 {
        seq![digit_char(n)]
    } else {
        decimal_digits(n / 10).push(digit_char(n % 10))
    }
}

/// A number below ten is written with one digit, any other with two or more.
pub proof fn lemma_digit_count(n: nat)
    ensures
        decimal_digits(n).len() >= 1,
        n < 10 <==> decimal_digits(n).len() == 1,
    decreases n,
{
    if n >= 10 {
        lemma_digit_count(n / 10);
    }
}

/// The one-character text of a decimal digit.
pub fn digit_text(digit: u8) -> (text: &'static str)
    ensures
        text@ == seq![digit_char(digit as nat)],
{
    proof {
        reveal_strlit("0");
        reveal_strlit("1");
        reveal_strlit("2");
        reveal_strlit("3");
        reveal_strlit("4");
        reveal_strlit("5");
        reveal_strlit("6");
        reveal_strlit("7");
        reveal_strlit("8");
        reveal_strlit("9");
    }
    let text = match digit {
        0 => "0",
        1 => "1",
        2 => "2",
        3 => "3",
        4 => "4",
        5 => "5",
        6 => "6",
        7 => "7",
        8 => "8",
        _ => "9",
    };
    assert(text@ =~= seq![digit_char(digit as nat)]);
    text
}

/// Writes `n` in decimal notation.
pub fn decimal_string(n: u128) -> (text: String)
    ensures
        text@ == decimal_digits(n as nat),
{
    let mut text = String::from_str(digit_text((n % 10) as u8));
    let mut rest: u128 = n / 10;
    proof {
        if n >= 10 {
            assert(decimal_digits(n as nat) =~= decimal_digits(rest as nat) + text@);
        }
    }
    while rest > 0
        invariant
            rest == 0 ==> text@ == decimal_digits(n as nat),
            rest > 0 ==> decimal_digits(n as nat) == decimal_digits(rest as nat) + text@,
        decreases rest,
    {
        let ghost before = text@;
        let ghost higher = rest;
        let head = String::from_str(digit_text((rest % 10) as u8));
        text = head.concat(text.as_str());
        rest = rest / 10;
        proof {
            let last = seq![digit_char((higher % 10) as nat)];
            assert(text@ == last + before);
            if higher >= 10 {
                assert(decimal_digits(higher as nat) == decimal_digits(rest as nat).push(
                    digit_char((higher % 10) as nat),
                ));
                assert(decimal_digits(rest as nat).push(digit_char((higher % 10) as nat)) + before
                    =~= decimal_digits(rest as nat) + (last + before));
            } else {
                assert(decimal_digits(higher as nat) =~= last);
            }
        }
    }
    text
}

} // verus!
