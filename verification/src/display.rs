//! Amounts as text: digits in groups of three, right-aligned in a column.

use vstd::prelude::*;
use vstd::string::*;
use crate::amount::ExactAmount;
use crate::decimal::{decimal_digits, digit_char, digit_text};

verus! {

/// The width of the column in which amounts are shown, in characters.
pub const AMOUNT_WIDTH: usize = 15;

/// The three digits of a number below one thousand, zeros included.
pub open spec fn three_digits(n: nat) -> Seq<char> {
    seq![digit_char(n / 100 % 10), digit_char(n / 10 % 10), digit_char(n % 10)]
}

/// The decimal notation of `n` with a comma before every group of three
/// digits, counted from the right: `1,234,567`.
pub open spec fn grouped_digits(n: nat) -> Seq<char>
    decreases n,
{
    if n < 1000 {
        decimal_digits(n)
    } else {
        grouped_digits(n / 1000) + seq![','] + three_digits(n % 1000)
    }
}

/// The decimal places of a fraction given in ten-thousandths, behind their
/// point and without zeros at the end; nothing at all for no fraction. Of a
/// number of ten thousand or more only the last four digits count.
pub open spec fn fraction_digits(fraction: nat) -> Seq<char> {
    if fraction == 0 {
        Seq::empty()
    } else if fraction % 1000 == 0 {
        seq!['.', digit_char(fraction / 1000 % 10)]
    } else if fraction % 100 == 0 {
        seq!['.', digit_char(fraction / 1000 % 10), digit_char(fraction / 100 % 10)]
    } else if fraction % 10 == 0 {
        seq![
            '.',
            digit_char(fraction / 1000 % 10),
            digit_char(fraction / 100 % 10),
            digit_char(fraction / 10 % 10),
        ]
    } else {
        seq![
            '.',
            digit_char(fraction / 1000 % 10),
            digit_char(fraction / 100 % 10),
            digit_char(fraction / 10 % 10),
            digit_char(fraction % 10),
        ]
    }
}

/// `text` behind as many spaces as bring it to `width` characters; unchanged
/// if it has that many already.
pub open spec fn right_aligned(text: Seq<char>, width: nat) -> Seq<char> {
    if text.len() >= width {
        text
    } else {
        Seq::new((width - text.len()) as nat, |i: int| ' ') + text
    }
}

/// How a whole amount is shown: `Rp` and the grouped digits in their column.
pub open spec fn rupiah_text(amount: nat) -> Seq<char> {
    "Rp"@ + right_aligned(grouped_digits(amount), AMOUNT_WIDTH as nat)
}

/// How an exact amount is shown: `Rp` and, in the column, the grouped digits
/// of the whole rupiah with the decimal places of the fraction.
pub open spec fn exact_rupiah_text(amount: ExactAmount) -> Seq<char> {
    "Rp"@ + right_aligned(
        grouped_digits(amount.whole_part()) + fraction_digits(amount.fraction_part()),
        AMOUNT_WIDTH as nat,
    )
}

/// Calls `separate_with_commas` of the crate `thousands` on an unsigned
/// integer. That method writes the number in decimal notation and puts a comma
/// after each digit that has a positive multiple of three digits to its right,
/// which is what `grouped_digits` says.
#[verifier::external_body]
fn separate_with_commas(value: u128) -> (text: String)
    ensures
        text@ == grouped_digits(value as nat),
{
    thousands::Separable::separate_with_commas(&value)
}

/// Puts spaces before `text` until it is `width` characters long.
pub fn align_right(text: String, width: usize) -> (aligned: String)
    ensures
        aligned@ == right_aligned(text@, width as nat),
{
    let length = text.as_str().unicode_len();
    if length >= width {
        return text;
    }
    let mut aligned = String::new();
    let mut filled: usize = length;
    while filled < width
        invariant
            length <= filled <= width,
            aligned@ == Seq::new((filled - length) as nat, |i: int| ' '),
        decreases width - filled,
    {
        proof {
            reveal_strlit(" ");
        }
        let ghost before = aligned@;
        aligned.append(" ");
        filled = filled + 1;
        assert(aligned@ =~= Seq::new((filled - length) as nat, |i: int| ' '));
    }
    aligned.append(text.as_str());
    aligned
}

/// Writes the decimal places of a fraction given in ten-thousandths.
pub fn fraction_text(fraction: u32) -> (text: String)
    ensures
        text@ == fraction_digits(fraction as nat),
{
    let mut text = String::new();
    if fraction == 0 {
        return text;
    }
    proof {
        reveal_strlit(".");
    }
    text.append(".");
    text.append(digit_text((fraction / 1000 % 10) as u8));
    if fraction % 1000 != 0 {
        text.append(digit_text((fraction / 100 % 10) as u8));
        if fraction % 100 != 0 {
            text.append(digit_text((fraction / 10 % 10) as u8));
            if fraction % 10 != 0 {
                text.append(digit_text((fraction % 10) as u8));
            }
        }
    }
    assert(text@ =~= fraction_digits(fraction as nat));
    text
}

/// Shows a whole amount of rupiah.
pub fn format_rupiah(amount: u64) -> (text: String)
    ensures
        text@ == rupiah_text(amount as nat),
{
    let digits = separate_with_commas(amount as u128);
    let column = align_right(digits, AMOUNT_WIDTH);
    let mut text = String::from_str("Rp");
    text.append(column.as_str());
    text
}

/// Shows an exact amount of rupiah.
pub fn format_exact_rupiah(amount: &ExactAmount) -> (text: String)
    ensures
        text@ == exact_rupiah_text(*amount),
{
    let mut digits = separate_with_commas(amount.whole());
    let places = fraction_text(amount.fraction());
    digits.append(places.as_str());
    let column = align_right(digits, AMOUNT_WIDTH);
    let mut text = String::from_str("Rp");
    text.append(column.as_str());
    text
}

} // verus!
