//! What the interactive calculator decides from the answers it is given.

use vstd::prelude::*;
use vstd::string::*;
use crate::ptkp::{clamp_dependents, MAX_DEPENDENTS};

verus! {

/// What the user can choose from the main menu.
#[derive(Clone, Copy, Debug, PartialEq, Eq, Structural)]
pub enum MenuChoice {
    /// PPh 21 where the employee bears the tax.
    Pph21Gross,
    /// PPh 21 where the employer bears the tax.
    Pph21GrossUp,
    /// General progressive income tax.
    IncomeTax,
    /// Value-added tax.
    Vat,
    /// Leave the calculator.
    Exit,
}

/// The choice that an answer to the main menu stands for: the digits `1` to
/// `5` choose the five entries in their order, and nothing else chooses any.
pub open spec fn menu_choice_of(answer: Seq<char>) -> Option<MenuChoice> {
    if answer == seq!['1'] {
        Some(MenuChoice::Pph21Gross)
    } else if answer == seq!['2'] {
        Some(MenuChoice::Pph21GrossUp)
    } else if answer == seq!['3'] {
        Some(MenuChoice::IncomeTax)
    } else if answer == seq!['4'] {
        Some(MenuChoice::Vat)
    } else if answer == seq!['5'] {
        Some(MenuChoice::Exit)
    } else {
        None
    }
}

/// The number of dependents that counts: none for an unmarried taxpayer, who
/// is not asked; for a married one the number given, at most three, and none
/// if the answer was no number.
pub open spec fn dependents_of(is_married: bool, answer: Option<u32>) -> nat {
    if !is_married {
        0
    } else {
        match answer {
            Some(n) => if n > 3 {
                3
            } else {
                n as nat
            },
            None => 0,
        }
    }
}

/// Reads an answer to the main menu, surrounding blanks already removed.
pub fn parse_menu_choice(answer: &str) -> (choice: Option<MenuChoice>)
    ensures
        choice == menu_choice_of(answer@),
{
    if answer.unicode_len() != 1 {
        return None;
    }
    let c = answer.get_char(0);
    assert(answer@ =~= seq![c]);
    if c == '1' {
        Some(MenuChoice::Pph21Gross)
    } else if c == '2' {
        Some(MenuChoice::Pph21GrossUp)
    } else if c == '3' {
        Some(MenuChoice::IncomeTax)
    } else if c == '4' {
        Some(MenuChoice::Vat)
    } else if c == '5' {
        Some(MenuChoice::Exit)
    } else {
        assert(seq![c][0] == c);
        None
    }
}

/// Reads an answer to the question of marital status, surrounding blanks
/// already removed: `2` is married, anything else is not.
pub fn parse_marital_status(answer: &str) -> (is_married: bool)
    ensures
        is_married == (answer@ == seq!['2']),
{
    if answer.unicode_len() != 1 {
        return false;
    }
    let c = answer.get_char(0);
    assert(answer@ =~= seq![c]);
    assert(seq![c][0] == c);
    c == '2'
}

/// Settles the number of dependents from the marital status and the answer
/// to the question of dependents, `None` where the answer was no number.
pub fn resolve_dependents(is_married: bool, answer: Option<u32>) -> (dependents: u32)
    ensures
        dependents == dependents_of(is_married, answer),
        dependents <= MAX_DEPENDENTS,
{
    if !is_married {
        return 0;
    }
    match answer {
        Some(n) => clamp_dependents(n),
        None => 0,
    }
}

} // verus!
