//! Annual tax-exempt income (PTKP) by marital and dependent status, tax year 2023.

use vstd::prelude::*;
use vstd::hash_map::StringHashMap;
use vstd::string::*;
use crate::decimal::{decimal_digits, decimal_string, digit_char, lemma_digit_count};

verus! {

/// The largest number of dependents that changes the exemption.
pub const MAX_DEPENDENTS: u32 = 3;

/// The PTKP table: each known status code with its annual exemption in rupiah.
pub open spec fn ptkp_table() -> Map<Seq<char>, u64> {
    Map::<Seq<char>, u64>::empty().insert("TK/0"@, 54_000_000u64).insert(
        "K/0"@,
        58_500_000u64,
    ).insert("K/1"@, 63_000_000u64).insert("K/2"@, 67_500_000u64).insert("K/3"@, 72_000_000u64)
}

/// The annual exemption of a status code; a code that the table does not hold
/// has none.
pub open spec fn ptkp_of(code: Seq<char>) -> nat {
    if code == "TK/0"@ {
        54_000_000
    } else if code == "K/0"@ {
        58_500_000
    } else if code == "K/1"@ {
        63_000_000
    } else if code == "K/2"@ {
        67_500_000
    } else if code == "K/3"@ {
        72_000_000
    } else {
        0
    }
}

/// The status code of a taxpayer: `K` if married and `TK` if not, a slash, and
/// the number of dependents in decimal notation.
pub open spec fn status_code(is_married: bool, dependents: nat) -> Seq<char> {
    (if is_married {
        "K"@
    } else {
        "TK"@
    }) + "/"@ + decimal_digits(dependents)
}

/// The annual exemption of a taxpayer: that of the status code, which the table
/// holds for an unmarried taxpayer without dependents and for a married one
/// with at most three.
pub open spec fn ptkp_for(is_married: bool, dependents: nat) -> nat {
    ptkp_of(status_code(is_married, dependents))
}

/// What the five codes of the table are, character by character.
pub proof fn lemma_table_codes()
    ensures
        "TK/0"@ == seq!['T', 'K', '/', '0'],
        "K/0"@ == seq!['K', '/', '0'],
        "K/1"@ == seq!['K', '/', '1'],
        "K/2"@ == seq!['K', '/', '2'],
        "K/3"@ == seq!['K', '/', '3'],
        "K"@ == seq!['K'],
        "TK"@ == seq!['T', 'K'],
        "/"@ == seq!['/'],
{
    reveal_strlit("TK/0");
    reveal_strlit("K/0");
    reveal_strlit("K/1");
    reveal_strlit("K/2");
    reveal_strlit("K/3");
    reveal_strlit("K");
    reveal_strlit("TK");
    reveal_strlit("/");
    assert("TK/0"@ =~= seq!['T', 'K', '/', '0']);
    assert("K/0"@ =~= seq!['K', '/', '0']);
    assert("K/1"@ =~= seq!['K', '/', '1']);
    assert("K/2"@ =~= seq!['K', '/', '2']);
    assert("K/3"@ =~= seq!['K', '/', '3']);
    assert("K"@ =~= seq!['K']);
    assert("TK"@ =~= seq!['T', 'K']);
    assert("/"@ =~= seq!['/']);
}

/// The table and the exemption of a code agree: a code in the table has the
/// amount that the table gives, and any other code has none.
pub proof fn lemma_table_lookup(code: Seq<char>)
    ensures
        ptkp_table().dom().finite(),
        ptkp_table().len() == 5,
        ptkp_table().contains_key(code) ==> ptkp_of(code) == ptkp_table()[code],
        !ptkp_table().contains_key(code) ==> ptkp_of(code) == 0,
{
    lemma_table_codes();
    let a = seq!['T', 'K', '/', '0'];
    let b = seq!['K', '/', '0'];
    let c = seq!['K', '/', '1'];
    let d = seq!['K', '/', '2'];
    let e = seq!['K', '/', '3'];
    assert(a.len() == 4 && b.len() == 3);
    assert(b[2] == '0' && c[2] == '1' && d[2] == '2' && e[2] == '3');
    assert(ptkp_table().dom() =~= set![a, b, c, d, e]);
}

/// The exemption by marital status and dependents, without the detour over
/// the status code: 54,000,000 for an unmarried taxpayer without dependents;
/// 58,500,000 for a married one, and 4,500,000 more for each of up to three
/// dependents; nothing for any other status.
pub open spec fn ptkp_by_status(is_married: bool, dependents: nat) -> nat {
    if !is_married {
        if dependents == 0 {
            54_000_000
        } else {
            0
        }
    } else if dependents <= 3 {
        58_500_000 + 4_500_000 * dependents
    } else {
        0
    }
}

/// Looking the status code up in the table gives the exemption by status.
pub proof fn lemma_ptkp_for_status(is_married: bool, dependents: nat)
    ensures
        ptkp_for(is_married, dependents) == ptkp_by_status(is_married, dependents),
{
    lemma_table_codes();
    let digits = decimal_digits(dependents);
    let code = status_code(is_married, dependents);
    if dependents >= 10 {
        lemma_digit_count(dependents);
        assert(code.len() >= 4);
        if is_married {
            assert(code[0] == 'K');
        } else {
            assert(code.len() >= 5);
        }
    } else {
        assert(digits =~= seq![digit_char(dependents)]);
        if is_married {
            assert(code =~= seq!['K', '/', digit_char(dependents)]);
            assert(code[2] == digit_char(dependents));
        } else {
            assert(code =~= seq!['T', 'K', '/', digit_char(dependents)]);
            assert(code[3] == digit_char(dependents));
        }
    }
}

/// Builds the PTKP table for tax year 2023.
pub fn get_ptkp_values() -> (table: StringHashMap<u64>)
    ensures
        table@ == ptkp_table(),
{
    let mut ptkp: StringHashMap<u64> = StringHashMap::new();
    ptkp.insert(String::from_str("TK/0"), 54_000_000);
    ptkp.insert(String::from_str("K/0"), 58_500_000);
    ptkp.insert(String::from_str("K/1"), 63_000_000);
    ptkp.insert(String::from_str("K/2"), 67_500_000);
    ptkp.insert(String::from_str("K/3"), 72_000_000);
    ptkp
}

/// Looks up the annual exemption of a status code; an unknown code gives 0.
pub fn lookup_ptkp(code: &str) -> (amount: u64)
    ensures
        amount == ptkp_of(code@),
{
    let table = get_ptkp_values();
    proof {
        lemma_table_lookup(code@);
    }
    match table.get(code) {
        Some(value) => *value,
        None => 0,
    }
}

/// Writes the status code of a taxpayer.
pub fn status_code_text(is_married: bool, num_dependents: u32) -> (code: String)
    ensures
        code@ == status_code(is_married, num_dependents as nat),
{
    let mut code = String::from_str(
        if is_married {
            "K"
        } else {
            "TK"
        },
    );
    code.append("/");
    let digits = decimal_string(num_dependents as u128);
    code.append(digits.as_str());
    code
}

/// The annual exemption of a taxpayer, found by status code in the table.
pub fn ptkp_for_status(is_married: bool, num_dependents: u32) -> (amount: u64)
    ensures
        amount == ptkp_for(is_married, num_dependents as nat),
        amount == ptkp_by_status(is_married, num_dependents as nat),
        amount <= 72_000_000,
{
    proof {
        lemma_ptkp_for_status(is_married, num_dependents as nat);
    }
    let code = status_code_text(is_married, num_dependents);
    lookup_ptkp(code.as_str())
}

/// Clamps a number of dependents to the largest that counts.
pub fn clamp_dependents(dependents: u32) -> (clamped: u32)
    ensures
        clamped == if dependents > MAX_DEPENDENTS {
            MAX_DEPENDENTS
        } else {
            dependents
        },
{
    if dependents > MAX_DEPENDENTS {
        MAX_DEPENDENTS
    } else {
        dependents
    }
}

} // verus!
