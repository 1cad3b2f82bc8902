//! PPh 21, the income tax withheld on a permanent employee's monthly salary,
//! at a flat rate on the gross salary.

use vstd::prelude::*;
use crate::ptkp::{ptkp_by_status, ptkp_for, ptkp_for_status};

verus! {

/// The flat PPh 21 rate, 0.75 %, in basis points.
pub const PPH21_RATE: u64 = 75;

/// Basis points in the whole: a rate of 10 000 basis points is 100 %.
pub const BASIS_POINTS: u64 = 10_000;

/// Months in the tax year.
pub const MONTHS_PER_YEAR: u64 = 12;

/// The largest monthly amount whose twelvefold still fits a `u64`.
pub const MAX_MONTHLY_INCOME: u64 = 1_537_228_672_809_129_301;

/// The tax base (DPP) on which the gross-up scheme computes the tax, whatever
/// the net salary.
pub const GROSS_UP_DPP: u64 = 6_045_340;

/// The monthly tax of the gross-up scheme: 0.75 % of the fixed tax base.
pub const GROSS_UP_MONTHLY_TAX: u64 = 45_340;

/// The input of the PPh 21 calculation.
#[derive(Debug)]
pub struct PPh21Params {
    /// Gross income of one month, in rupiah.
    pub gross_income: u64,
    /// Whether the taxpayer is married.
    pub is_married: bool,
    /// The number of dependents, which the caller has clamped to three.
    pub num_dependents: u32,
}

/// What the gross-up scheme yields for a net salary.
#[derive(Clone, Copy, Debug, PartialEq, Eq, Structural)]
pub struct GrossUp {
    /// The monthly salary that the employer pays: net salary and tax.
    pub gross_salary: u64,
    /// The tax of one month.
    pub monthly_tax: u64,
    /// The tax of one year.
    pub annual_tax: u64,
    /// The annual exemption of the taxpayer's status.
    pub ptkp: u64,
    /// The taxable income of one year.
    pub pkp: u64,
}

/// The whole number nearest to `numerator / denominator`; a quotient halfway
/// between two whole numbers goes to the larger.
pub open spec fn round_half_up(numerator: nat, denominator: nat) -> nat
    recommends
        denominator > 0,
{
    (2 * numerator + denominator) / (2 * denominator)
}

/// The flat tax on an income: 0.75 % of it, rounded to the nearest rupiah.
pub open spec fn flat_tax(income: nat) -> nat {
    round_half_up(income * 75, 10_000)
}

/// The taxable income (PKP) of a year: what the gross income exceeds the
/// exemption by, and nothing if it does not exceed it.
pub open spec fn taxable_income(annual_gross: nat, ptkp: nat) -> nat {
    if annual_gross > ptkp {
        (annual_gross - ptkp) as nat
    } else {
        0
    }
}

/// `round_half_up` gives the nearest whole number: it differs from the exact
/// quotient by at most one half, and by exactly one half only from below.
pub proof fn lemma_round_half_up_nearest(numerator: nat, denominator: nat)
    requires
        denominator > 0,
    ensures
        2 * numerator - denominator < 2 * denominator * round_half_up(numerator, denominator),
        2 * denominator * round_half_up(numerator, denominator) <= 2 * numerator + denominator,
{
    let x = (2 * numerator + denominator) as int;
    let y = (2 * denominator) as int;
    vstd::arithmetic::div_mod::lemma_fundamental_div_mod(x, y);
    vstd::arithmetic::div_mod::lemma_mod_bound(x, y);
}

/// The flat tax never exceeds the income, and leaves no income of nothing taxed.
pub proof fn lemma_flat_tax_bounds(income: nat)
    ensures
        flat_tax(income) <= income,
        flat_tax(0) == 0,
{
    assert(round_half_up(0, 10_000) == (10_000int / 20_000) as nat);
}

/// On the fixed tax base of the gross-up scheme the flat tax is 45,340 rupiah.
pub proof fn lemma_gross_up_tax()
    ensures
        flat_tax(GROSS_UP_DPP as nat) == GROSS_UP_MONTHLY_TAX,
        flat_tax(6_045_340) == 45_340,
{
    assert(round_half_up(453_400_500, 10_000) == (906_811_000int / 20_000) as nat);
}

/// Twelve times a monthly amount.
pub fn annual_amount(monthly: u64) -> (annual: u64)
    requires
        monthly <= MAX_MONTHLY_INCOME,
    ensures
        annual == monthly * 12,
{
    monthly * MONTHS_PER_YEAR
}

/// Computes the flat tax on `income` rupiah.
pub fn compute_flat_tax(income: u64) -> (tax: u64)
    ensures
        tax == flat_tax(income as nat),
        tax <= income,
{
    let wide: u128 = income as u128;
    let rate: u128 = PPH21_RATE as u128;
    let whole: u128 = BASIS_POINTS as u128;
    assert(rate == 75 && whole == 10_000);
    let tax: u128 = (2 * (wide * rate) + whole) / (2 * whole);
    tax as u64
}

/// Computes the taxable income of a year.
pub fn compute_taxable_income(annual_gross: u64, ptkp: u64) -> (pkp: u64)
    ensures
        pkp == taxable_income(annual_gross as nat, ptkp as nat),
{
    if annual_gross > ptkp {
        annual_gross - ptkp
    } else {
        0
    }
}

/// Calculates PPh 21 for an employee who bears the tax.
///
/// Returns the tax of the year, the tax of one month, the annual exemption
/// and the taxable income of the year, in this order. Each tax is 0.75 % of the
/// gross income of its period, rounded to the nearest rupiah; the taxable income
/// is shown beside them and does not enter the tax.
pub fn calculate_pph21(params: &PPh21Params) -> (result: (u64, u64, u64, u64))
    requires
        params.gross_income <= MAX_MONTHLY_INCOME,
    ensures
        result.0 == flat_tax(params.gross_income as nat * 12),
        result.1 == flat_tax(params.gross_income as nat),
        result.2 == ptkp_for(params.is_married, params.num_dependents as nat),
        result.2 == ptkp_by_status(params.is_married, params.num_dependents as nat),
        result.3 == taxable_income(params.gross_income as nat * 12, result.2 as nat),
{
    let monthly_gross = params.gross_income;
    let annual_gross = annual_amount(monthly_gross);
    let ptkp = ptkp_for_status(params.is_married, params.num_dependents);
    let pkp = compute_taxable_income(annual_gross, ptkp);
    let annual_tax = compute_flat_tax(annual_gross);
    let monthly_tax = compute_flat_tax(monthly_gross);
    (annual_tax, monthly_tax, ptkp, pkp)
}

/// Calculates PPh 21 for an employee whose employer bears the tax.
///
/// The tax of one month is 0.75 % of the fixed tax base of 6,045,340 rupiah,
/// which is 45,340 rupiah whatever the net salary; the gross salary is the net
/// salary and that tax, the tax of the year twelve times that of the month.
/// Exemption and taxable income follow from the gross salary.
pub fn calculate_pph21_gross_up(net_salary: u64, is_married: bool, num_dependents: u32) -> (result:
    GrossUp)
    requires
        net_salary + GROSS_UP_MONTHLY_TAX <= MAX_MONTHLY_INCOME,
    ensures
        result.monthly_tax == flat_tax(GROSS_UP_DPP as nat),
        result.monthly_tax == 45_340,
        result.gross_salary == net_salary + 45_340,
        result.annual_tax == 12 * result.monthly_tax,
        result.ptkp == ptkp_for(is_married, num_dependents as nat),
        result.ptkp == ptkp_by_status(is_married, num_dependents as nat),
        result.pkp == taxable_income(result.gross_salary as nat * 12, result.ptkp as nat),
{
    proof {
        lemma_gross_up_tax();
    }
    let monthly_tax = compute_flat_tax(GROSS_UP_DPP);
    let gross_salary = net_salary + monthly_tax;
    let ptkp = ptkp_for_status(is_married, num_dependents);
    let annual_gross = annual_amount(gross_salary);
    let pkp = compute_taxable_income(annual_gross, ptkp);
    let annual_tax = annual_amount(monthly_tax);
    GrossUp { gross_salary, monthly_tax, annual_tax, ptkp, pkp }
}

} // verus!
