//! Value-added tax (PPN).

use vstd::prelude::*;
use crate::amount::ExactAmount;

verus! {

/// The VAT rate used when none is given, in percent.
pub const DEFAULT_VAT_RATE: u32 = 11;

/// VAT on `amount` rupiah at `vat_rate` percent, in ten-thousandths of a rupiah:
/// `amount × vat_rate ÷ 100` rupiah.
pub open spec fn vat_parts(amount: nat, vat_rate: nat) -> nat {
    amount * vat_rate * 100
}

/// Computes the value-added tax on `amount` rupiah at `vat_rate` percent.
///
/// The result is exact: `amount × vat_rate ÷ 100` rupiah, with the fraction kept.
pub fn calculate_vat(amount: u64, vat_rate: u32) -> (tax: ExactAmount)
    ensures
        tax.parts == vat_parts(amount as nat, vat_rate as nat),
        tax.parts * 100 == amount * vat_rate * crate::amount::PARTS_PER_RUPIAH,
        amount == 0 ==> tax.parts == 0,
{
    let base: u128 = amount as u128;
    let rate: u128 = vat_rate as u128;
    assert(base * rate <= 0xffff_ffff_ffff_ffff * 0xffff_ffff) by (nonlinear_arith)
        requires
            base <= 0xffff_ffff_ffff_ffff,
            rate <= 0xffff_ffff,
    ;
    let product: u128 = base * rate;
    let parts: u128 = product * 100;
    assert(amount == 0 ==> base * rate == 0) by (nonlinear_arith)
        requires
            base == amount,
    ;
    ExactAmount { parts }
}

/// Computes what is to be paid for `amount` rupiah with the VAT on it.
pub fn price_with_vat(amount: u64, vat_rate: u32) -> (total: ExactAmount)
    ensures
        total.parts == amount * 10_000 + vat_parts(amount as nat, vat_rate as nat),
{
    let price = ExactAmount::from_rupiah(amount);
    let tax = calculate_vat(amount, vat_rate);
    assert(amount * vat_rate <= 0xffff_ffff_ffff_ffff * 0xffff_ffff) by (nonlinear_arith)
        requires
            amount <= 0xffff_ffff_ffff_ffff,
            vat_rate <= 0xffff_ffff,
    ;
    ExactAmount { parts: price.parts + tax.parts }
}

} // verus!
