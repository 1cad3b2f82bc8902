//! Amounts of money that need not be whole rupiah.

use vstd::prelude::*;

verus! {

/// Number of equal parts into which an [`ExactAmount`] divides one rupiah.
pub const PARTS_PER_RUPIAH: u128 = 10_000;

/// A non-negative amount of money, counted in ten-thousandths of a rupiah.
///
/// Products of a whole amount with a rate in basis points or in percent are
/// whole numbers of such parts, so taxes can be carried without rounding.
#[derive(Clone, Copy, Debug, PartialEq, Eq, Structural)]
pub struct ExactAmount {
    /// The amount in ten-thousandths of a rupiah.
    pub parts: u128,
}

impl ExactAmount {
    /// The whole rupiah contained in the amount.
    pub open spec fn whole_part(self) -> nat {
        (self.parts / PARTS_PER_RUPIAH) as nat
    }

    /// What remains beside the whole rupiah, in ten-thousandths.
    pub open spec fn fraction_part(self) -> nat {
        (self.parts % PARTS_PER_RUPIAH) as nat
    }

    /// The amount of `rupiah` whole rupiah.
    pub fn from_rupiah(rupiah: u64) -> (amount: ExactAmount)
        ensures
            amount.parts == rupiah * PARTS_PER_RUPIAH,
            amount.whole_part() == rupiah,
            amount.fraction_part() == 0,
    {
        let wide: u128 = rupiah as u128;
        ExactAmount { parts: wide * PARTS_PER_RUPIAH }
    }

    /// The sum of two amounts, or `None` if it is too large to be held.
    pub fn checked_add(self, other: ExactAmount) -> (sum: Option<ExactAmount>)
        ensures
            self.parts + other.parts <= u128::MAX ==> sum == Some(
                (ExactAmount { parts: (self.parts + other.parts) as u128 }),
            ),
            self.parts + other.parts > u128::MAX ==> sum.is_none(),
    {
        match self.parts.checked_add(other.parts) {
            Some(parts) => Some(ExactAmount { parts }),
            None => None,
        }
    }

    /// What is left of the amount when `other` is taken from it, or `None` if
    /// `other` is the larger.
    pub fn checked_sub(self, other: ExactAmount) -> (rest: Option<ExactAmount>)
        ensures
            other.parts <= self.parts ==> rest == Some(
                (ExactAmount { parts: (self.parts - other.parts) as u128 }),
            ),
            other.parts > self.parts ==> rest.is_none(),
    {
        if other.parts <= self.parts {
            Some(ExactAmount { parts: self.parts - other.parts })
        } else {
            None
        }
    }

    /// The whole rupiah contained in the amount, fractions dropped.
    pub fn whole(&self) -> (rupiah: u128)
        ensures
            rupiah == self.whole_part(),
    {
        self.parts / PARTS_PER_RUPIAH
    }

    /// The ten-thousandths of a rupiah beside the whole rupiah.
    pub fn fraction(&self) -> (fraction: u32)
        ensures
            fraction == self.fraction_part(),
            fraction < PARTS_PER_RUPIAH,
    {
        (self.parts % PARTS_PER_RUPIAH) as u32
    }
}

} // verus!
