//! Indonesian payroll and general tax arithmetic in whole rupiah.
//!
//! Money is counted in whole rupiah (`u64`), rates in basis points or whole
//! percent, and every result is an exact integer or an [`amount::ExactAmount`].

pub mod amount;
pub mod brackets;
pub mod decimal;
pub mod display;
pub mod menu;
pub mod pph21;
pub mod ptkp;
pub mod vat;
