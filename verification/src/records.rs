//! The two records that the program keeps on the ledger.

use crate::address::Address;
use crate::error::BudgetError;
use vstd::prelude::*;
use vstd::utf8::encode_utf8;

verus! {

/// One fiscal collection.
#[derive(Clone, Copy, Debug, PartialEq, Eq)]
pub struct BudgetPDA {
    /// Who may create expenses under this budget.
    pub authority: Address,
    /// The collection unit this budget is bound to.
    pub collection_mint: Address,
    /// The fiscal year, for the reader only.
    pub year: u16,
    /// How many expenses were created under this budget; the next one takes
    /// this value as its ordinal.
    pub expense_count: u32,
    /// The bump seed of the record's address.
    pub bump: u8,
}

/// One spending category of a budget.
#[derive(Clone, Debug, PartialEq, Eq)]
pub struct ExpensePDA {
    /// The address of the budget record this expense belongs to.
    pub budget: Address,
    /// The unit type minted for this category.
    pub mint: Address,
    /// The category label.
    pub expense_type: String,
    /// The cap on what may be spent, before variance.
    pub approved_amount: u64,
    /// What has been spent so far.
    pub spent: u64,
    /// The percentage above `approved_amount` that spending may still reach.
    pub variance_pct: u8,
    /// The bump seed of the record's address.
    pub bump: u8,
}

/// The longest category label, in bytes, that the stored form of an expense
/// has room for.
pub const MAX_EXPENSE_TYPE_LEN: usize = 50;

/// The most that may be spent of `approved_amount` with `variance_pct`
/// percent of it on top, rounded down.
pub open spec fn spec_max_allowed(approved_amount: u64, variance_pct: u8) -> int {
    approved_amount * (100 + variance_pct) / 100
}

/// Whether the product that `spec_max_allowed` divides fits in 64 bits.
pub open spec fn cap_fits(approved_amount: u64, variance_pct: u8) -> bool {
    approved_amount * (100 + variance_pct) <= u64::MAX
}

impl ExpensePDA {
    /// What a record holds between operations: a positive cap, a variance of
    /// at most one hundred percent, and no more spent than the two allow.
    pub open spec fn wf(&self) -> bool {
        &&& 0 < self.approved_amount
        &&& self.variance_pct <= 100
        &&& self.spent <= spec_max_allowed(self.approved_amount, self.variance_pct)
    }

    /// Whether the category label fits the room that the stored form of the
    /// record has for it.
    pub open spec fn spec_fits(&self) -> bool {
        encode_utf8(self.expense_type@).len() <= MAX_EXPENSE_TYPE_LEN
    }

    /// Measures the category label against the room it has.
    pub fn fits(&self) -> (fits: bool)
        ensures
            fits == self.spec_fits(),
    {
        self.expense_type.as_str().as_bytes().len() <= MAX_EXPENSE_TYPE_LEN
    }

    /// The cap with variance, or `MathOverflow` where the product does not
    /// fit in 64 bits.
    pub fn max_allowed(&self) -> (cap: Result<u64, BudgetError>)
        ensures
            match cap {
                Ok(most) => {
                    &&& cap_fits(self.approved_amount, self.variance_pct)
                    &&& most == spec_max_allowed(self.approved_amount, self.variance_pct)
                },
                Err(error) => {
                    &&& !cap_fits(self.approved_amount, self.variance_pct)
                    &&& error == BudgetError::MathOverflow
                },
            },
    {
        let percent: u64 = 100 + self.variance_pct as u64;
        match self.approved_amount.checked_mul(percent) {
            Some(scaled) => match scaled.checked_div(100) {
                Some(cap) => Ok(cap),
                None => Err(BudgetError::MathOverflow),
            },
            None => Err(BudgetError::MathOverflow),
        }
    }
}

} // verus!
