//! Why an operation does not commit.

use vstd::prelude::*;

verus! {

/// The refusals of the budget program itself.
#[derive(Clone, Copy, Debug, PartialEq, Eq, Structural, Hash)]
pub enum BudgetError {
    /// The signer is not the authority of the budget.
    Unauthorized,
    /// The spend would pass the approved amount with its variance.
    OverBudget,
    /// The variance is above one hundred percent.
    InvalidVariance,
    /// The approved amount is zero.
    InvalidAmount,
    /// A checked operation left the width of its integer.
    MathOverflow,
}

/// Why an operation was abandoned: the program refused it, or the token and
/// metadata service failed a call, in which case its error is handed on as it
/// came.
#[derive(Debug, PartialEq, Eq)]
pub enum Failure<E> {
    Program(BudgetError),
    Service(E),
}

} // verus!
