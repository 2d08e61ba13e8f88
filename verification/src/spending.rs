//! Spending from an expense: units of the category are burned, and the same
//! value leaves the treasury in the settlement currency.

use crate::address::{copy_bytes, lemma_seed_view, Account, Address, EXPENSE_TAG};
use crate::error::{BudgetError, Failure};
use crate::records::{cap_fits, spec_max_allowed, ExpensePDA};
use crate::service::{Burn, Transfer};
use vstd::prelude::*;

verus! {

/// The settlement currency has six decimal places: one expense unit is worth
/// this many of its smallest units.
pub const SETTLEMENT_SCALE: u64 = 1_000_000;

/// The accounts that a spend touches.
#[derive(Clone, Debug, PartialEq, Eq)]
pub struct Spend {
    /// The expense that is spent from, as it stands.
    pub expense_pda: Account<ExpensePDA>,
    pub expense_mint: Address,
    /// The expense record's own holding account for its units.
    pub expense_ata: Address,
    /// The treasury's holding account for the settlement currency.
    pub treasury_usdc_ata: Address,
    /// The operational holding account that the settlement goes to.
    pub operational_usdc_ata: Address,
    /// Who releases the settlement. It signs the transaction itself: the
    /// program holds no seeds for it and signs nothing in its name.
    pub treasury_authority: Address,
}

/// What `amount` expense units are worth in the settlement currency.
pub open spec fn spec_settlement(amount: u64) -> int {
    amount * SETTLEMENT_SCALE
}

/// Why the program refuses to spend `amount` from `expense`, if it does:
/// `MathOverflow` where the cap or the new total leaves 64 bits, `OverBudget`
/// where the new total passes the cap.
pub open spec fn spec_refusal(expense: ExpensePDA, amount: u64) -> Option<BudgetError> {
    if !cap_fits(expense.approved_amount, expense.variance_pct) || expense.spent + amount
        > u64::MAX {
        Some(BudgetError::MathOverflow)
    } else if expense.spent + amount > spec_max_allowed(
        expense.approved_amount,
        expense.variance_pct,
    ) {
        Some(BudgetError::OverBudget)
    } else {
        None
    }
}

/// One attempt to spend from an expense: how much, and whether the service
/// carried out the burn and the settlement.
pub struct SpendAttempt {
    pub amount: u64,
    pub burned: bool,
    pub settled: bool,
}

/// Whether an attempt commits: the program does not refuse it, the value of
/// its units fits the settlement currency, and the service carries out both
/// the burn and the settlement.
pub open spec fn spec_commits(expense: ExpensePDA, attempt: SpendAttempt) -> bool {
    &&& spec_refusal(expense, attempt.amount) is None
    &&& attempt.burned
    &&& spec_settlement(attempt.amount) <= u64::MAX
    &&& attempt.settled
}

/// The expense after an attempt: with the amount added to what was spent
/// where the attempt commits, untouched where it does not.
pub open spec fn spec_after(expense: ExpensePDA, attempt: SpendAttempt) -> ExpensePDA {
    if spec_commits(expense, attempt) {
        ExpensePDA { spent: (expense.spent + attempt.amount) as u64, ..expense }
    } else {
        expense
    }
}

/// The expense after a run of attempts, one after the other.
pub open spec fn spec_after_all(expense: ExpensePDA, attempts: Seq<SpendAttempt>) -> ExpensePDA
    decreases attempts.len(),
{
    if attempts.len() == 0 {
        expense
    } else {
        spec_after(spec_after_all(expense, attempts.drop_last()), attempts.last())
    }
}

impl Spend {
    /// The seeds that the expense record signs a burn with: the tag, the
    /// address of its budget, then its bump seed.
    pub open spec fn spec_signer_seeds(&self) -> Seq<Seq<u8>> {
        seq![EXPENSE_TAG@, self.expense_pda.data.budget@, seq![self.expense_pda.data.bump]]
    }

    /// The burn of `amount` units out of the expense record's holding
    /// account, under its own authority.
    pub open spec fn spec_burn(&self, amount: u64) -> Burn {
        Burn {
            mint: self.expense_mint,
            from: self.expense_ata,
            authority: self.expense_pda.key,
            amount,
        }
    }

    /// The settlement of `amount` of the settlement currency from the
    /// treasury to the operational account.
    pub open spec fn spec_transfer(&self, amount: u64) -> Transfer {
        Transfer {
            from: self.treasury_usdc_ata,
            to: self.operational_usdc_ata,
            authority: self.treasury_authority,
            amount,
        }
    }
}

/// A spend whose units are being burned.
#[derive(Clone, Debug, PartialEq, Eq)]
pub struct Burning {
    pub ctx: Spend,
    /// What will have been spent once the spend commits.
    pub new_spent: u64,
    /// What the token service is to do now.
    pub request: Burn,
    /// The seeds under which the expense record signs the request.
    pub signer_seeds: Vec<Vec<u8>>,
}

/// A spend whose settlement is being transferred.
#[derive(Clone, Debug, PartialEq, Eq)]
pub struct Settling {
    pub ctx: Spend,
    /// What will have been spent once the spend commits.
    pub new_spent: u64,
    /// What the token service is to do now.
    pub request: Transfer,
}

impl Burning {
    /// Whether this is the start of a spend of `amount` with the accounts
    /// `ctx`: the new total is what was spent plus `amount`, and `amount`
    /// units are to be burned under the expense record's signature.
    pub open spec fn starts(&self, ctx: Spend, amount: u64) -> bool {
        &&& self.ctx == ctx
        &&& self.new_spent == ctx.expense_pda.data.spent + amount
        &&& self.request == ctx.spec_burn(amount)
        &&& self.signer_seeds.deep_view() == ctx.spec_signer_seeds()
    }

    /// What follows the burn, for each way it can go: the service's own
    /// error; `MathOverflow` where the value of the burned units in the
    /// settlement currency leaves 64 bits; else the transfer of exactly that
    /// value.
    pub open spec fn spec_burned<E>(self, outcome: Result<(), E>) -> Result<Settling, Failure<E>> {
        match outcome {
            Ok(_) => if spec_settlement(self.request.amount) <= u64::MAX {
                Ok(
                    Settling {
                        ctx: self.ctx,
                        new_spent: self.new_spent,
                        request: self.ctx.spec_transfer(
                            spec_settlement(self.request.amount) as u64,
                        ),
                    },
                )
            } else {
                Err(Failure::Program(BudgetError::MathOverflow))
            },
            Err(error) => Err(Failure::Service(error)),
        }
    }

    /// How the spend ends, given how the burn and the settlement go: with
    /// the expense as it stands after the spend, or with no change to it.
    pub open spec fn spec_run<E>(self, burned: Result<(), E>, settled: Result<(), E>) -> Result<
        Account<ExpensePDA>,
        Failure<E>,
    > {
        match self.spec_burned(burned) {
            Ok(settling) => settling.spec_settled(settled),
            Err(failure) => Err(failure),
        }
    }
}

impl Settling {
    /// The expense once the spend commits.
    pub open spec fn spec_expense(&self) -> Account<ExpensePDA> {
        Account {
            key: self.ctx.expense_pda.key,
            data: ExpensePDA { spent: self.new_spent, ..self.ctx.expense_pda.data },
        }
    }

    /// What follows the settlement, for each way it can go: the service's
    /// own error, or the expense with the new total spent.
    pub open spec fn spec_settled<E>(self, outcome: Result<(), E>) -> Result<
        Account<ExpensePDA>,
        Failure<E>,
    > {
        match outcome {
            Ok(_) => Ok(self.spec_expense()),
            Err(error) => Err(Failure::Service(error)),
        }
    }
}

/// Starts a spend of `amount` from the expense. The program refuses it with
/// `MathOverflow` where the cap with variance or the new total cannot be
/// computed in 64 bits, and with `OverBudget` where the new total would pass
/// the cap. Otherwise `amount` units are to be burned.
pub fn spend(ctx: Spend, amount: u64) -> (burning: Result<Burning, BudgetError>)
    ensures
        match spec_refusal(ctx.expense_pda.data, amount) {
            Some(error) => burning == Err::<Burning, BudgetError>(error),
            None => burning matches Ok(started) && started.starts(ctx, amount),
        },
{
    let max_allowed = match ctx.expense_pda.data.max_allowed() {
        Ok(cap) => cap,
        Err(error) => {
            return Err(error);
        },
    };
    let new_spent = match ctx.expense_pda.data.spent.checked_add(amount) {
        Some(total) => total,
        None => {
            return Err(BudgetError::MathOverflow);
        },
    };
    if new_spent > max_allowed {
        return Err(BudgetError::OverBudget);
    }
    let mut bump_seed: Vec<u8> = Vec::new();
    bump_seed.push(ctx.expense_pda.data.bump);
    let mut signer_seeds: Vec<Vec<u8>> = Vec::new();
    signer_seeds.push(copy_bytes(&EXPENSE_TAG));
    signer_seeds.push(copy_bytes(&ctx.expense_pda.data.budget.bytes));
    signer_seeds.push(bump_seed);
    proof {
        lemma_seed_view(signer_seeds@[0]);
        lemma_seed_view(signer_seeds@[1]);
        lemma_seed_view(signer_seeds@[2]);
        assert(signer_seeds.deep_view() =~= ctx.spec_signer_seeds());
    }
    let request = Burn {
        mint: ctx.expense_mint,
        from: ctx.expense_ata,
        authority: ctx.expense_pda.key,
        amount,
    };
    Ok(Burning { ctx, new_spent, request, signer_seeds })
}

impl Burning {
    /// Takes the outcome of the burn. A failure of the service ends the
    /// spend with the service's own error. After a success the value of the
    /// burned units in the settlement currency is to be transferred, and the
    /// spend ends in `MathOverflow` where that value leaves 64 bits.
    pub fn burned<E>(self, outcome: Result<(), E>) -> (next: Result<Settling, Failure<E>>)
        ensures
            next == self.spec_burned(outcome),
    {
        match outcome {
            Ok(_) => match self.request.amount.checked_mul(SETTLEMENT_SCALE) {
                Some(amount) => {
                    let request = Transfer {
                        from: self.ctx.treasury_usdc_ata,
                        to: self.ctx.operational_usdc_ata,
                        authority: self.ctx.treasury_authority,
                        amount,
                    };
                    Ok(Settling { ctx: self.ctx, new_spent: self.new_spent, request })
                },
                None => Err(Failure::Program(BudgetError::MathOverflow)),
            },
            Err(error) => Err(Failure::Service(error)),
        }
    }
}

impl Settling {
    /// Takes the outcome of the settlement. A failure of the service ends
    /// the spend with the service's own error and the expense as it was;
    /// after a success the spend commits, and the expense has the new total
    /// spent.
    pub fn settled<E>(self, outcome: Result<(), E>) -> (expense: Result<
        Account<ExpensePDA>,
        Failure<E>,
    >)
        ensures
            expense == self.spec_settled(outcome),
    {
        match outcome {
            Ok(_) => {
                let mut expense = self.ctx.expense_pda;
                expense.data.spent = self.new_spent;
                Ok(expense)
            },
            Err(error) => Err(Failure::Service(error)),
        }
    }
}

} // verus!
