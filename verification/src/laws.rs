//! What holds of the operations taken together.
//!
//! Each operation is a start and the steps that take the service's outcomes.
//! The laws below speak of whole operations, and of runs of them, over the
//! transitions that the steps are specified by.

use crate::address::{program_address, spec_budget_seeds, spec_expense_seeds, Account, Address};
use crate::budget::{spec_create_budget_collection, CreateBudgetCollection};
use crate::error::{BudgetError, Failure};
use crate::expense;
use crate::expense::{CreateExpense, ExpenseAttempt, ExpenseCreated, MintingExpense};
use crate::records::{spec_max_allowed, BudgetPDA, ExpensePDA};
use crate::spending::{
    spec_after, spec_after_all, spec_refusal, spec_settlement, Burning, Spend, SpendAttempt,
    SETTLEMENT_SCALE,
};
use vstd::bytes::{
    lemma_auto_spec_u32_to_from_le_bytes, spec_u32_from_le_bytes, spec_u32_to_le_bytes,
};
use vstd::prelude::*;

verus! {

/// Opening a budget leaves exactly one record behind where all three calls
/// succeed, and none where any of them fails: the error is then that of the
/// first call that failed. The record lives at the address that the accounts
/// name, is bound to the collection unit, has the payer as its authority and
/// counts no expense.
pub proof fn law_budget_is_created_whole<E>(
    ctx: CreateBudgetCollection,
    name: String,
    symbol: String,
    uri: String,
    year: u16,
    minted: Result<(), E>,
    described: Result<(), E>,
    sealed: Result<(), E>,
)
    ensures
        ({
            let run = spec_create_budget_collection(ctx, name, symbol, uri, year).spec_run(
                minted,
                described,
                sealed,
            );
            &&& run is Ok <==> minted is Ok && described is Ok && sealed is Ok
            &&& run matches Ok(budget) ==> {
                &&& budget.key == ctx.budget_pda
                &&& budget.data.authority == ctx.payer
                &&& budget.data.collection_mint == ctx.collection_mint
                &&& budget.data.year == year
                &&& budget.data.expense_count == 0
                &&& budget.data.bump == ctx.bump
            }
            &&& minted matches Err(error) ==> run == Err::<Account<BudgetPDA>, Failure<E>>(
                Failure::Service(error),
            )
            &&& minted is Ok ==> (described matches Err(error) ==> run == Err::<
                Account<BudgetPDA>,
                Failure<E>,
            >(Failure::Service(error)))
            &&& minted is Ok && described is Ok ==> (sealed matches Err(error) ==> run == Err::<
                Account<BudgetPDA>,
                Failure<E>,
            >(Failure::Service(error)))
        }),
{
}

/// A budget opened with accounts at their derived address is found again
/// from its own fields: the ledger derives the record's address and bump
/// seed from the collection unit that the record names.
pub proof fn law_budget_lives_at_its_derived_address(
    ctx: CreateBudgetCollection,
    year: u16,
    program_id: Address,
)
    requires
        ctx.at_derived_address(program_id),
    ensures
        ({
            let budget = ctx.spec_record(year);
            program_address(spec_budget_seeds(budget.data.collection_mint), program_id@) == Some(
                (budget.key@, budget.data.bump),
            )
        }),
{
}

/// Creating an expense leaves exactly one new record behind where the
/// program accepts it, both calls succeed and the budget's count can move
/// on, and changes nothing otherwise. The record then has the approved
/// amount and the variance it was created with and nothing spent, and is
/// well formed; the budget's count has moved on by exactly one, and nothing
/// else of the budget has changed.
pub proof fn law_expense_is_created_whole<E>(
    started: MintingExpense,
    ctx: CreateExpense,
    expense_name: String,
    expense_type: String,
    uri: String,
    approved_amount: u64,
    variance_pct: u8,
    minted: Result<(), E>,
    tagged: Result<(), E>,
)
    requires
        ctx.spec_refusal(approved_amount, variance_pct) is None,
        started.starts(ctx, expense_name, expense_type, uri, approved_amount, variance_pct),
    ensures
        ({
            let run = started.spec_run(minted, tagged);
            let budget = ctx.budget_pda;
            let attempt = ExpenseAttempt {
                authority: ctx.authority,
                approved_amount,
                variance_pct,
                minted: minted is Ok,
                tagged: tagged is Ok,
            };
            &&& run is Ok <==> minted is Ok && tagged is Ok && budget.data.expense_count < u32::MAX
            &&& run matches Ok(created) ==> {
                &&& created.expense.key == ctx.expense_pda
                &&& created.expense.data.budget == budget.key
                &&& created.expense.data.mint == ctx.expense_mint
                &&& created.expense.data.expense_type == expense_type
                &&& created.expense.data.approved_amount == approved_amount
                &&& created.expense.data.variance_pct == variance_pct
                &&& created.expense.data.spent == 0
                &&& created.expense.data.bump == ctx.bump
                &&& created.expense.data.wf()
                &&& created.budget.key == budget.key
                &&& created.budget.data.expense_count == budget.data.expense_count + 1
                &&& created.budget.data == (BudgetPDA {
                    expense_count: created.budget.data.expense_count,
                    ..budget.data
                })
                &&& created.budget.data == expense::spec_after(budget.data, attempt)
            }
            &&& run is Err ==> expense::spec_after(budget.data, attempt) == budget.data
            &&& minted matches Err(error) ==> run == Err::<ExpenseCreated, Failure<E>>(
                Failure::Service(error),
            )
            &&& minted is Ok ==> (tagged matches Err(error) ==> run == Err::<
                ExpenseCreated,
                Failure<E>,
            >(Failure::Service(error)))
            &&& minted is Ok && tagged is Ok && budget.data.expense_count == u32::MAX ==> run
                == Err::<ExpenseCreated, Failure<E>>(Failure::Program(BudgetError::MathOverflow))
        }),
{
    assert(0 <= spec_max_allowed(approved_amount, variance_pct)) by (nonlinear_arith);
}

/// An attempt that the program refuses changes nothing: a signer who is not
/// the budget's authority, a variance above one hundred percent or an
/// approved amount of zero leaves the count of the budget where it was.
pub proof fn law_refused_expense_changes_nothing(budget: BudgetPDA, attempt: ExpenseAttempt)
    requires
        expense::spec_refusal(
            budget,
            attempt.authority,
            attempt.approved_amount,
            attempt.variance_pct,
        ) is Some,
    ensures
        expense::spec_after(budget, attempt) == budget,
        attempt.authority != budget.authority ==> expense::spec_refusal(
            budget,
            attempt.authority,
            attempt.approved_amount,
            attempt.variance_pct,
        ) == Some(BudgetError::Unauthorized),
{
}

/// An expense is created under the ordinal that the budget's count stands
/// at: with accounts at their derived address, the ledger derives the new
/// record's address from the budget's collection unit and that count, and
/// the record signs with the same seeds, closed by its bump seed.
pub proof fn law_expense_takes_the_current_ordinal(ctx: CreateExpense, program_id: Address)
    requires
        ctx.at_derived_address(program_id),
    ensures
        program_address(
            spec_expense_seeds(
                ctx.budget_pda.data.collection_mint,
                ctx.budget_pda.data.expense_count,
            ),
            program_id@,
        ) == Some((ctx.expense_pda@, ctx.bump)),
        ctx.spec_signer_seeds().drop_last() == spec_expense_seeds(
            ctx.budget_pda.data.collection_mint,
            ctx.budget_pda.data.expense_count,
        ),
        ctx.spec_signer_seeds().last() == seq![ctx.bump],
{
    let seeds = spec_expense_seeds(
        ctx.budget_pda.data.collection_mint,
        ctx.budget_pda.data.expense_count,
    );
    assert(seeds.push(seq![ctx.bump]).drop_last() =~= seeds);
}

/// The seeds tell the records apart: two expenses of one budget have the
/// same seeds only where they were created under the same ordinal, two
/// budgets only where they belong to the same collection unit, and an
/// expense never has the seeds of a budget.
pub proof fn law_seeds_tell_records_apart(
    collection_mint: Address,
    first: u32,
    second: u32,
    other_mint: Address,
)
    ensures
        spec_expense_seeds(collection_mint, first) == spec_expense_seeds(collection_mint, second)
            <==> first == second,
        spec_budget_seeds(collection_mint) == spec_budget_seeds(other_mint) <==> collection_mint
            == other_mint,
        spec_expense_seeds(collection_mint, first) != spec_budget_seeds(other_mint),
{
    let one = spec_expense_seeds(collection_mint, first);
    let two = spec_expense_seeds(collection_mint, second);
    if one == two {
        assert(one[2] == two[2]);
        lemma_auto_spec_u32_to_from_le_bytes();
        assert(spec_u32_to_le_bytes(first).len() == 4);
        assert(spec_u32_to_le_bytes(second).len() == 4);
        assert(spec_u32_from_le_bytes(spec_u32_to_le_bytes(first)) == first);
        assert(spec_u32_from_le_bytes(spec_u32_to_le_bytes(second)) == second);
    }
    let budget = spec_budget_seeds(collection_mint);
    let other = spec_budget_seeds(other_mint);
    if budget == other {
        assert(budget[1] == other[1]);
        collection_mint.lemma_equal_by_bytes(other_mint);
    }
    assert(one.len() != other.len());
}

/// Over any run of attempts to create expenses under a budget, nothing of
/// the budget changes but its count, and the count stands at its first
/// value plus the number of attempts that committed. So the attempt that
/// follows `n` commits under a budget that started at zero finds the count
/// at `n`, and that is the ordinal it takes.
pub proof fn law_count_is_the_number_of_commits(budget: BudgetPDA, attempts: Seq<ExpenseAttempt>)
    ensures
        expense::spec_after_all(budget, attempts).expense_count == budget.expense_count
            + expense::spec_commit_count(budget, attempts),
        expense::spec_after_all(budget, attempts) == (BudgetPDA {
            expense_count: expense::spec_after_all(budget, attempts).expense_count,
            ..budget
        }),
    decreases attempts.len(),
{
    if attempts.len() > 0 {
        law_count_is_the_number_of_commits(budget, attempts.drop_last());
    }
}

/// Under a budget that starts with no expense, every attempt of a run finds
/// the count at the number of earlier attempts that committed: the first
/// expense is created under ordinal zero, and the one that follows `n`
/// commits under ordinal `n`.
pub proof fn law_ordinal_is_the_number_of_earlier_commits(
    budget: BudgetPDA,
    attempts: Seq<ExpenseAttempt>,
    position: int,
)
    requires
        budget.expense_count == 0,
        0 <= position <= attempts.len(),
    ensures
        expense::spec_after_all(budget, attempts.take(position)).expense_count
            == expense::spec_commit_count(budget, attempts.take(position)),
{
    law_count_is_the_number_of_commits(budget, attempts.take(position));
}

/// The count of a budget never goes down, whatever is attempted and
/// however long.
pub proof fn law_count_never_decreases(
    budget: BudgetPDA,
    attempts: Seq<ExpenseAttempt>,
    more: Seq<ExpenseAttempt>,
)
    ensures
        expense::spec_after_all(budget, attempts).expense_count <= expense::spec_after_all(
            budget,
            attempts + more,
        ).expense_count,
    decreases more.len(),
{
    if more.len() == 0 {
        assert(attempts + more =~= attempts);
    } else {
        law_count_never_decreases(budget, attempts, more.drop_last());
        assert((attempts + more).drop_last() =~= attempts + more.drop_last());
    }
}

/// A spend of `amount` that the program accepts asks for the burn of
/// exactly `amount` units and then for the settlement of exactly `amount`
/// times one million. It commits where both calls succeed, with `amount`
/// added to what was spent and nothing else changed; where the burn or the
/// settlement fails, or the settlement cannot be computed, it ends with that
/// failure and leaves the expense as it was.
pub proof fn law_spend_is_settled_in_full<E>(
    started: Burning,
    ctx: Spend,
    amount: u64,
    burned: Result<(), E>,
    settled: Result<(), E>,
)
    requires
        spec_refusal(ctx.expense_pda.data, amount) is None,
        started.starts(ctx, amount),
    ensures
        started.request.amount == amount,
        started.spec_burned(burned) matches Ok(settling) ==> {
            &&& settling.request.amount == amount * SETTLEMENT_SCALE
            &&& settling.request == ctx.spec_transfer((amount * SETTLEMENT_SCALE) as u64)
        },
        ({
            let run = started.spec_run(burned, settled);
            let attempt = SpendAttempt { amount, burned: burned is Ok, settled: settled is Ok };
            &&& run is Ok <==> burned is Ok && settled is Ok && spec_settlement(amount) <= u64::MAX
            &&& run matches Ok(expense) ==> {
                &&& expense.key == ctx.expense_pda.key
                &&& expense.data.spent == ctx.expense_pda.data.spent + amount
                &&& expense.data == spec_after(ctx.expense_pda.data, attempt)
            }
            &&& run is Err ==> spec_after(ctx.expense_pda.data, attempt) == ctx.expense_pda.data
            &&& burned matches Err(error) ==> run == Err::<Account<ExpensePDA>, Failure<E>>(
                Failure::Service(error),
            )
            &&& burned is Ok && spec_settlement(amount) > u64::MAX ==> run == Err::<
                Account<ExpensePDA>,
                Failure<E>,
            >(Failure::Program(BudgetError::MathOverflow))
            &&& burned is Ok && spec_settlement(amount) <= u64::MAX ==> (settled matches Err(
                error,
            ) ==> run == Err::<Account<ExpensePDA>, Failure<E>>(Failure::Service(error)))
        }),
{
}

/// A spend that the program refuses changes nothing.
pub proof fn law_refused_spend_changes_nothing(
    expense: ExpensePDA,
    amount: u64,
    burned: bool,
    settled: bool,
)
    requires
        spec_refusal(expense, amount) is Some,
    ensures
        spec_after(expense, SpendAttempt { amount, burned, settled }) == expense,
{
}

/// What was spent from an expense never goes down, over any run of
/// attempts, and nothing but what was spent ever changes.
pub proof fn law_spent_never_decreases(expense: ExpensePDA, attempts: Seq<SpendAttempt>)
    ensures
        spec_after_all(expense, attempts).spent >= expense.spent,
        spec_after_all(expense, attempts) == (ExpensePDA {
            spent: spec_after_all(expense, attempts).spent,
            ..expense
        }),
    decreases attempts.len(),
{
    if attempts.len() > 0 {
        law_spent_never_decreases(expense, attempts.drop_last());
    }
}

/// A well-formed expense stays well formed over any run of attempts: what
/// was spent never passes the approved amount with its variance, rounded
/// down.
pub proof fn law_spent_stays_within_the_cap(expense: ExpensePDA, attempts: Seq<SpendAttempt>)
    requires
        expense.wf(),
    ensures
        spec_after_all(expense, attempts).wf(),
        spec_after_all(expense, attempts).spent <= spec_max_allowed(
            expense.approved_amount,
            expense.variance_pct,
        ),
    decreases attempts.len(),
{
    if attempts.len() > 0 {
        law_spent_stays_within_the_cap(expense, attempts.drop_last());
        law_spent_never_decreases(expense, attempts.drop_last());
    }
}

} // verus!
