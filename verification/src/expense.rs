//! Creating an expense under a budget: a spending category with a cap, its
//! own unit type, and the next ordinal of the budget.

use crate::address::{
    budget_address, derived_view, expense_address, expense_seeds, program_address,
    spec_budget_seeds, spec_expense_seeds, Account, Address,
};
use crate::error::{BudgetError, Failure};
use crate::records::{BudgetPDA, ExpensePDA};
use crate::service::{CollectionTag, CreateMetadata, MintTo, TokenData};
use vstd::prelude::*;
use vstd::string::StrSliceExecFns;

verus! {

/// How many characters of a category label make the symbol of its unit.
pub const SYMBOL_CHARS: usize = 10;

/// The accounts that creating an expense touches.
#[derive(Clone, Copy, Debug, PartialEq, Eq)]
pub struct CreateExpense {
    /// The budget that the expense is created under, as it stands.
    pub budget_pda: Account<BudgetPDA>,
    /// Where the expense record will live.
    pub expense_pda: Address,
    /// The bump seed of `expense_pda`.
    pub bump: u8,
    /// The fresh unit type of the category.
    pub expense_mint: Address,
    /// The expense record's own holding account for its units.
    pub expense_ata: Address,
    pub expense_metadata: Address,
    pub payer: Address,
    /// Who signs as the authority of the budget.
    pub authority: Address,
    pub system_program: Address,
    pub rent: Address,
}

/// The symbol of a unit whose category is `expense_type`: its first ten
/// characters, or all of it where it has no more.
pub open spec fn spec_symbol(expense_type: Seq<char>) -> Seq<char> {
    if expense_type.len() > SYMBOL_CHARS {
        expense_type.take(SYMBOL_CHARS as int)
    } else {
        expense_type
    }
}

/// Cuts the symbol of a unit out of its category label.
pub fn symbol_of(expense_type: &String) -> (symbol: String)
    ensures
        symbol@ == spec_symbol(expense_type@),
{
    let label = expense_type.as_str();
    if label.unicode_len() > SYMBOL_CHARS {
        label.substring_char(0, SYMBOL_CHARS).to_owned()
    } else {
        expense_type.clone()
    }
}

/// Why the program refuses to create an expense under `budget` for the
/// signer `authority`, if it does. The signer is judged first, then the
/// variance, then the amount.
pub open spec fn spec_refusal(
    budget: BudgetPDA,
    authority: Address,
    approved_amount: u64,
    variance_pct: u8,
) -> Option<BudgetError> {
    if authority != budget.authority {
        Some(BudgetError::Unauthorized)
    } else if variance_pct > 100 {
        Some(BudgetError::InvalidVariance)
    } else if approved_amount == 0 {
        Some(BudgetError::InvalidAmount)
    } else {
        None
    }
}

impl CreateExpense {
    /// The ordinal that the expense takes: the budget's count as it stands.
    pub open spec fn ordinal(&self) -> u32 {
        self.budget_pda.data.expense_count
    }

    /// Whether the budget record and the expense record are where the ledger
    /// derives them under `program_id`: the budget from its collection unit,
    /// the expense from the collection unit and its ordinal.
    pub open spec fn at_derived_address(&self, program_id: Address) -> bool {
        &&& program_address(
            spec_budget_seeds(self.budget_pda.data.collection_mint),
            program_id@,
        ) == Some((self.budget_pda.key@, self.budget_pda.data.bump))
        &&& program_address(
            spec_expense_seeds(self.budget_pda.data.collection_mint, self.ordinal()),
            program_id@,
        ) == Some((self.expense_pda@, self.bump))
    }

    /// Whether `budget` and `expense`, as the ledger handed them out, are
    /// the addresses and bump seeds that the accounts name for the two
    /// records.
    pub fn is_derived(
        &self,
        budget: Option<(Address, u8)>,
        expense: Option<(Address, u8)>,
    ) -> (same: bool)
        ensures
            same == (derived_view(budget) == Some(
                (self.budget_pda.key@, self.budget_pda.data.bump),
            ) && derived_view(expense) == Some((self.expense_pda@, self.bump))),
    {
        let budget_found = match budget {
            Some((address, bump)) => {
                proof {
                    address.lemma_equal_by_bytes(self.budget_pda.key);
                }
                address == self.budget_pda.key && bump == self.budget_pda.data.bump
            },
            None => false,
        };
        let expense_found = match expense {
            Some((address, bump)) => {
                proof {
                    address.lemma_equal_by_bytes(self.expense_pda);
                }
                address == self.expense_pda && bump == self.bump
            },
            None => false,
        };
        budget_found && expense_found
    }

    /// Derives both addresses anew and holds the accounts against them.
    pub fn is_at_derived_address(&self, program_id: &Address) -> (derived: bool)
        ensures
            derived == self.at_derived_address(*program_id),
    {
        let budget = &self.budget_pda.data;
        self.is_derived(
            budget_address(program_id, &budget.collection_mint),
            expense_address(program_id, &budget.collection_mint, budget.expense_count),
        )
    }

    /// The seeds that the expense record signs with: those of its address,
    /// then its bump seed.
    pub open spec fn spec_signer_seeds(&self) -> Seq<Seq<u8>> {
        spec_expense_seeds(self.budget_pda.data.collection_mint, self.ordinal()).push(
            seq![self.bump],
        )
    }

    /// Why the program refuses to create the expense with these accounts,
    /// if it does.
    pub open spec fn spec_refusal(&self, approved_amount: u64, variance_pct: u8) -> Option<
        BudgetError,
    > {
        spec_refusal(self.budget_pda.data, self.authority, approved_amount, variance_pct)
    }

    /// The initial supply of the category: the approved amount, minted to
    /// the expense record's holding account under its own authority.
    pub open spec fn spec_mint(&self, approved_amount: u64) -> MintTo {
        MintTo {
            mint: self.expense_mint,
            to: self.expense_ata,
            authority: self.expense_pda,
            amount: approved_amount,
        }
    }

    /// Whether `metadata` describes the unit of an expense created with
    /// these accounts: under the expense record's authority, with the symbol
    /// of its category, no royalty, and tagged as a member of the budget's
    /// collection that the collection has not confirmed.
    pub open spec fn describes(
        &self,
        metadata: CreateMetadata,
        expense_name: String,
        expense_type: String,
        uri: String,
    ) -> bool {
        &&& metadata.metadata == self.expense_metadata
        &&& metadata.mint == self.expense_mint
        &&& metadata.mint_authority == self.expense_pda
        &&& metadata.payer == self.payer
        &&& metadata.update_authority == self.expense_pda
        &&& metadata.update_authority_is_signer
        &&& metadata.system_program == self.system_program
        &&& metadata.rent == Some(self.rent)
        &&& metadata.data.name == expense_name
        &&& metadata.data.symbol@ == spec_symbol(expense_type@)
        &&& metadata.data.uri == uri
        &&& metadata.data.seller_fee_basis_points == 0
        &&& metadata.data.collection == Some(
            CollectionTag { verified: false, key: self.budget_pda.data.collection_mint },
        )
        &&& metadata.is_mutable
    }
}

/// An expense whose initial supply is being minted.
#[derive(Clone, Debug, PartialEq, Eq)]
pub struct MintingExpense {
    pub ctx: CreateExpense,
    pub expense_type: String,
    pub approved_amount: u64,
    pub variance_pct: u8,
    /// What the token service is to do now.
    pub request: MintTo,
    /// The seeds under which the expense record signs the request.
    pub signer_seeds: Vec<Vec<u8>>,
    /// The description that the unit will get once its supply is minted.
    pub metadata: CreateMetadata,
}

/// An expense whose unit is being described and tagged.
#[derive(Clone, Debug, PartialEq, Eq)]
pub struct TaggingExpense {
    pub ctx: CreateExpense,
    pub expense_type: String,
    pub approved_amount: u64,
    pub variance_pct: u8,
    /// What the metadata service is to do now.
    pub request: CreateMetadata,
    /// The seeds under which the expense record signs the request.
    pub signer_seeds: Vec<Vec<u8>>,
}

/// What creating an expense leaves on the ledger: the new record, and the
/// budget with its count moved on.
#[derive(Clone, Debug, PartialEq, Eq)]
pub struct ExpenseCreated {
    pub budget: Account<BudgetPDA>,
    pub expense: Account<ExpensePDA>,
}

impl MintingExpense {
    /// Whether this is the start of creating an expense with the accounts
    /// `ctx` and these arguments: the approved amount is to be minted under
    /// the expense record's signature, and the unit described afterwards.
    pub open spec fn starts(
        &self,
        ctx: CreateExpense,
        expense_name: String,
        expense_type: String,
        uri: String,
        approved_amount: u64,
        variance_pct: u8,
    ) -> bool {
        &&& self.ctx == ctx
        &&& self.expense_type == expense_type
        &&& self.approved_amount == approved_amount
        &&& self.variance_pct == variance_pct
        &&& self.request == ctx.spec_mint(approved_amount)
        &&& self.signer_seeds.deep_view() == ctx.spec_signer_seeds()
        &&& ctx.describes(self.metadata, expense_name, expense_type, uri)
    }

    /// What follows the minting, for each way it can go: the service's own
    /// error, or the description of the unit under the same signature.
    pub open spec fn spec_minted<E>(self, outcome: Result<(), E>) -> Result<
        TaggingExpense,
        Failure<E>,
    > {
        match outcome {
            Ok(_) => Ok(
                TaggingExpense {
                    ctx: self.ctx,
                    expense_type: self.expense_type,
                    approved_amount: self.approved_amount,
                    variance_pct: self.variance_pct,
                    request: self.metadata,
                    signer_seeds: self.signer_seeds,
                },
            ),
            Err(error) => Err(Failure::Service(error)),
        }
    }

    /// How the creation ends, given how the two calls go: with the new
    /// expense and the budget moved on, or with no change to the ledger.
    pub open spec fn spec_run<E>(self, minted: Result<(), E>, tagged: Result<(), E>) -> Result<
        ExpenseCreated,
        Failure<E>,
    > {
        match self.spec_minted(minted) {
            Ok(tagging) => tagging.spec_tagged(tagged),
            Err(failure) => Err(failure),
        }
    }
}

/// One attempt to create an expense under a budget: who signed as its
/// authority, what was asked for, and whether the service carried out the
/// minting and the description.
pub struct ExpenseAttempt {
    pub authority: Address,
    pub approved_amount: u64,
    pub variance_pct: u8,
    pub minted: bool,
    pub tagged: bool,
}

/// Whether an attempt commits: the program does not refuse it, the service
/// carries out both calls, and the budget's count can still move on.
pub open spec fn spec_commits(budget: BudgetPDA, attempt: ExpenseAttempt) -> bool {
    &&& spec_refusal(
        budget,
        attempt.authority,
        attempt.approved_amount,
        attempt.variance_pct,
    ) is None
    &&& attempt.minted
    &&& attempt.tagged
    &&& budget.expense_count < u32::MAX
}

/// The budget after an attempt: with its count moved on by one where the
/// attempt commits, untouched where it does not.
pub open spec fn spec_after(budget: BudgetPDA, attempt: ExpenseAttempt) -> BudgetPDA {
    if spec_commits(budget, attempt) {
        BudgetPDA { expense_count: (budget.expense_count + 1) as u32, ..budget }
    } else {
        budget
    }
}

/// The budget after a run of attempts, one after the other.
pub open spec fn spec_after_all(budget: BudgetPDA, attempts: Seq<ExpenseAttempt>) -> BudgetPDA
    decreases attempts.len(),
{
    if attempts.len() == 0 {
        budget
    } else {
        spec_after(spec_after_all(budget, attempts.drop_last()), attempts.last())
    }
}

/// How many attempts of a run commit.
pub open spec fn spec_commit_count(budget: BudgetPDA, attempts: Seq<ExpenseAttempt>) -> nat
    decreases attempts.len(),
{
    if attempts.len() == 0 {
        0
    } else {
        let earlier = attempts.drop_last();
        spec_commit_count(budget, earlier) + if spec_commits(
            spec_after_all(budget, earlier),
            attempts.last(),
        ) {
            1nat
        } else {
            0nat
        }
    }
}

/// Starts creating an expense. The program refuses a signer who is not the
/// budget's authority, a variance above one hundred percent and an approved
/// amount of zero, in this order and before anything is asked of the
/// service. Otherwise the approved amount is to be minted as the category's
/// initial supply, signed for by the expense record under the budget's
/// current ordinal.
pub fn create_expense(
    ctx: CreateExpense,
    expense_name: String,
    expense_type: String,
    uri: String,
    approved_amount: u64,
    variance_pct: u8,
) -> (minting: Result<MintingExpense, BudgetError>)
    ensures
        match ctx.spec_refusal(approved_amount, variance_pct) {
            Some(error) => minting == Err::<MintingExpense, BudgetError>(error),
            None => {
                &&& minting matches Ok(started)
                &&& started.starts(
                    ctx,
                    expense_name,
                    expense_type,
                    uri,
                    approved_amount,
                    variance_pct,
                )
            },
        },
{
    if ctx.authority != ctx.budget_pda.data.authority {
        return Err(BudgetError::Unauthorized);
    }
    if variance_pct > 100 {
        return Err(BudgetError::InvalidVariance);
    }
    if approved_amount == 0 {
        return Err(BudgetError::InvalidAmount);
    }
    let collection_mint = ctx.budget_pda.data.collection_mint;
    let mut signer_seeds = expense_seeds(&collection_mint, ctx.budget_pda.data.expense_count);
    let mut bump_seed: Vec<u8> = Vec::new();
    bump_seed.push(ctx.bump);
    signer_seeds.push(bump_seed);
    proof {
        assert(bump_seed.deep_view() =~= seq![ctx.bump]);
        assert(signer_seeds.deep_view() =~= ctx.spec_signer_seeds());
    }
    let request = MintTo {
        mint: ctx.expense_mint,
        to: ctx.expense_ata,
        authority: ctx.expense_pda,
        amount: approved_amount,
    };
    let metadata = CreateMetadata {
        metadata: ctx.expense_metadata,
        mint: ctx.expense_mint,
        mint_authority: ctx.expense_pda,
        payer: ctx.payer,
        update_authority: ctx.expense_pda,
        update_authority_is_signer: true,
        system_program: ctx.system_program,
        rent: Some(ctx.rent),
        data: TokenData {
            name: expense_name,
            symbol: symbol_of(&expense_type),
            uri,
            seller_fee_basis_points: 0,
            collection: Some(CollectionTag { verified: false, key: collection_mint }),
        },
        is_mutable: true,
    };
    Ok(
        MintingExpense {
            ctx,
            expense_type,
            approved_amount,
            variance_pct,
            request,
            signer_seeds,
            metadata,
        },
    )
}

impl MintingExpense {
    /// Takes the outcome of the minting. A failure of the service ends the
    /// operation with the service's own error; after a success the unit is
    /// to be described, under the same signature.
    pub fn minted<E>(self, outcome: Result<(), E>) -> (next: Result<TaggingExpense, Failure<E>>)
        ensures
            next == self.spec_minted(outcome),
    {
        match outcome {
            Ok(_) => Ok(
                TaggingExpense {
                    ctx: self.ctx,
                    expense_type: self.expense_type,
                    approved_amount: self.approved_amount,
                    variance_pct: self.variance_pct,
                    request: self.metadata,
                    signer_seeds: self.signer_seeds,
                },
            ),
            Err(error) => Err(Failure::Service(error)),
        }
    }
}

impl TaggingExpense {
    /// The expense record as it is first written: nothing spent.
    pub open spec fn spec_expense(&self) -> Account<ExpensePDA> {
        Account {
            key: self.ctx.expense_pda,
            data: ExpensePDA {
                budget: self.ctx.budget_pda.key,
                mint: self.ctx.expense_mint,
                expense_type: self.expense_type,
                approved_amount: self.approved_amount,
                spent: 0,
                variance_pct: self.variance_pct,
                bump: self.ctx.bump,
            },
        }
    }

    /// The budget once the expense is created: its count moved on by one.
    pub open spec fn spec_budget(&self) -> Account<BudgetPDA> {
        Account {
            key: self.ctx.budget_pda.key,
            data: BudgetPDA {
                expense_count: (self.ctx.budget_pda.data.expense_count + 1) as u32,
                ..self.ctx.budget_pda.data
            },
        }
    }

    /// What follows the description, for each way it can go: the service's
    /// own error; `MathOverflow` where the budget's count cannot move on;
    /// else the new expense record and the budget with its count moved on.
    pub open spec fn spec_tagged<E>(self, outcome: Result<(), E>) -> Result<
        ExpenseCreated,
        Failure<E>,
    > {
        match outcome {
            Ok(_) => if self.ctx.budget_pda.data.expense_count < u32::MAX {
                Ok(ExpenseCreated { budget: self.spec_budget(), expense: self.spec_expense() })
            } else {
                Err(Failure::Program(BudgetError::MathOverflow))
            },
            Err(error) => Err(Failure::Service(error)),
        }
    }

    /// Takes the outcome of the description. A failure of the service ends
    /// the operation with the service's own error. After a success the
    /// budget's count moves on by one, and the operation ends in
    /// `MathOverflow` where it cannot; otherwise there is exactly one new
    /// expense record, with nothing spent.
    pub fn tagged<E>(self, outcome: Result<(), E>) -> (created: Result<ExpenseCreated, Failure<E>>)
        ensures
            created == self.spec_tagged(outcome),
    {
        match outcome {
            Ok(_) => {
                let ctx = self.ctx;
                let expense = Account {
                    key: ctx.expense_pda,
                    data: ExpensePDA {
                        budget: ctx.budget_pda.key,
                        mint: ctx.expense_mint,
                        expense_type: self.expense_type,
                        approved_amount: self.approved_amount,
                        spent: 0,
                        variance_pct: self.variance_pct,
                        bump: ctx.bump,
                    },
                };
                match ctx.budget_pda.data.expense_count.checked_add(1) {
                    Some(expense_count) => {
                        let budget = Account {
                            key: ctx.budget_pda.key,
                            data: BudgetPDA { expense_count, ..ctx.budget_pda.data },
                        };
                        Ok(ExpenseCreated { budget, expense })
                    },
                    None => Err(Failure::Program(BudgetError::MathOverflow)),
                }
            },
            Err(error) => Err(Failure::Service(error)),
        }
    }
}

} // verus!
