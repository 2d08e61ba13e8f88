//! Opening a budget: one collection unit is minted, described and sealed,
//! and only then does the budget record come to be.

use crate::address::{
    budget_address, derived_view, program_address, spec_budget_seeds, Account, Address,
};
use crate::error::Failure;
use crate::records::BudgetPDA;
use crate::service::{CreateMasterEdition, CreateMetadata, MintTo, TokenData};
use vstd::prelude::*;

verus! {

/// The accounts that opening a budget touches.
#[derive(Clone, Copy, Debug, PartialEq, Eq)]
pub struct CreateBudgetCollection {
    /// Where the budget record will live.
    pub budget_pda: Address,
    /// The bump seed of `budget_pda`.
    pub bump: u8,
    /// The fresh collection unit.
    pub collection_mint: Address,
    /// The payer's holding account for the collection unit.
    pub collection_token_account: Address,
    pub metadata_account: Address,
    pub master_edition: Address,
    /// Who pays and signs, and becomes the authority of the budget.
    pub payer: Address,
    pub system_program: Address,
    pub token_program: Address,
    pub rent: Address,
}

impl CreateBudgetCollection {
    /// Whether `budget_pda` and `bump` are what the ledger derives for the
    /// budget record of `collection_mint` under `program_id`.
    pub open spec fn at_derived_address(&self, program_id: Address) -> bool {
        program_address(spec_budget_seeds(self.collection_mint), program_id@) == Some(
            (self.budget_pda@, self.bump),
        )
    }

    /// Whether `derived`, as the ledger handed it out, is the address and
    /// bump seed that the accounts name for the budget record.
    pub fn is_derived(&self, derived: Option<(Address, u8)>) -> (same: bool)
        ensures
            same == (derived_view(derived) == Some((self.budget_pda@, self.bump))),
    {
        match derived {
            Some((address, bump)) => {
                proof {
                    address.lemma_equal_by_bytes(self.budget_pda);
                }
                address == self.budget_pda && bump == self.bump
            },
            None => false,
        }
    }

    /// Derives the address of the budget record anew and holds the accounts
    /// against it.
    pub fn is_at_derived_address(&self, program_id: &Address) -> (derived: bool)
        ensures
            derived == self.at_derived_address(*program_id),
    {
        self.is_derived(budget_address(program_id, &self.collection_mint))
    }

    /// The one unit that the collection consists of.
    pub open spec fn spec_mint(&self) -> MintTo {
        MintTo {
            mint: self.collection_mint,
            to: self.collection_token_account,
            authority: self.payer,
            amount: 1,
        }
    }

    /// The seal on the collection unit: it can never be printed.
    pub open spec fn spec_master_edition(&self) -> CreateMasterEdition {
        CreateMasterEdition {
            edition: self.master_edition,
            mint: self.collection_mint,
            update_authority: self.payer,
            mint_authority: self.payer,
            payer: self.payer,
            metadata: self.metadata_account,
            token_program: self.token_program,
            system_program: self.system_program,
            rent: Some(self.rent),
            max_supply: Some(0),
        }
    }

    /// The record of a budget opened with these accounts.
    pub open spec fn spec_record(&self, year: u16) -> Account<BudgetPDA> {
        Account {
            key: self.budget_pda,
            data: BudgetPDA {
                authority: self.payer,
                collection_mint: self.collection_mint,
                year,
                expense_count: 0,
                bump: self.bump,
            },
        }
    }
}

/// A budget whose collection unit is being minted.
#[derive(Clone, Debug, PartialEq, Eq)]
pub struct MintingCollection {
    pub ctx: CreateBudgetCollection,
    pub year: u16,
    /// What the token service is to do now.
    pub request: MintTo,
    /// The description that the unit will get once it is minted.
    pub metadata: CreateMetadata,
}

/// A budget whose collection unit is being described.
#[derive(Clone, Debug, PartialEq, Eq)]
pub struct DescribingCollection {
    pub ctx: CreateBudgetCollection,
    pub year: u16,
    /// What the metadata service is to do now.
    pub request: CreateMetadata,
}

/// A budget whose collection unit is being sealed.
#[derive(Clone, Copy, Debug, PartialEq, Eq)]
pub struct SealingCollection {
    pub ctx: CreateBudgetCollection,
    pub year: u16,
    /// What the metadata service is to do now.
    pub request: CreateMasterEdition,
}

/// The start of opening a budget: one unit is to be minted, and described
/// afterwards under the payer's authority, with no royalty and no collection
/// parent, open to later change.
pub open spec fn spec_create_budget_collection(
    ctx: CreateBudgetCollection,
    name: String,
    symbol: String,
    uri: String,
    year: u16,
) -> MintingCollection {
    MintingCollection {
        ctx,
        year,
        request: ctx.spec_mint(),
        metadata: CreateMetadata {
            metadata: ctx.metadata_account,
            mint: ctx.collection_mint,
            mint_authority: ctx.payer,
            payer: ctx.payer,
            update_authority: ctx.payer,
            update_authority_is_signer: true,
            system_program: ctx.system_program,
            rent: Some(ctx.rent),
            data: TokenData { name, symbol, uri, seller_fee_basis_points: 0, collection: None },
            is_mutable: true,
        },
    }
}

impl MintingCollection {
    /// What follows the minting, for each way it can go: the service's own
    /// error, or the description of the unit.
    pub open spec fn spec_minted<E>(self, outcome: Result<(), E>) -> Result<
        DescribingCollection,
        Failure<E>,
    > {
        match outcome {
            Ok(_) => Ok(
                DescribingCollection { ctx: self.ctx, year: self.year, request: self.metadata },
            ),
            Err(error) => Err(Failure::Service(error)),
        }
    }

    /// How the opening ends, given how the three calls go: with the budget
    /// record, or with the error of the first call that failed.
    pub open spec fn spec_run<E>(
        self,
        minted: Result<(), E>,
        described: Result<(), E>,
        sealed: Result<(), E>,
    ) -> Result<Account<BudgetPDA>, Failure<E>> {
        match self.spec_minted(minted) {
            Ok(describing) => match describing.spec_described(described) {
                Ok(sealing) => sealing.spec_sealed(sealed),
                Err(failure) => Err(failure),
            },
            Err(failure) => Err(failure),
        }
    }
}

impl DescribingCollection {
    /// What follows the description, for each way it can go: the service's
    /// own error, or the sealing of the unit with a print limit of zero.
    pub open spec fn spec_described<E>(self, outcome: Result<(), E>) -> Result<
        SealingCollection,
        Failure<E>,
    > {
        match outcome {
            Ok(_) => Ok(
                SealingCollection {
                    ctx: self.ctx,
                    year: self.year,
                    request: self.ctx.spec_master_edition(),
                },
            ),
            Err(error) => Err(Failure::Service(error)),
        }
    }
}

impl SealingCollection {
    /// What follows the sealing, for each way it can go: the service's own
    /// error, or the budget record.
    pub open spec fn spec_sealed<E>(self, outcome: Result<(), E>) -> Result<
        Account<BudgetPDA>,
        Failure<E>,
    > {
        match outcome {
            Ok(_) => Ok(self.ctx.spec_record(self.year)),
            Err(error) => Err(Failure::Service(error)),
        }
    }
}

/// Starts opening a budget for the fiscal year `year`. Nothing is refused
/// here: the first thing to happen is the minting of exactly one collection
/// unit to the payer's holding account. The description that follows carries
/// no royalty and no collection parent, and can still be changed later.
pub fn create_budget_collection(
    ctx: CreateBudgetCollection,
    name: String,
    symbol: String,
    uri: String,
    year: u16,
) -> (minting: MintingCollection)
    ensures
        minting == spec_create_budget_collection(ctx, name, symbol, uri, year),
{
    let request = MintTo {
        mint: ctx.collection_mint,
        to: ctx.collection_token_account,
        authority: ctx.payer,
        amount: 1,
    };
    let metadata = CreateMetadata {
        metadata: ctx.metadata_account,
        mint: ctx.collection_mint,
        mint_authority: ctx.payer,
        payer: ctx.payer,
        update_authority: ctx.payer,
        update_authority_is_signer: true,
        system_program: ctx.system_program,
        rent: Some(ctx.rent),
        data: TokenData { name, symbol, uri, seller_fee_basis_points: 0, collection: None },
        is_mutable: true,
    };
    MintingCollection { ctx, year, request, metadata }
}

impl MintingCollection {
    /// Takes the outcome of the minting. A failure of the service ends the
    /// operation with the service's own error; after a success the unit is
    /// to be described.
    pub fn minted<E>(self, outcome: Result<(), E>) -> (next: Result<
        DescribingCollection,
        Failure<E>,
    >)
        ensures
            next == self.spec_minted(outcome),
    {
        match outcome {
            Ok(_) => Ok(
                DescribingCollection { ctx: self.ctx, year: self.year, request: self.metadata },
            ),
            Err(error) => Err(Failure::Service(error)),
        }
    }
}

impl DescribingCollection {
    /// Takes the outcome of the description. A failure of the service ends
    /// the operation with the service's own error; after a success the unit
    /// is to be sealed with a print limit of zero.
    pub fn described<E>(self, outcome: Result<(), E>) -> (next: Result<
        SealingCollection,
        Failure<E>,
    >)
        ensures
            next == self.spec_described(outcome),
    {
        match outcome {
            Ok(_) => {
                let ctx = self.ctx;
                let request = CreateMasterEdition {
                    edition: ctx.master_edition,
                    mint: ctx.collection_mint,
                    update_authority: ctx.payer,
                    mint_authority: ctx.payer,
                    payer: ctx.payer,
                    metadata: ctx.metadata_account,
                    token_program: ctx.token_program,
                    system_program: ctx.system_program,
                    rent: Some(ctx.rent),
                    max_supply: Some(0),
                };
                Ok(SealingCollection { ctx, year: self.year, request })
            },
            Err(error) => Err(Failure::Service(error)),
        }
    }
}

impl SealingCollection {
    /// Takes the outcome of the sealing. A failure of the service ends the
    /// operation with the service's own error and no record; after a success
    /// there is exactly one budget record, at the address the accounts name,
    /// with the payer as its authority and no expense yet.
    pub fn sealed<E>(self, outcome: Result<(), E>) -> (budget: Result<
        Account<BudgetPDA>,
        Failure<E>,
    >)
        ensures
            budget == self.spec_sealed(outcome),
    {
        match outcome {
            Ok(_) => Ok(
                Account {
                    key: self.ctx.budget_pda,
                    data: BudgetPDA {
                        authority: self.ctx.payer,
                        collection_mint: self.ctx.collection_mint,
                        year: self.year,
                        expense_count: 0,
                        bump: self.ctx.bump,
                    },
                },
            ),
            Err(error) => Err(Failure::Service(error)),
        }
    }
}

} // verus!
