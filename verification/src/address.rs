//! Identities on the ledger and the addresses that records are derived at.
//!
//! A record lives at an address computed from a domain tag, the identity of
//! the collection unit it belongs to and, for an expense, the ordinal it was
//! created under. The derivation itself is the ledger's; the seeds are ours.

use anchor_lang::prelude::Pubkey;
use vstd::bytes::{spec_u32_to_le_bytes, u32_to_le_bytes};
use vstd::prelude::*;
use vstd::std_specs::cmp::PartialEqSpecImpl;

verus! {

/// A 256-bit identity on the ledger: an account, a signer or a program.
#[derive(Clone, Copy, Debug, Eq, Hash)]
pub struct Address {
    pub bytes: [u8; 32],
}

impl View for Address {
    type V = Seq<u8>;

    open spec fn view(&self) -> Seq<u8> {
        self.bytes@
    }
}

impl PartialEq for Address {
    fn eq(&self, other: &Address) -> (equal: bool) {
        let mut i: usize = 0;
        while i < 32
            invariant
                i <= 32,
                forall|k: int| 0 <= k < i ==> self.bytes[k] == other.bytes[k],
            decreases 32 - i,
        {
            if self.bytes[i] != other.bytes[i] {
                return false;
            }
            i += 1;
        }
        assert(self.bytes =~= other.bytes);
        true
    }
}

impl PartialEqSpecImpl for Address {
    open spec fn obeys_eq_spec() -> bool {
        true
    }

    open spec fn eq_spec(&self, other: &Address) -> bool {
        *self == *other
    }
}

impl Address {
    /// The identity with these 32 bytes.
    pub fn new(bytes: [u8; 32]) -> (address: Address)
        ensures
            address.bytes == bytes,
    {
        Address { bytes }
    }

    /// Two addresses are the same identity exactly when all 32 bytes agree.
    pub proof fn lemma_equal_by_bytes(self, other: Address)
        ensures
            (self == other) <==> (self@ == other@),
            self@.len() == 32,
    {
        if self@ == other@ {
            assert(self.bytes =~= other.bytes);
        }
    }
}

/// An account on the ledger: where it lives and what it holds.
#[derive(Clone, Copy, Debug, PartialEq, Eq)]
pub struct Account<T> {
    pub key: Address,
    pub data: T,
}

/// The domain tag of budget records, `budget` in ASCII.
pub const BUDGET_TAG: [u8; 6] = [0x62, 0x75, 0x64, 0x67, 0x65, 0x74];

/// The domain tag of expense records, `expense` in ASCII.
pub const EXPENSE_TAG: [u8; 7] = [0x65, 0x78, 0x70, 0x65, 0x6e, 0x73, 0x65];

/// The seeds of the budget record of a collection unit: the tag, then the
/// unit's identity.
pub open spec fn spec_budget_seeds(collection_mint: Address) -> Seq<Seq<u8>> {
    seq![BUDGET_TAG@, collection_mint@]
}

/// The seeds of the expense record created under ordinal `ordinal` of a
/// budget: the tag, the collection unit's identity, then the ordinal as four
/// little-endian bytes.
pub open spec fn spec_expense_seeds(collection_mint: Address, ordinal: u32) -> Seq<Seq<u8>> {
    seq![EXPENSE_TAG@, collection_mint@, spec_u32_to_le_bytes(ordinal)]
}

/// A vector with the bytes of an array.
pub(crate) fn copy_bytes<const N: usize>(bytes: &[u8; N]) -> (copy: Vec<u8>)
    ensures
        copy@ == bytes@,
{
    let mut copy: Vec<u8> = Vec::new();
    let mut i: usize = 0;
    while i < N
        invariant
            i <= N,
            copy@ == bytes@.take(i as int),
        decreases N - i,
    {
        copy.push(bytes[i]);
        i += 1;
        assert(copy@ =~= bytes@.take(i as int));
    }
    assert(bytes@.take(N as int) =~= bytes@);
    copy
}

/// A seed is its bytes, however deep one looks.
pub(crate) proof fn lemma_seed_view(seed: Vec<u8>)
    ensures
        seed.deep_view() == seed@,
{
    assert(seed.deep_view() =~= seed@);
}

/// Writes out the seeds of the budget record of a collection unit.
pub fn budget_seeds(collection_mint: &Address) -> (seeds: Vec<Vec<u8>>)
    ensures
        seeds.deep_view() == spec_budget_seeds(*collection_mint),
{
    let mut seeds: Vec<Vec<u8>> = Vec::new();
    seeds.push(copy_bytes(&BUDGET_TAG));
    seeds.push(copy_bytes(&collection_mint.bytes));
    proof {
        lemma_seed_view(seeds@[0]);
        lemma_seed_view(seeds@[1]);
    }
    assert(seeds.deep_view() =~= spec_budget_seeds(*collection_mint));
    seeds
}

/// Writes out the seeds of the expense record created under `ordinal`.
pub fn expense_seeds(collection_mint: &Address, ordinal: u32) -> (seeds: Vec<Vec<u8>>)
    ensures
        seeds.deep_view() == spec_expense_seeds(*collection_mint, ordinal),
{
    let mut seeds: Vec<Vec<u8>> = Vec::new();
    seeds.push(copy_bytes(&EXPENSE_TAG));
    seeds.push(copy_bytes(&collection_mint.bytes));
    seeds.push(u32_to_le_bytes(ordinal));
    proof {
        lemma_seed_view(seeds@[0]);
        lemma_seed_view(seeds@[1]);
        lemma_seed_view(seeds@[2]);
    }
    assert(seeds.deep_view() =~= spec_expense_seeds(*collection_mint, ordinal));
    seeds
}

/// The program-derived address of `seeds` under the program `program_id`,
/// with the bump seed it was found at, or `None` where the ledger derives
/// none.
pub uninterp spec fn program_address(seeds: Seq<Seq<u8>>, program_id: Seq<u8>) -> Option<
    (Seq<u8>, u8),
>;

/// An optional address and bump seed as plain bytes.
pub open spec fn derived_view(derived: Option<(Address, u8)>) -> Option<(Seq<u8>, u8)> {
    match derived {
        Some((address, bump)) => Some((address@, bump)),
        None => None,
    }
}

/// Calls `Pubkey::try_find_program_address`. Believed of it: the outcome is a
/// function of the seeds and the program's identity alone.
#[verifier::external_body]
fn try_find_program_address(seeds: &Vec<Vec<u8>>, program_id: &Address) -> (derived: Option<
    (Address, u8),
>)
    ensures
        derived_view(derived) == program_address(seeds.deep_view(), program_id@),
{
    let slices: Vec<&[u8]> = seeds.iter().map(|seed| seed.as_slice()).collect();
    Pubkey::try_find_program_address(&slices, &Pubkey::new_from_array(program_id.bytes)).map(
        |(key, bump)| (Address { bytes: key.to_bytes() }, bump),
    )
}

/// Where the budget record of `collection_mint` lives under `program_id`.
pub fn budget_address(program_id: &Address, collection_mint: &Address) -> (derived: Option<
    (Address, u8),
>)
    ensures
        derived_view(derived) == program_address(
            spec_budget_seeds(*collection_mint),
            program_id@,
        ),
{
    let seeds = budget_seeds(collection_mint);
    try_find_program_address(&seeds, program_id)
}

/// Where the expense record created under ordinal `ordinal` of the budget of
/// `collection_mint` lives under `program_id`.
pub fn expense_address(
    program_id: &Address,
    collection_mint: &Address,
    ordinal: u32,
) -> (derived: Option<(Address, u8)>)
    ensures
        derived_view(derived) == program_address(
            spec_expense_seeds(*collection_mint, ordinal),
            program_id@,
        ),
{
    let seeds = expense_seeds(collection_mint, ordinal);
    try_find_program_address(&seeds, program_id)
}

} // verus!
