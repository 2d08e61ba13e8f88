use metaplex_budget::budget::CreateBudgetCollection;
use metaplex_budget::expense::CreateExpense;
use metaplex_budget::service::{AccountMeta, Instruction};
use metaplex_budget::{Account, Address, BudgetPDA};

fn address(fill: u8) -> Address {
    Address::new([fill; 32])
}

#[test]
fn addresses_are_equal_when_all_bytes_agree() {
    assert_eq!(address(3), address(3));
    assert_ne!(address(3), address(4));
    let mut last = [3u8; 32];
    last[31] = 4;
    assert_ne!(address(3), Address::new(last));
    let mut first = [3u8; 32];
    first[0] = 4;
    assert_ne!(address(3), Address::new(first));
    assert_eq!(Address::new(first).bytes, first);
}

#[test]
fn instruction_is_put_together_from_its_parts() {
    let built = Instruction::from_parts(
        [1u8; 32],
        vec![([2u8; 32], true, false), ([3u8; 32], false, true)],
        vec![9u8, 8, 7],
    );
    assert_eq!(
        built,
        Instruction {
            program_id: address(1),
            accounts: vec![
                AccountMeta { pubkey: address(2), is_signer: true, is_writable: false },
                AccountMeta { pubkey: address(3), is_signer: false, is_writable: true },
            ],
            data: vec![9u8, 8, 7],
        }
    );
    let empty = Instruction::from_parts([0u8; 32], vec![], vec![]);
    assert!(empty.accounts.is_empty() && empty.data.is_empty());
}

#[test]
fn budget_accounts_are_held_against_a_derivation() {
    let ctx = CreateBudgetCollection {
        budget_pda: address(1),
        bump: 254,
        collection_mint: address(2),
        collection_token_account: address(3),
        metadata_account: address(4),
        master_edition: address(5),
        payer: address(6),
        system_program: address(7),
        token_program: address(8),
        rent: address(9),
    };
    assert!(ctx.is_derived(Some((address(1), 254))));
    assert!(!ctx.is_derived(Some((address(1), 253))));
    assert!(!ctx.is_derived(Some((address(2), 254))));
    assert!(!ctx.is_derived(None));
}

#[test]
fn expense_accounts_are_held_against_both_derivations() {
    let ctx = CreateExpense {
        budget_pda: Account {
            key: address(1),
            data: BudgetPDA {
                authority: address(10),
                collection_mint: address(2),
                year: 2025,
                expense_count: 0,
                bump: 254,
            },
        },
        expense_pda: address(20),
        bump: 253,
        expense_mint: address(21),
        expense_ata: address(22),
        expense_metadata: address(23),
        payer: address(6),
        authority: address(10),
        system_program: address(7),
        rent: address(9),
    };
    assert!(ctx.is_derived(Some((address(1), 254)), Some((address(20), 253))));
    assert!(!ctx.is_derived(Some((address(1), 253)), Some((address(20), 253))));
    assert!(!ctx.is_derived(Some((address(1), 254)), Some((address(20), 254))));
    assert!(!ctx.is_derived(Some((address(20), 253)), Some((address(1), 254))));
    assert!(!ctx.is_derived(None, Some((address(20), 253))));
    assert!(!ctx.is_derived(Some((address(1), 254)), None));
}
