use anchor_lang::prelude::Pubkey;
use metaplex_budget::address::{budget_address, budget_seeds, expense_address, expense_seeds};
use metaplex_budget::Address;

fn address(fill: u8) -> Address {
    Address::new([fill; 32])
}

#[test]
fn budget_seeds_are_tag_then_mint() {
    let seeds = budget_seeds(&address(7));
    assert_eq!(seeds, vec![b"budget".to_vec(), vec![7u8; 32]]);
}

#[test]
fn expense_seeds_end_in_little_endian_ordinal() {
    let seeds = expense_seeds(&address(7), 0x0102_0304);
    assert_eq!(seeds, vec![b"expense".to_vec(), vec![7u8; 32], vec![4u8, 3, 2, 1]]);
}

#[test]
fn budget_address_is_the_ledger_derivation() {
    let program = Pubkey::new_from_array([9u8; 32]);
    let mint = Pubkey::new_from_array([7u8; 32]);
    let (key, bump) = Pubkey::find_program_address(&[b"budget", mint.as_ref()], &program);
    let derived = budget_address(&address(9), &address(7));
    assert_eq!(derived, Some((Address::new(key.to_bytes()), bump)));
    assert_ne!(derived.map(|(found, _)| found), Some(address(7)));
}

#[test]
fn expense_address_depends_on_the_ordinal() {
    let program = Pubkey::new_from_array([9u8; 32]);
    let mint = Pubkey::new_from_array([7u8; 32]);
    let (key, bump) =
        Pubkey::find_program_address(&[b"expense", mint.as_ref(), &3u32.to_le_bytes()], &program);
    assert_eq!(
        expense_address(&address(9), &address(7), 3),
        Some((Address::new(key.to_bytes()), bump))
    );
    assert_ne!(
        expense_address(&address(9), &address(7), 3),
        expense_address(&address(9), &address(7), 4)
    );
}
