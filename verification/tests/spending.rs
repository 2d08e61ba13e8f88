use metaplex_budget::service::{Burn, Transfer};
use metaplex_budget::spending::{spend, Burning, Spend, SETTLEMENT_SCALE};
use metaplex_budget::{Account, Address, BudgetError, ExpensePDA, Failure};

fn address(fill: u8) -> Address {
    Address::new([fill; 32])
}

fn expense(approved_amount: u64, variance_pct: u8, spent: u64) -> ExpensePDA {
    ExpensePDA {
        budget: address(1),
        mint: address(21),
        expense_type: "travel".to_string(),
        approved_amount,
        spent,
        variance_pct,
        bump: 253,
    }
}

fn accounts(data: ExpensePDA) -> Spend {
    Spend {
        expense_pda: Account { key: address(20), data },
        expense_mint: address(21),
        expense_ata: address(22),
        treasury_usdc_ata: address(30),
        operational_usdc_ata: address(31),
        treasury_authority: address(32),
    }
}

fn commit(data: ExpensePDA, amount: u64) -> Result<ExpensePDA, Failure<u32>> {
    let burning = spend(accounts(data), amount).map_err(Failure::Program)?;
    Ok(burning.burned(Ok(()))?.settled(Ok(()))?.data)
}

#[test]
fn spending_up_to_the_cap_with_variance() {
    let fresh = expense(1000, 10, 0);
    assert_eq!(fresh.max_allowed(), Ok(1100));
    let after_first = commit(fresh, 600).unwrap();
    assert_eq!(after_first.spent, 600);
    let after_second = commit(after_first, 500).unwrap();
    assert_eq!(after_second.spent, 1100);
    let kept = after_second.clone();
    assert_eq!(commit(after_second, 1), Err(Failure::Program(BudgetError::OverBudget)));
    assert_eq!(kept.spent, 1100);
    assert_eq!(kept, expense(1000, 10, 1100));
}

#[test]
fn huge_approved_amount_overflows_the_cap() {
    let record = expense(u64::MAX, 1, 0);
    assert_eq!(record.max_allowed(), Err(BudgetError::MathOverflow));
    assert_eq!(spend(accounts(record.clone()), 1).unwrap_err(), BudgetError::MathOverflow);
    assert_eq!(spend(accounts(record.clone()), 0).unwrap_err(), BudgetError::MathOverflow);
    assert_eq!(record, expense(u64::MAX, 1, 0));
    assert_eq!(
        spend(accounts(expense(u64::MAX, 100, 0)), 1).unwrap_err(),
        BudgetError::MathOverflow
    );
}

#[test]
fn cap_is_rounded_down() {
    assert_eq!(expense(999, 33, 0).max_allowed(), Ok(1328));
    assert_eq!(expense(3, 50, 0).max_allowed(), Ok(4));
    assert_eq!(expense(1, 0, 0).max_allowed(), Ok(1));
    assert_eq!(expense(1, 99, 0).max_allowed(), Ok(1));
    assert_eq!(expense(1, 100, 0).max_allowed(), Ok(2));
    assert_eq!(expense(1000, 255, 0).max_allowed(), Ok(3550));
}

#[test]
fn cap_at_the_edge_of_sixty_four_bits() {
    let largest = u64::MAX / 200;
    assert_eq!(expense(largest, 100, 0).max_allowed(), Ok(largest * 2));
    assert_eq!(expense(largest + 1, 100, 0).max_allowed(), Err(BudgetError::MathOverflow));
    assert_eq!(expense(u64::MAX / 100, 0, 0).max_allowed(), Ok(u64::MAX / 100));
    assert_eq!(expense(u64::MAX / 100 + 1, 0, 0).max_allowed(), Err(BudgetError::MathOverflow));
}

#[test]
fn new_total_that_leaves_sixty_four_bits_is_math_overflow() {
    let record = expense(1000, 10, 1100);
    assert_eq!(spend(accounts(record), u64::MAX).unwrap_err(), BudgetError::MathOverflow);
    let record = expense(1000, 10, 1);
    assert_eq!(spend(accounts(record), u64::MAX).unwrap_err(), BudgetError::MathOverflow);
    let record = expense(1000, 10, 1);
    assert_eq!(spend(accounts(record), u64::MAX - 1).unwrap_err(), BudgetError::OverBudget);
}

#[test]
fn burn_is_of_the_amount_under_the_expense_record() {
    let burning = spend(accounts(expense(1000, 10, 0)), 600).unwrap();
    assert_eq!(
        burning.request,
        Burn { mint: address(21), from: address(22), authority: address(20), amount: 600 }
    );
    assert_eq!(burning.new_spent, 600);
    assert_eq!(
        burning.signer_seeds,
        vec![b"expense".to_vec(), vec![1u8; 32], vec![253u8]]
    );
}

#[test]
fn settlement_is_the_amount_times_one_million() {
    assert_eq!(SETTLEMENT_SCALE, 1_000_000);
    let settling = spend(accounts(expense(1000, 10, 0)), 600).unwrap().burned::<u32>(Ok(())).unwrap();
    assert_eq!(
        settling.request,
        Transfer { from: address(30), to: address(31), authority: address(32), amount: 600_000_000 }
    );
    let one = spend(accounts(expense(1000, 10, 0)), 1).unwrap().burned::<u32>(Ok(())).unwrap();
    assert_eq!(one.request.amount, 1_000_000);
}

#[test]
fn failed_burn_ends_the_spend_with_the_service_error() {
    let record = expense(1000, 10, 100);
    let burning = spend(accounts(record.clone()), 600).unwrap();
    assert_eq!(burning.burned(Err(5u32)).unwrap_err(), Failure::Service(5));
    assert_eq!(record.spent, 100);
}

#[test]
fn failed_settlement_leaves_spent_as_it_was() {
    let record = expense(1000, 10, 100);
    let settling = spend(accounts(record.clone()), 600).unwrap().burned::<&str>(Ok(())).unwrap();
    assert_eq!(settling.settled(Err("treasury empty")), Err(Failure::Service("treasury empty")));
    assert_eq!(record, expense(1000, 10, 100));
}

#[test]
fn settlement_that_leaves_sixty_four_bits_is_math_overflow() {
    let largest = u64::MAX / 1_000_000;
    let record = expense(u64::MAX / 200, 0, 0);
    let fits = spend(accounts(record.clone()), largest).unwrap().burned::<u32>(Ok(())).unwrap();
    assert_eq!(fits.request.amount, largest * 1_000_000);
    let burning: Burning = spend(accounts(record), largest + 1).unwrap();
    assert_eq!(
        burning.burned::<u32>(Ok(())).unwrap_err(),
        Failure::Program(BudgetError::MathOverflow)
    );
}

#[test]
fn failed_burn_comes_before_the_settlement_overflow() {
    let record = expense(u64::MAX / 200, 0, 0);
    let burning = spend(accounts(record), u64::MAX / 1_000_000 + 1).unwrap();
    assert_eq!(burning.burned(Err(8u32)).unwrap_err(), Failure::Service(8));
}

#[test]
fn spend_of_zero_commits_and_changes_nothing() {
    let burning = spend(accounts(expense(1000, 10, 1100)), 0).unwrap();
    assert_eq!(burning.request.amount, 0);
    let settling = burning.burned::<u32>(Ok(())).unwrap();
    assert_eq!(settling.request.amount, 0);
    assert_eq!(settling.settled::<u32>(Ok(())).unwrap().data, expense(1000, 10, 1100));
}

#[test]
fn committed_spend_changes_only_what_was_spent() {
    let account = spend(accounts(expense(1000, 10, 100)), 250)
        .unwrap()
        .burned::<u32>(Ok(()))
        .unwrap()
        .settled::<u32>(Ok(()))
        .unwrap();
    assert_eq!(account, Account { key: address(20), data: expense(1000, 10, 350) });
}

#[test]
fn spent_never_decreases_and_never_passes_the_cap() {
    let mut record = expense(1000, 10, 0);
    let amounts = [0u64, 300, 900, 1, 799, u64::MAX, 1, 0, 5];
    for amount in amounts {
        let before = record.spent;
        if let Ok(after) = commit(record.clone(), amount) {
            assert_eq!(after.spent, before + amount);
            record = after;
        }
        assert!(record.spent >= before);
        assert!(record.spent <= 1100);
    }
    assert_eq!(record.spent, 1100);
}

#[test]
fn record_past_its_cap_refuses_every_spend() {
    let broken = expense(1000, 10, 1200);
    assert_eq!(spend(accounts(broken.clone()), 0).unwrap_err(), BudgetError::OverBudget);
    assert_eq!(spend(accounts(broken), 1).unwrap_err(), BudgetError::OverBudget);
}

#[test]
fn label_bound_is_fifty_bytes() {
    let mut record = expense(1, 0, 0);
    record.expense_type = "x".repeat(50);
    assert!(record.fits());
    record.expense_type = "x".repeat(51);
    assert!(!record.fits());
    record.expense_type = "é".repeat(25);
    assert!(record.fits());
    record.expense_type = "é".repeat(26);
    assert!(!record.fits());
}
