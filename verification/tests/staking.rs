use storage_staking::balance::{
    storage_bounds, StorageBalance, StorageBalanceBounds, STORAGE_PRICE_PER_BYTE,
};
use storage_staking::contract::Contract;
use storage_staking::error::StorageError;
use storage_staking::manager::{CallContext, StorageManager, Transfer};

const USAGE: u64 = 125;
const BOND: u128 = 1_250_000_000_000_000_000_000;

fn call(caller: &str, attached_deposit: u128) -> CallContext {
    CallContext { predecessor_account_id: caller.to_string(), attached_deposit }
}

fn pinned() -> StorageBalance {
    StorageBalance { total: BOND, available: 0 }
}

fn payment(receiver: &str, amount: u128) -> Option<Transfer> {
    Some(Transfer { receiver_id: receiver.to_string(), amount })
}

fn ledger_with(records: &[(&str, u128)]) -> Contract {
    let records: Vec<(String, u128)> =
        records.iter().map(|(id, tokens)| (id.to_string(), *tokens)).collect();
    let total: u128 = records.iter().map(|(_, tokens)| *tokens).sum();
    Contract::restore(USAGE, &records, total).expect("records of distinct accounts")
}

#[test]
fn price_is_what_the_sdk_says() {
    assert_eq!(near_sdk::env::storage_byte_cost(), STORAGE_PRICE_PER_BYTE);
    assert_eq!(STORAGE_PRICE_PER_BYTE, 10_000_000_000_000_000_000);
}

#[test]
fn bounds_are_size_times_price() {
    assert_eq!(storage_bounds(USAGE), StorageBalanceBounds { min: BOND, max: Some(BOND) });
    assert_eq!(storage_bounds(1).min, 10_000_000_000_000_000_000);
    assert_eq!(storage_bounds(0), StorageBalanceBounds { min: 0, max: Some(0) });
}

#[test]
fn bounds_of_the_largest_record_fit() {
    let bounds = storage_bounds(u64::MAX);
    assert_eq!(bounds.min, 184_467_440_737_095_516_150_000_000_000_000_000_000);
    assert_eq!(bounds.max, Some(bounds.min));
}

#[test]
fn bounds_of_a_ledger_are_those_of_its_record_size() {
    let ledger = Contract::new(USAGE);
    assert_eq!(ledger.storage_balance_bounds(), storage_bounds(USAGE));
    assert_eq!(ledger.account_storage_usage(), USAGE);
    assert_eq!(ledger.total_supply(), 0);
}

#[test]
fn registered_accounts_hold_exactly_the_bond() {
    let mut ledger = Contract::new(USAGE);
    for (name, paid) in [("alice", BOND), ("bob", BOND + 7), ("carol", 2 * BOND)] {
        ledger.storage_deposit(None, &call(name, paid)).unwrap();
    }
    let bounds = ledger.storage_balance_bounds();
    for name in ["alice", "bob", "carol"] {
        let balance = ledger.storage_balance_of(name.to_string()).unwrap();
        assert_eq!(balance.total, bounds.min);
        assert_eq!(balance.available, 0);
        assert_eq!(ledger.internal_storage_balance_of(&name.to_string()), Some(pinned()));
    }
    assert_eq!(ledger.storage_balance_of("dave".to_string()), None);
    assert_eq!(ledger.internal_storage_balance_of(&"dave".to_string()), None);
}

#[test]
fn second_deposit_changes_nothing_and_is_refunded() {
    let mut ledger = Contract::new(USAGE);
    let first = ledger.storage_deposit(None, &call("alice", BOND)).unwrap();
    assert_eq!(first, (pinned(), None));
    let second = ledger.storage_deposit(None, &call("alice", BOND + 3)).unwrap();
    assert_eq!(second, (pinned(), payment("alice", BOND + 3)));
    assert_eq!(ledger.tokens_of(&"alice".to_string()), Some(0));
    assert_eq!(ledger.total_supply(), 0);
}

#[test]
fn deposit_for_a_registered_account_keeps_its_tokens() {
    let mut ledger = ledger_with(&[("alice", 100)]);
    let answer = ledger.storage_deposit(Some("alice".to_string()), &call("bob", 40)).unwrap();
    assert_eq!(answer, (pinned(), payment("bob", 40)));
    assert_eq!(ledger.tokens_of(&"alice".to_string()), Some(100));
    assert_eq!(ledger.tokens_of(&"bob".to_string()), None);
    assert_eq!(ledger.total_supply(), 100);
}

#[test]
fn deposit_of_nothing_for_a_registered_account_sends_nothing() {
    let mut ledger = ledger_with(&[("alice", 0)]);
    let answer = ledger.storage_deposit(None, &call("alice", 0)).unwrap();
    assert_eq!(answer, (pinned(), None));
}

#[test]
fn deposit_below_the_bond_is_rejected() {
    let mut ledger = Contract::new(USAGE);
    let min = ledger.storage_balance_bounds().min;
    let answer = ledger.storage_deposit(None, &call("alice", min - 1));
    assert_eq!(answer, Err(StorageError::InsufficientDeposit));
    assert_eq!(ledger.storage_balance_of("alice".to_string()), None);
    assert_eq!(ledger.storage_deposit(None, &call("alice", 0)), Err(StorageError::InsufficientDeposit));
}

#[test]
fn deposit_of_the_bond_registers_without_refund() {
    let mut ledger = Contract::new(USAGE);
    let min = ledger.storage_balance_bounds().min;
    let answer = ledger.storage_deposit(None, &call("alice", min)).unwrap();
    assert_eq!(answer, (pinned(), None));
    assert_eq!(ledger.tokens_of(&"alice".to_string()), Some(0));
}

#[test]
fn deposit_above_the_bond_refunds_the_excess() {
    let mut ledger = Contract::new(USAGE);
    let min = ledger.storage_balance_bounds().min;
    let answer = ledger.storage_deposit(None, &call("alice", min + 500)).unwrap();
    assert_eq!(answer, (pinned(), payment("alice", 500)));
    assert_eq!(ledger.tokens_of(&"alice".to_string()), Some(0));
}

#[test]
fn deposit_for_another_account_refunds_the_caller() {
    let mut ledger = Contract::new(USAGE);
    let answer =
        ledger.storage_deposit(Some("bob".to_string()), &call("alice", BOND + 1)).unwrap();
    assert_eq!(answer, (pinned(), payment("alice", 1)));
    assert_eq!(ledger.storage_balance_of("bob".to_string()), Some(pinned()));
    assert_eq!(ledger.storage_balance_of("alice".to_string()), None);
}

#[test]
fn deposit_of_the_largest_payment_refunds_all_but_the_bond() {
    let mut ledger = Contract::new(USAGE);
    let answer = ledger.storage_deposit(None, &call("alice", u128::MAX)).unwrap();
    assert_eq!(answer, (pinned(), payment("alice", u128::MAX - BOND)));
}

#[test]
fn records_without_size_need_no_bond() {
    let mut ledger = Contract::new(0);
    let answer = ledger.storage_deposit(None, &call("alice", 0)).unwrap();
    assert_eq!(answer, (StorageBalance { total: 0, available: 0 }, None));
    let removed = ledger.storage_unregister(None, &call("alice", 1)).unwrap();
    assert_eq!(removed, (true, payment("alice", 1)));
}

#[test]
fn withdrawal_of_nothing_returns_the_balance() {
    let mut ledger = ledger_with(&[("alice", 100)]);
    assert_eq!(ledger.storage_withdraw(None, &call("alice", 1)), Ok(pinned()));
    assert_eq!(ledger.storage_withdraw(Some(0), &call("alice", 1)), Ok(pinned()));
    assert_eq!(ledger.storage_balance_of("alice".to_string()), Some(pinned()));
    assert_eq!(ledger.tokens_of(&"alice".to_string()), Some(100));
    assert_eq!(ledger.total_supply(), 100);
}

#[test]
fn withdrawal_of_anything_is_excessive() {
    let mut ledger = ledger_with(&[("alice", 100), ("bob", 0)]);
    for name in ["alice", "bob"] {
        assert_eq!(
            ledger.storage_withdraw(Some(1), &call(name, 1)),
            Err(StorageError::ExcessiveWithdrawal)
        );
        assert_eq!(
            ledger.storage_withdraw(Some(u128::MAX), &call(name, 1)),
            Err(StorageError::ExcessiveWithdrawal)
        );
    }
}

#[test]
fn withdrawal_by_a_stranger_is_rejected() {
    let mut ledger = ledger_with(&[("alice", 100)]);
    assert_eq!(
        ledger.storage_withdraw(None, &call("bob", 1)),
        Err(StorageError::UnregisteredCaller)
    );
    assert_eq!(
        ledger.storage_withdraw(Some(5), &call("bob", 1)),
        Err(StorageError::UnregisteredCaller)
    );
}

#[test]
fn withdrawal_needs_the_confirmation_payment() {
    let mut ledger = ledger_with(&[("alice", 100)]);
    for attached in [0, 2, BOND] {
        assert_eq!(
            ledger.storage_withdraw(None, &call("alice", attached)),
            Err(StorageError::MissingConfirmationPayment)
        );
        assert_eq!(
            ledger.storage_withdraw(Some(1), &call("bob", attached)),
            Err(StorageError::MissingConfirmationPayment)
        );
    }
}

#[test]
fn unregistration_never_burns_without_force() {
    let mut ledger = ledger_with(&[("alice", 100), ("bob", 5)]);
    for force in [None, Some(false)] {
        assert_eq!(
            ledger.storage_unregister(force, &call("alice", 1)),
            Err(StorageError::NonZeroBalanceWithoutForce)
        );
        assert_eq!(ledger.tokens_of(&"alice".to_string()), Some(100));
        assert_eq!(ledger.storage_balance_of("alice".to_string()), Some(pinned()));
        assert_eq!(ledger.total_supply(), 105);
    }
}

#[test]
fn forced_unregistration_burns_the_balance() {
    let mut ledger = ledger_with(&[("alice", 100), ("bob", 5)]);
    let before = ledger.total_supply();
    let answer = ledger.storage_unregister(Some(true), &call("alice", 1)).unwrap();
    assert_eq!(answer, (true, payment("alice", BOND + 1)));
    assert_eq!(before - ledger.total_supply(), 100);
    assert_eq!(ledger.storage_balance_of("alice".to_string()), None);
    assert_eq!(ledger.tokens_of(&"alice".to_string()), None);
    assert_eq!(ledger.tokens_of(&"bob".to_string()), Some(5));
}

#[test]
fn empty_record_goes_without_force() {
    let mut ledger = ledger_with(&[("alice", 0), ("bob", 5)]);
    let answer = ledger.storage_unregister(None, &call("alice", 1)).unwrap();
    assert_eq!(answer, (true, payment("alice", BOND + 1)));
    assert_eq!(ledger.total_supply(), 5);
    assert_eq!(ledger.storage_balance_of("alice".to_string()), None);
}

#[test]
fn unregistration_of_a_stranger_does_nothing() {
    let mut ledger = ledger_with(&[("alice", 100)]);
    for force in [None, Some(false), Some(true)] {
        assert_eq!(ledger.storage_unregister(force, &call("bob", 1)), Ok((false, None)));
        assert_eq!(ledger.internal_storage_unregister(force, &call("bob", 1)), Ok((None, None)));
    }
    assert_eq!(ledger.tokens_of(&"alice".to_string()), Some(100));
    assert_eq!(ledger.total_supply(), 100);
}

#[test]
fn unregistration_needs_the_confirmation_payment() {
    let mut ledger = ledger_with(&[("alice", 0)]);
    for attached in [0, 2] {
        assert_eq!(
            ledger.storage_unregister(Some(true), &call("alice", attached)),
            Err(StorageError::MissingConfirmationPayment)
        );
        assert_eq!(
            ledger.storage_unregister(None, &call("bob", attached)),
            Err(StorageError::MissingConfirmationPayment)
        );
    }
    assert_eq!(ledger.tokens_of(&"alice".to_string()), Some(0));
}

#[test]
fn internal_unregistration_names_what_was_burned() {
    let mut ledger = ledger_with(&[("alice", 100)]);
    assert_eq!(
        ledger.internal_storage_unregister(None, &call("alice", 1)),
        Err(StorageError::NonZeroBalanceWithoutForce)
    );
    let answer = ledger.internal_storage_unregister(Some(true), &call("alice", 1)).unwrap();
    assert_eq!(answer, (Some(("alice".to_string(), 100)), payment("alice", BOND + 1)));
    assert_eq!(ledger.total_supply(), 0);
}

#[test]
fn registration_after_removal_starts_afresh() {
    let mut ledger = ledger_with(&[("alice", 100)]);
    ledger.storage_unregister(Some(true), &call("alice", 1)).unwrap();
    let answer = ledger.storage_deposit(None, &call("alice", BOND)).unwrap();
    assert_eq!(answer, (pinned(), None));
    assert_eq!(ledger.tokens_of(&"alice".to_string()), Some(0));
    assert_eq!(ledger.total_supply(), 0);
}

#[test]
fn restored_ledger_holds_its_records() {
    let records = vec![("alice".to_string(), 100), ("bob".to_string(), 0), ("carol".to_string(), 7)];
    let ledger = Contract::restore(USAGE, &records, 107).unwrap();
    assert_eq!(ledger.total_supply(), 107);
    assert_eq!(ledger.account_storage_usage(), USAGE);
    assert_eq!(ledger.tokens_of(&"alice".to_string()), Some(100));
    assert_eq!(ledger.tokens_of(&"bob".to_string()), Some(0));
    assert_eq!(ledger.tokens_of(&"carol".to_string()), Some(7));
    assert_eq!(ledger.tokens_of(&"dave".to_string()), None);
}

#[test]
fn restored_ledger_may_be_empty() {
    let ledger = Contract::restore(USAGE, &Vec::new(), 0).unwrap();
    assert_eq!(ledger.total_supply(), 0);
    assert_eq!(ledger.tokens_of(&"alice".to_string()), None);
    assert!(Contract::restore(USAGE, &Vec::new(), 1).is_none());
}

#[test]
fn restore_rejects_an_account_with_two_records() {
    let records = vec![("alice".to_string(), 1), ("bob".to_string(), 2), ("alice".to_string(), 3)];
    assert!(Contract::restore(USAGE, &records, 6).is_none());
    let twice = vec![("alice".to_string(), 0), ("alice".to_string(), 0)];
    assert!(Contract::restore(USAGE, &twice, 0).is_none());
}

#[test]
fn restore_rejects_a_supply_that_is_not_the_sum() {
    let records = vec![("alice".to_string(), 100), ("bob".to_string(), 5)];
    assert!(Contract::restore(USAGE, &records, 104).is_none());
    assert!(Contract::restore(USAGE, &records, 106).is_none());
    assert!(Contract::restore(USAGE, &records, 105).is_some());
}

#[test]
fn restore_rejects_balances_beyond_any_supply() {
    let records = vec![("alice".to_string(), u128::MAX), ("bob".to_string(), 1)];
    assert!(Contract::restore(USAGE, &records, u128::MAX).is_none());
    assert!(Contract::restore(USAGE, &records, 0).is_none());
    let largest = vec![("alice".to_string(), u128::MAX), ("bob".to_string(), 0)];
    assert!(Contract::restore(USAGE, &largest, u128::MAX).is_some());
}
