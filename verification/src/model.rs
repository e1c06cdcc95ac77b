//! The ledger as a mathematical state machine.
//!
//! A state holds one token balance for each registered account and the total
//! supply of tokens. Each operation is a pair of functions of the state before
//! it: what it answers, and the state after it.

use vstd::prelude::*;
use crate::balance::{StorageBalance, StorageBalanceBounds, bounds_of, pinned_balance};
use crate::error::StorageError;
use crate::rules::{
    DepositDecision,
    UnregisterDecision,
    deposit_decision,
    unregister_decision,
    withdraw_decision,
};

verus! {

/// An account identifier, as the sequence of its characters.
pub type Account = Seq<char>;

/// The sum of all balances in `balances`, for a map with finitely many
/// accounts.
pub open spec fn sum_balances(balances: Map<Account, u128>) -> nat
    decreases balances.dom().len(),
    when balances.dom().finite()
{
    if balances.dom().is_empty() {
        0
    } else {
        let account = balances.dom().choose();
        (balances[account] as nat) + sum_balances(balances.remove(account))
    }
}

/// Any one account can be taken out of the sum first.
pub proof fn lemma_sum_remove(balances: Map<Account, u128>, account: Account)
    requires
        balances.dom().finite(),
        balances.contains_key(account),
    ensures
        sum_balances(balances) == balances[account] + sum_balances(balances.remove(account)),
    decreases balances.dom().len(),
{
    let first = balances.dom().choose();
    if first != account {
        let rest = balances.remove(first);
        lemma_sum_remove(rest, account);
        lemma_sum_remove(balances.remove(account), first);
        assert(rest.remove(account) =~= balances.remove(account).remove(first));
    }
}

/// A new account adds its balance to the sum.
pub proof fn lemma_sum_insert(balances: Map<Account, u128>, account: Account, balance: u128)
    requires
        balances.dom().finite(),
        !balances.contains_key(account),
    ensures
        sum_balances(balances.insert(account, balance)) == sum_balances(balances) + balance,
{
    let grown = balances.insert(account, balance);
    lemma_sum_remove(grown, account);
    assert(grown.remove(account) =~= balances);
}

/// The state of the ledger.
pub struct LedgerState {
    /// The token balance of each registered account. An account is registered
    /// exactly when it has an entry here.
    pub accounts: Map<Account, u128>,
    /// All tokens in circulation.
    pub total_supply: u128,
    /// The bytes that one account record occupies.
    pub account_storage_usage: u64,
}

/// What a successful deposit answers.
pub struct DepositReceipt {
    /// The storage balance of the target after the deposit.
    pub balance: StorageBalance,
    /// What goes back to the caller; zero for no payment at all.
    pub refund: u128,
}

/// What a successful unregistration answers.
pub struct UnregisterReceipt {
    /// The tokens that the removed record held, which are burned; `None`
    /// where the caller had no record and nothing was removed.
    pub burned: Option<u128>,
    /// What goes back to the caller; zero for no payment at all.
    pub refund: u128,
}

impl LedgerState {
    /// The ledger with no account and no tokens.
    pub open spec fn empty(account_storage_usage: u64) -> LedgerState {
        LedgerState { accounts: Map::empty(), total_supply: 0, account_storage_usage }
    }

    /// The states that a ledger can be in: finitely many accounts, whose
    /// balances add up to the total supply.
    pub open spec fn valid(self) -> bool {
        &&& self.accounts.dom().finite()
        &&& self.total_supply == sum_balances(self.accounts)
    }

    pub open spec fn registered(self, account: Account) -> bool {
        self.accounts.contains_key(account)
    }

    /// The token balance of `account`, if it is registered.
    pub open spec fn tokens_of(self, account: Account) -> Option<u128> {
        if self.registered(account) {
            Some(self.accounts[account])
        } else {
            None
        }
    }

    pub open spec fn bounds(self) -> StorageBalanceBounds {
        bounds_of(self.account_storage_usage)
    }

    /// The storage balance of `account`: the bond in full and nothing
    /// available if it is registered, nothing at all if it is not.
    pub open spec fn balance_of(self, account: Account) -> Option<StorageBalance> {
        if self.registered(account) {
            Some(pinned_balance(self.account_storage_usage))
        } else {
            None
        }
    }

    /// What a deposit of `payment` for `target` does.
    pub open spec fn deposit_decision(self, target: Account, payment: u128) -> Result<
        DepositDecision,
        StorageError,
    > {
        deposit_decision(self.registered(target), payment, self.bounds().min)
    }

    /// What a deposit of `payment` for `target` answers.
    pub open spec fn deposit(self, target: Account, payment: u128) -> Result<
        DepositReceipt,
        StorageError,
    > {
        match self.deposit_decision(target, payment) {
            Ok(decision) => Ok(
                DepositReceipt {
                    balance: pinned_balance(self.account_storage_usage),
                    refund: decision.refund,
                },
            ),
            Err(error) => Err(error),
        }
    }

    /// The state after a deposit of `payment` for `target`.
    pub open spec fn after_deposit(self, target: Account, payment: u128) -> LedgerState {
        match self.deposit_decision(target, payment) {
            Ok(decision) if decision.register => LedgerState {
                accounts: self.accounts.insert(target, 0),
                ..self
            },
            _ => self,
        }
    }

    /// What a withdrawal of `amount` by `caller` answers. No withdrawal
    /// changes the state.
    pub open spec fn withdraw(self, caller: Account, confirmation: u128, amount: Option<u128>)
        -> Result<StorageBalance, StorageError> {
        withdraw_decision(confirmation, self.balance_of(caller), amount)
    }

    /// What an unregistration by `caller` does.
    pub open spec fn unregister_decision(
        self,
        caller: Account,
        confirmation: u128,
        force: Option<bool>,
    ) -> Result<UnregisterDecision, StorageError> {
        unregister_decision(confirmation, self.tokens_of(caller), force, self.bounds().min)
    }

    /// What an unregistration by `caller` answers.
    pub open spec fn unregister(self, caller: Account, confirmation: u128, force: Option<bool>)
        -> Result<UnregisterReceipt, StorageError> {
        match self.unregister_decision(caller, confirmation, force) {
            Ok(UnregisterDecision::NotRegistered) => Ok(
                UnregisterReceipt { burned: None, refund: 0 },
            ),
            Ok(UnregisterDecision::Remove { burn, refund }) => Ok(
                UnregisterReceipt { burned: Some(burn), refund },
            ),
            Err(error) => Err(error),
        }
    }

    /// The state after an unregistration by `caller`.
    pub open spec fn after_unregister(
        self,
        caller: Account,
        confirmation: u128,
        force: Option<bool>,
    ) -> LedgerState {
        match self.unregister_decision(caller, confirmation, force) {
            Ok(UnregisterDecision::Remove { burn, refund }) => LedgerState {
                accounts: self.accounts.remove(caller),
                total_supply: (self.total_supply - burn) as u128,
                ..self
            },
            _ => self,
        }
    }
}

} // verus!
