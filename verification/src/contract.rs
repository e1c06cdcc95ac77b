//! The ledger that runs: account records in a hash map, proved to follow the
//! model step by step.

use vstd::prelude::*;
use vstd::hash_map::StringHashMap;
use crate::balance::{StorageBalance, StorageBalanceBounds, storage_bounds};
use crate::error::StorageError;
use crate::manager::{CallContext, StorageManager, Transfer, pays};
use crate::model::{Account, LedgerState, lemma_sum_insert, lemma_sum_remove, sum_balances};
use crate::rules::{UnregisterDecision, decide_deposit, decide_unregister, decide_withdraw};

verus! {

/// A token ledger with storage staking.
pub struct Contract {
    accounts: StringHashMap<u128>,
    total_supply: u128,
    account_storage_usage: u64,
}

impl View for Contract {
    type V = LedgerState;

    closed spec fn view(&self) -> LedgerState {
        LedgerState {
            accounts: self.accounts@,
            total_supply: self.total_supply,
            account_storage_usage: self.account_storage_usage,
        }
    }
}

/// The balances of `records` added up.
pub open spec fn total_of(records: Seq<(String, u128)>) -> nat
    decreases records.len(),
{
    if records.len() == 0 {
        0
    } else {
        total_of(records.drop_last()) + (records.last().1 as nat)
    }
}

/// No account has two records.
pub open spec fn distinct_accounts(records: Seq<(String, u128)>) -> bool {
    forall|i: int, j: int| 0 <= i < j < records.len() ==> records[i].0@ != records[j].0@
}

/// `records` and `total_supply` are what a ledger can have kept: one record
/// for each account, and a total supply that is the sum of the balances.
pub open spec fn restorable(records: Seq<(String, u128)>, total_supply: u128) -> bool {
    distinct_accounts(records) && total_of(records) == total_supply
}

/// The first records never add up to more than all of them.
proof fn lemma_total_of_prefix(records: Seq<(String, u128)>, count: int)
    requires
        0 <= count <= records.len(),
    ensures
        total_of(records.take(count)) <= total_of(records),
    decreases records.len(),
{
    if count == records.len() {
        assert(records.take(count) =~= records);
    } else {
        lemma_total_of_prefix(records.drop_last(), count);
        assert(records.drop_last().take(count) =~= records.take(count));
    }
}

/// The payment that sends `amount` to `receiver`, if there is anything to
/// send.
fn payment_to(receiver: &String, amount: u128) -> (transfer: Option<Transfer>)
    ensures
        pays(transfer, receiver@, amount),
{
    if amount > 0 {
        Some(Transfer { receiver_id: receiver.clone(), amount })
    } else {
        None
    }
}

impl Contract {
    /// A ledger without accounts or tokens, whose records take
    /// `account_storage_usage` bytes each.
    pub fn new(account_storage_usage: u64) -> (contract: Contract)
        ensures
            contract@ == LedgerState::empty(account_storage_usage),
            contract@.valid(),
    {
        Contract { accounts: StringHashMap::new(), total_supply: 0, account_storage_usage }
    }

    /// The ledger that was kept as `records` of account and token balance
    /// and as `total_supply`, or `None` if no ledger can have left these
    /// behind: an account with two records, or a total supply that is not the
    /// sum of the balances.
    pub fn restore(account_storage_usage: u64, records: &Vec<(String, u128)>, total_supply: u128)
        -> (result: Option<Contract>)
        ensures
            result is Some <==> restorable(records@, total_supply),
            result matches Some(contract) ==> {
                &&& contract@.valid()
                &&& contract@.total_supply == total_supply
                &&& contract@.account_storage_usage == account_storage_usage
                &&& forall|i: int|
                    0 <= i < records.len() ==> contract@.tokens_of(#[trigger] records[i].0@)
                        == Some(records[i].1)
                &&& forall|account: Account| #[trigger]
                    contract@.registered(account) ==> exists|i: int|
                        0 <= i < records.len() && #[trigger] records[i].0@ == account
            },
    {
        let mut accounts: StringHashMap<u128> = StringHashMap::new();
        let mut sum: u128 = 0;
        let mut count: usize = 0;
        while count < records.len()
            invariant
                count <= records.len(),
                accounts@.dom().finite(),
                sum == sum_balances(accounts@),
                sum == total_of(records@.take(count as int)),
                distinct_accounts(records@.take(count as int)),
                forall|i: int|
                    0 <= i < count ==> accounts@.contains_key(#[trigger] records[i].0@)
                        && accounts@[records[i].0@] == records[i].1,
                forall|account: Account| #[trigger]
                    accounts@.contains_key(account) ==> exists|i: int|
                        0 <= i < count && #[trigger] records[i].0@ == account,
            decreases records.len() - count,
        {
            let record = &records[count];
            let ghost seen = records@.take(count as int);
            let ghost next = records@.take(count + 1);
            assert(next.drop_last() =~= seen);
            assert(next.last() == records[count as int]);
            if accounts.contains_key(record.0.as_str()) {
                proof {
                    let earlier = choose|i: int| 0 <= i < count && #[trigger] records[i].0@ == record.0@;
                    assert(records[earlier].0@ == records[count as int].0@);
                }
                return None;
            }
            match sum.checked_add(record.1) {
                Some(more) => {
                    sum = more;
                },
                None => {
                    proof {
                        lemma_total_of_prefix(records@, count + 1);
                    }
                    return None;
                },
            }
            proof {
                lemma_sum_insert(accounts@, record.0@, record.1);
            }
            accounts.insert(record.0.clone(), record.1);
            count += 1;
        }
        assert(records@.take(count as int) =~= records@);
        if sum != total_supply {
            return None;
        }
        Some(Contract { accounts, total_supply, account_storage_usage })
    }

    /// All tokens in circulation.
    pub fn total_supply(&self) -> (supply: u128)
        ensures
            supply == self@.total_supply,
    {
        self.total_supply
    }

    /// The bytes that one account record occupies.
    pub fn account_storage_usage(&self) -> (bytes: u64)
        ensures
            bytes == self@.account_storage_usage,
    {
        self.account_storage_usage
    }

    /// The token balance of `account_id`, or `None` if it is not registered.
    pub fn tokens_of(&self, account_id: &String) -> (tokens: Option<u128>)
        ensures
            tokens == self@.tokens_of(account_id@),
    {
        match self.accounts.get(account_id.as_str()) {
            Some(balance) => Some(*balance),
            None => None,
        }
    }

    /// The storage balance of `account_id`, or `None` if it is not
    /// registered.
    pub fn internal_storage_balance_of(&self, account_id: &String) -> (balance: Option<
        StorageBalance,
    >)
        ensures
            balance == self@.balance_of(account_id@),
    {
        if self.accounts.contains_key(account_id.as_str()) {
            Some(StorageBalance { total: self.storage_balance_bounds().min, available: 0 })
        } else {
            None
        }
    }

    /// Removes the caller's record; see
    /// [`StorageManager::storage_unregister`]. Returns the account and the
    /// tokens that were burned with it, or `None` where the caller had no
    /// record, and the refund if a record was removed.
    pub fn internal_storage_unregister(&mut self, force: Option<bool>, ctx: &CallContext) -> (result:
        Result<(Option<(String, u128)>, Option<Transfer>), StorageError>)
        requires
            old(self)@.valid(),
        ensures
            final(self)@.valid(),
            final(self)@ == old(self)@.after_unregister(
                ctx.predecessor_account_id@,
                ctx.attached_deposit,
                force,
            ),
            match old(self)@.unregister(
                ctx.predecessor_account_id@,
                ctx.attached_deposit,
                force,
            ) {
                Ok(receipt) => result matches Ok((removed, refund)) && pays(
                    refund,
                    ctx.predecessor_account_id@,
                    receipt.refund,
                ) && match receipt.burned {
                    Some(burn) => removed matches Some((account_id, tokens)) && account_id@
                        == ctx.predecessor_account_id@ && tokens == burn,
                    None => removed is None,
                },
                Err(error) => result matches Err(e) && e == error,
            },
    {
        let tokens = self.tokens_of(&ctx.predecessor_account_id);
        let min = self.storage_balance_bounds().min;
        match decide_unregister(ctx.attached_deposit, tokens, force, min) {
            Ok(UnregisterDecision::NotRegistered) => Ok((None, None)),
            Ok(UnregisterDecision::Remove { burn, refund }) => {
                proof {
                    lemma_sum_remove(self.accounts@, ctx.predecessor_account_id@);
                }
                self.accounts.remove(ctx.predecessor_account_id.as_str());
                self.total_supply = self.total_supply - burn;
                let transfer = payment_to(&ctx.predecessor_account_id, refund);
                Ok((Some((ctx.predecessor_account_id.clone(), burn)), transfer))
            },
            Err(error) => Err(error),
        }
    }
}

impl StorageManager for Contract {
    fn storage_deposit(&mut self, account_id: Option<String>, ctx: &CallContext) -> (result:
        Result<(StorageBalance, Option<Transfer>), StorageError>) {
        let target = match account_id {
            Some(named) => named,
            None => ctx.predecessor_account_id.clone(),
        };
        let registered = self.accounts.contains_key(target.as_str());
        let min = self.storage_balance_bounds().min;
        match decide_deposit(registered, ctx.attached_deposit, min) {
            Ok(decision) => {
                if decision.register {
                    proof {
                        lemma_sum_insert(self.accounts@, target@, 0);
                    }
                    self.accounts.insert(target.clone(), 0);
                }
                let refund = payment_to(&ctx.predecessor_account_id, decision.refund);
                let balance = self.internal_storage_balance_of(&target).unwrap();
                Ok((balance, refund))
            },
            Err(error) => Err(error),
        }
    }

    fn storage_withdraw(&mut self, amount: Option<u128>, ctx: &CallContext) -> (result: Result<
        StorageBalance,
        StorageError,
    >) {
        let balance = self.internal_storage_balance_of(&ctx.predecessor_account_id);
        decide_withdraw(ctx.attached_deposit, balance, amount)
    }

    fn storage_unregister(&mut self, force: Option<bool>, ctx: &CallContext) -> (result: Result<
        (bool, Option<Transfer>),
        StorageError,
    >) {
        match self.internal_storage_unregister(force, ctx) {
            Ok((removed, refund)) => Ok((removed.is_some(), refund)),
            Err(error) => Err(error),
        }
    }

    fn storage_balance_bounds(&self) -> (bounds: StorageBalanceBounds) {
        storage_bounds(self.account_storage_usage)
    }

    fn storage_balance_of(&self, account_id: String) -> (balance: Option<StorageBalance>) {
        self.internal_storage_balance_of(&account_id)
    }
}

} // verus!
