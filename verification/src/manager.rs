//! The operations of storage staking, as any ledger offers them.

use vstd::prelude::*;
use crate::balance::{StorageBalance, StorageBalanceBounds};
use crate::error::StorageError;
use crate::model::{Account, LedgerState};

verus! {

/// What an operation is told of the call that it serves.
#[derive(Clone, Debug, PartialEq, Eq)]
pub struct CallContext {
    /// Who makes the call. Refunds go to this account.
    pub predecessor_account_id: String,
    /// The payment that came with the call.
    pub attached_deposit: u128,
}

/// A payment that an operation schedules. It is to be sent once the operation
/// has been committed; whether it arrives is not the ledger's concern.
#[derive(Clone, Debug, PartialEq, Eq)]
pub struct Transfer {
    pub receiver_id: String,
    pub amount: u128,
}

/// `transfer` is what sends `amount` to `receiver`: a payment of just that
/// to just that account, or no payment at all where the amount is zero.
pub open spec fn pays(transfer: Option<Transfer>, receiver: Account, amount: u128) -> bool {
    match transfer {
        Some(payment) => amount > 0 && payment.receiver_id@ == receiver && payment.amount
            == amount,
        None => amount == 0,
    }
}

/// The account that a deposit is for: the one named, or else the caller.
pub open spec fn deposit_target(account_id: Option<String>, ctx: &CallContext) -> Account {
    match account_id {
        Some(target) => target@,
        None => ctx.predecessor_account_id@,
    }
}

/// Storage staking on a ledger whose state is a [`LedgerState`].
///
/// Each operation answers what the model answers and leaves the ledger in
/// the state that the model gives. An operation that fails changes nothing.
pub trait StorageManager: View<V = LedgerState> + Sized {
    /// Registers `account_id`, or the caller where none is given, against
    /// the attached payment.
    ///
    /// An account that is registered already stays as it is and the whole
    /// payment goes back. A new account needs a payment that covers the bond,
    /// starts with no tokens, and has what exceeds the bond sent back.
    /// Returns the storage balance of the account and the refund, if any.
    fn storage_deposit(&mut self, account_id: Option<String>, ctx: &CallContext) -> (result:
        Result<(StorageBalance, Option<Transfer>), StorageError>)
        requires
            old(self)@.valid(),
        ensures
            final(self)@.valid(),
            final(self)@ == old(self)@.after_deposit(
                deposit_target(account_id, ctx),
                ctx.attached_deposit,
            ),
            match old(self)@.deposit(deposit_target(account_id, ctx), ctx.attached_deposit) {
                Ok(receipt) => result matches Ok((balance, refund)) && balance == receipt.balance
                    && pays(refund, ctx.predecessor_account_id@, receipt.refund),
                Err(error) => result matches Err(e) && e == error,
            },
    ;

    /// Asks for `amount` of the caller's stake back. The call must carry the
    /// confirmation payment.
    ///
    /// Nothing is ever available: asking for nothing returns the caller's
    /// storage balance, asking for more fails. The ledger stays as it is.
    fn storage_withdraw(&mut self, amount: Option<u128>, ctx: &CallContext) -> (result: Result<
        StorageBalance,
        StorageError,
    >)
        requires
            old(self)@.valid(),
        ensures
            final(self)@ == old(self)@,
            result == old(self)@.withdraw(
                ctx.predecessor_account_id@,
                ctx.attached_deposit,
                amount,
            ),
    ;

    /// Removes the caller's record. The call must carry the confirmation
    /// payment.
    ///
    /// A record that holds tokens goes only with `force`, and its tokens are
    /// burned. Returns whether a record was removed, and the refund of the
    /// bond and the confirmation payment if one was.
    fn storage_unregister(&mut self, force: Option<bool>, ctx: &CallContext) -> (result: Result<
        (bool, Option<Transfer>),
        StorageError,
    >)
        requires
            old(self)@.valid(),
        ensures
            final(self)@.valid(),
            final(self)@ == old(self)@.after_unregister(
                ctx.predecessor_account_id@,
                ctx.attached_deposit,
                force,
            ),
            match old(self)@.unregister(
                ctx.predecessor_account_id@,
                ctx.attached_deposit,
                force,
            ) {
                Ok(receipt) => result matches Ok((removed, refund)) && removed
                    == receipt.burned.is_some() && pays(
                    refund,
                    ctx.predecessor_account_id@,
                    receipt.refund,
                ),
                Err(error) => result matches Err(e) && e == error,
            },
    ;

    /// The least and the most that an account can stake: both are the bond.
    fn storage_balance_bounds(&self) -> (bounds: StorageBalanceBounds)
        ensures
            bounds == self@.bounds(),
    ;

    /// The storage balance of `account_id`, or `None` if it is not
    /// registered.
    fn storage_balance_of(&self, account_id: String) -> (balance: Option<StorageBalance>)
        ensures
            balance == self@.balance_of(account_id@),
    ;
}

} // verus!
