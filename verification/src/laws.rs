//! What holds of the ledger whatever is asked of it.
//!
//! Each law is stated over the model and proved from it. The operations of a
//! ledger that runs are proved to follow the model, so each law holds of every
//! such ledger too.

use vstd::prelude::*;
use crate::balance::{StorageBalance, required_balance};
use crate::error::StorageError;
use crate::model::{Account, LedgerState, UnregisterReceipt, lemma_sum_insert, lemma_sum_remove};
use crate::rules::ONE_YOCTO;

verus! {

/// The stake of a registered account is pinned to the bond: its storage
/// balance is the least that the bounds allow, which is also the most, and
/// none of it is available. An account that is not registered has no storage
/// balance.
pub proof fn law_bond_is_pinned(ledger: LedgerState, account: Account)
    ensures
        ledger.bounds().min == required_balance(ledger.account_storage_usage),
        ledger.bounds().max == Some(ledger.bounds().min),
        ledger.registered(account) ==> ledger.balance_of(account) == Some(
            StorageBalance { total: ledger.bounds().min, available: 0 },
        ),
        !ledger.registered(account) ==> ledger.balance_of(account) is None,
{
}

/// No deposit breaks the ledger: the balances still add up to the total
/// supply, which a deposit never changes, and no other account is touched.
pub proof fn law_deposit_keeps_ledger_valid(ledger: LedgerState, target: Account, payment: u128)
    requires
        ledger.valid(),
    ensures
        ledger.after_deposit(target, payment).valid(),
        ledger.after_deposit(target, payment).total_supply == ledger.total_supply,
        ledger.after_deposit(target, payment).account_storage_usage
            == ledger.account_storage_usage,
        forall|other: Account|
            other != target ==> ledger.after_deposit(target, payment).tokens_of(other)
                == ledger.tokens_of(other),
{
    if !ledger.registered(target) {
        lemma_sum_insert(ledger.accounts, target, 0);
    }
}

/// No unregistration breaks the ledger: the balances still add up to the
/// total supply, and no other account is touched.
pub proof fn law_unregister_keeps_ledger_valid(
    ledger: LedgerState,
    caller: Account,
    confirmation: u128,
    force: Option<bool>,
)
    requires
        ledger.valid(),
    ensures
        ledger.after_unregister(caller, confirmation, force).valid(),
        ledger.after_unregister(caller, confirmation, force).account_storage_usage
            == ledger.account_storage_usage,
        forall|other: Account|
            other != caller ==> ledger.after_unregister(caller, confirmation, force).tokens_of(
                other,
            ) == ledger.tokens_of(other),
{
    if ledger.registered(caller) {
        lemma_sum_remove(ledger.accounts, caller);
    }
}

/// An operation that fails leaves the ledger as it was.
pub proof fn law_failure_changes_nothing(
    ledger: LedgerState,
    account: Account,
    payment: u128,
    confirmation: u128,
    force: Option<bool>,
)
    ensures
        ledger.deposit(account, payment) is Err ==> ledger.after_deposit(account, payment)
            == ledger,
        ledger.unregister(account, confirmation, force) is Err ==> ledger.after_unregister(
            account,
            confirmation,
            force,
        ) == ledger,
{
}

/// A first deposit registers the target with no tokens. Any deposit for it
/// from then on changes nothing, its token balance least of all, and sends
/// the whole payment back.
pub proof fn law_redeposit_is_refunded(
    ledger: LedgerState,
    target: Account,
    first: u128,
    second: u128,
)
    requires
        !ledger.registered(target),
        ledger.deposit(target, first) is Ok,
    ensures
        ({
            let registered = ledger.after_deposit(target, first);
            &&& registered.tokens_of(target) == Some(0u128)
            &&& registered.after_deposit(target, second) == registered
            &&& registered.deposit(target, second) matches Ok(receipt)
            &&& receipt.refund == second
            &&& Some(receipt.balance) == registered.balance_of(target)
        }),
{
}

/// A deposit for a registered account, however it came to be registered and
/// whatever it holds, changes nothing and sends the whole payment back.
pub proof fn law_deposit_when_registered(ledger: LedgerState, target: Account, payment: u128)
    requires
        ledger.registered(target),
    ensures
        ledger.after_deposit(target, payment) == ledger,
        ledger.deposit(target, payment) matches Ok(receipt) && receipt.refund == payment && Some(
            receipt.balance,
        ) == ledger.balance_of(target),
{
}

/// A first deposit fails, as an insufficient deposit, exactly when it is
/// below the bond. At the bond or above it registers the target with no
/// tokens and sends back what exceeds the bond: nothing for a payment of
/// just the bond.
pub proof fn law_minimum_is_enforced(ledger: LedgerState, target: Account, payment: u128)
    requires
        !ledger.registered(target),
    ensures
        payment < ledger.bounds().min <==> ledger.deposit(target, payment) is Err,
        ledger.deposit(target, payment) matches Err(error) ==> error
            == StorageError::InsufficientDeposit,
        ledger.deposit(target, payment) matches Ok(receipt) ==> {
            &&& receipt.refund == payment - ledger.bounds().min
            &&& Some(receipt.balance) == ledger.after_deposit(target, payment).balance_of(target)
            &&& ledger.after_deposit(target, payment).tokens_of(target) == Some(0u128)
        },
{
}

/// Without the confirmation payment of exactly one unit, a withdrawal and an
/// unregistration fail, and the ledger stays as it was.
pub proof fn law_confirmation_is_required(
    ledger: LedgerState,
    caller: Account,
    confirmation: u128,
    amount: Option<u128>,
    force: Option<bool>,
)
    requires
        confirmation != ONE_YOCTO,
    ensures
        ledger.withdraw(caller, confirmation, amount) == Err::<StorageBalance, StorageError>(
            StorageError::MissingConfirmationPayment,
        ),
        ledger.unregister(caller, confirmation, force) == Err::<UnregisterReceipt, StorageError>(
            StorageError::MissingConfirmationPayment,
        ),
        ledger.after_unregister(caller, confirmation, force) == ledger,
{
}

/// A confirmed withdrawal by a registered account returns its storage
/// balance when it asks for nothing, and fails as excessive when it asks for
/// anything. A caller without a record is told so.
pub proof fn law_withdrawal_gives_nothing(ledger: LedgerState, caller: Account, amount: u128)
    ensures
        ledger.registered(caller) ==> {
            &&& ledger.withdraw(caller, ONE_YOCTO, None) == Ok::<StorageBalance, StorageError>(
                ledger.balance_of(caller)->0,
            )
            &&& ledger.withdraw(caller, ONE_YOCTO, Some(0)) == ledger.withdraw(
                caller,
                ONE_YOCTO,
                None,
            )
            &&& amount > 0 ==> ledger.withdraw(caller, ONE_YOCTO, Some(amount)) == Err::<
                StorageBalance,
                StorageError,
            >(StorageError::ExcessiveWithdrawal)
        },
        !ledger.registered(caller) ==> ledger.withdraw(caller, ONE_YOCTO, Some(amount)) == Err::<
            StorageBalance,
            StorageError,
        >(StorageError::UnregisteredCaller) && ledger.withdraw(caller, ONE_YOCTO, None) == Err::<
            StorageBalance,
            StorageError,
        >(StorageError::UnregisteredCaller),
{
}

/// A confirmed unregistration never destroys tokens without consent. A
/// record that holds tokens stays, with the ledger as it was, unless the
/// caller forces it. A record that holds none, or is forced, goes: its
/// tokens leave the total supply, the caller is no longer registered, and the
/// bond goes back together with the confirmation payment.
pub proof fn law_unregistration_is_safe(ledger: LedgerState, caller: Account, force: Option<bool>)
    requires
        ledger.valid(),
        ledger.registered(caller),
    ensures
        ({
            let tokens = ledger.accounts[caller];
            let after = ledger.after_unregister(caller, ONE_YOCTO, force);
            if tokens > 0 && force != Some(true) {
                &&& ledger.unregister(caller, ONE_YOCTO, force) == Err::<
                    UnregisterReceipt,
                    StorageError,
                >(StorageError::NonZeroBalanceWithoutForce)
                &&& after == ledger
            } else {
                &&& ledger.unregister(caller, ONE_YOCTO, force) matches Ok(receipt)
                &&& receipt.burned == Some(tokens)
                &&& receipt.refund == ledger.bounds().min + ONE_YOCTO
                &&& !after.registered(caller)
                &&& after.total_supply == ledger.total_supply - tokens
            }
        }),
{
    lemma_sum_remove(ledger.accounts, caller);
}

/// A confirmed unregistration by an account that has no record removes
/// nothing, sends nothing and leaves the ledger as it was.
pub proof fn law_unknown_account_is_left_alone(
    ledger: LedgerState,
    caller: Account,
    force: Option<bool>,
)
    requires
        !ledger.registered(caller),
    ensures
        ledger.unregister(caller, ONE_YOCTO, force) matches Ok(receipt) && receipt.burned is None
            && receipt.refund == 0,
        ledger.after_unregister(caller, ONE_YOCTO, force) == ledger,
{
}

/// An account that was removed and registers again starts afresh, with no
/// tokens, whatever it held before.
pub proof fn law_registration_starts_afresh(ledger: LedgerState, caller: Account, payment: u128)
    requires
        ledger.registered(caller),
        payment >= ledger.bounds().min,
    ensures
        ({
            let removed = ledger.after_unregister(caller, ONE_YOCTO, Some(true));
            &&& !removed.registered(caller)
            &&& removed.after_deposit(caller, payment).tokens_of(caller) == Some(0u128)
        }),
{
}

} // verus!
