//! The rules of storage staking, as decisions over plain values.
//!
//! Each function here looks at what an operation was given and at the little
//! it needs to know of the ledger, and says what the operation does. None of
//! them touches a ledger: whoever holds the records carries the decision out.

use vstd::prelude::*;
use crate::balance::StorageBalance;
use crate::error::StorageError;

verus! {

/// The payment that confirms a withdrawal or an unregistration: exactly one
/// unit, so that no wallet sends it by accident.
pub const ONE_YOCTO: u128 = 1;

/// What a deposit does.
#[derive(Clone, Copy, Debug, PartialEq, Eq, Structural)]
pub struct DepositDecision {
    /// Whether a record with a token balance of zero is created.
    pub register: bool,
    /// What goes back to the caller. Nothing is sent when it is zero.
    pub refund: u128,
}

/// What an unregistration does.
#[derive(Clone, Copy, Debug, PartialEq, Eq, Structural)]
pub enum UnregisterDecision {
    /// The caller has no record: nothing changes and nothing is sent.
    NotRegistered,
    /// The caller's record is removed, `burn` tokens leave the total supply,
    /// and `refund` goes back to the caller.
    Remove { burn: u128, refund: u128 },
}

/// A deposit for an account that is `registered` or not, with `payment`
/// attached, when the bond is `min`.
///
/// For a registered account the whole payment goes back. For a new one the
/// payment must cover the bond, and what exceeds it goes back.
pub open spec fn deposit_decision(registered: bool, payment: u128, min: u128) -> Result<
    DepositDecision,
    StorageError,
> {
    if registered {
        Ok(DepositDecision { register: false, refund: payment })
    } else if payment < min {
        Err(StorageError::InsufficientDeposit)
    } else {
        Ok(DepositDecision { register: true, refund: (payment - min) as u128 })
    }
}

/// A withdrawal of `amount` by a caller whose storage balance is `balance`
/// (`None` for a caller without a record), confirmed by `confirmation`.
///
/// Nothing is ever available, so the only withdrawal that succeeds asks for
/// nothing and gets the balance back as it is.
pub open spec fn withdraw_decision(
    confirmation: u128,
    balance: Option<StorageBalance>,
    amount: Option<u128>,
) -> Result<StorageBalance, StorageError> {
    if confirmation != ONE_YOCTO {
        Err(StorageError::MissingConfirmationPayment)
    } else if balance is None {
        Err(StorageError::UnregisteredCaller)
    } else if amount is Some && amount->0 > 0 {
        Err(StorageError::ExcessiveWithdrawal)
    } else {
        Ok(balance->0)
    }
}

/// An unregistration by a caller whose token balance is `balance` (`None` for
/// a caller without a record), confirmed by `confirmation`, when the bond is
/// `min`.
///
/// A record goes only if it holds no tokens or the caller forces it. The
/// refund is the bond and the confirmation payment.
pub open spec fn unregister_decision(
    confirmation: u128,
    balance: Option<u128>,
    force: Option<bool>,
    min: u128,
) -> Result<UnregisterDecision, StorageError> {
    if confirmation != ONE_YOCTO {
        Err(StorageError::MissingConfirmationPayment)
    } else if balance is None {
        Ok(UnregisterDecision::NotRegistered)
    } else if balance->0 == 0 || force == Some(true) {
        Ok(UnregisterDecision::Remove { burn: balance->0, refund: (min + ONE_YOCTO) as u128 })
    } else {
        Err(StorageError::NonZeroBalanceWithoutForce)
    }
}

/// Decides a deposit; see [`deposit_decision`].
pub fn decide_deposit(registered: bool, payment: u128, min: u128) -> (decision: Result<
    DepositDecision,
    StorageError,
>)
    ensures
        decision == deposit_decision(registered, payment, min),
{
    if registered {
        Ok(DepositDecision { register: false, refund: payment })
    } else if payment < min {
        Err(StorageError::InsufficientDeposit)
    } else {
        Ok(DepositDecision { register: true, refund: payment - min })
    }
}

/// Decides a withdrawal; see [`withdraw_decision`].
pub fn decide_withdraw(
    confirmation: u128,
    balance: Option<StorageBalance>,
    amount: Option<u128>,
) -> (decision: Result<StorageBalance, StorageError>)
    ensures
        decision == withdraw_decision(confirmation, balance, amount),
{
    if confirmation != ONE_YOCTO {
        return Err(StorageError::MissingConfirmationPayment);
    }
    match balance {
        None => Err(StorageError::UnregisteredCaller),
        Some(storage_balance) => match amount {
            Some(requested) if requested > 0 => Err(StorageError::ExcessiveWithdrawal),
            _ => Ok(storage_balance),
        },
    }
}

/// Decides an unregistration; see [`unregister_decision`]. The bond must
/// leave room for the confirmation payment that is refunded with it.
pub fn decide_unregister(
    confirmation: u128,
    balance: Option<u128>,
    force: Option<bool>,
    min: u128,
) -> (decision: Result<UnregisterDecision, StorageError>)
    requires
        min < u128::MAX,
    ensures
        decision == unregister_decision(confirmation, balance, force, min),
{
    if confirmation != ONE_YOCTO {
        return Err(StorageError::MissingConfirmationPayment);
    }
    let force: bool = match force {
        Some(flag) => flag,
        None => false,
    };
    match balance {
        None => Ok(UnregisterDecision::NotRegistered),
        Some(tokens) => {
            if tokens == 0 || force {
                Ok(UnregisterDecision::Remove { burn: tokens, refund: min + ONE_YOCTO })
            } else {
                Err(StorageError::NonZeroBalanceWithoutForce)
            }
        },
    }
}

} // verus!
