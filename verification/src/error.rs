//! Why an operation on the ledger is rejected.

use vstd::prelude::*;

verus! {

/// The ways in which an operation fails. A failed operation leaves the ledger
/// as it was and schedules no payment.
#[derive(Clone, Copy, Debug, PartialEq, Eq, Structural)]
pub enum StorageError {
    /// A first deposit was smaller than the bond.
    InsufficientDeposit,
    /// A withdrawal or an unregistration came without the confirmation
    /// payment of exactly one unit.
    MissingConfirmationPayment,
    /// A withdrawal was asked for by an account that has no record.
    UnregisteredCaller,
    /// A withdrawal asked for more than nothing; nothing is ever available.
    ExcessiveWithdrawal,
    /// An unregistration would have destroyed tokens without consent.
    NonZeroBalanceWithoutForce,
}

} // verus!
