//! The bond that one account record requires.

use vstd::prelude::*;

verus! {

/// What one byte of ledger storage costs, in the smallest unit of payment.
pub const STORAGE_PRICE_PER_BYTE: u128 = 10_000_000_000_000_000_000;

/// `near_sdk::env::storage_byte_cost` takes nothing and hands back the SDK's
/// fixed price of one byte of storage. Verus takes on trust that the price is
/// the figure kept in [`STORAGE_PRICE_PER_BYTE`].
pub assume_specification[ near_sdk::env::storage_byte_cost ]() -> (price: u128)
    ensures
        price == STORAGE_PRICE_PER_BYTE,
;

/// What an account has staked for storage, and how much of it could be taken
/// out again.
#[derive(Clone, Copy, Debug, PartialEq, Eq, Structural)]
pub struct StorageBalance {
    pub total: u128,
    pub available: u128,
}

/// The least and the most that an account can stake for storage.
#[derive(Clone, Copy, Debug, PartialEq, Eq, Structural)]
pub struct StorageBalanceBounds {
    pub min: u128,
    pub max: Option<u128>,
}

/// The bond for a record of `account_storage_usage` bytes: its size times the
/// price of a byte.
pub open spec fn required_balance(account_storage_usage: u64) -> nat {
    (account_storage_usage as nat) * (STORAGE_PRICE_PER_BYTE as nat)
}

/// The bounds for a record of `account_storage_usage` bytes. The bond is
/// flat, so the least and the most are the same amount.
pub open spec fn bounds_of(account_storage_usage: u64) -> StorageBalanceBounds {
    StorageBalanceBounds {
        min: required_balance(account_storage_usage) as u128,
        max: Some(required_balance(account_storage_usage) as u128),
    }
}

/// The storage balance of every registered account: the bond in full, none of
/// it available.
pub open spec fn pinned_balance(account_storage_usage: u64) -> StorageBalance {
    StorageBalance { total: required_balance(account_storage_usage) as u128, available: 0 }
}

/// Computes the bounds for a record of `account_storage_usage` bytes at the
/// price of a byte as it is now. The price is asked for on every call.
pub fn storage_bounds(account_storage_usage: u64) -> (bounds: StorageBalanceBounds)
    ensures
        bounds == bounds_of(account_storage_usage),
        bounds.min == required_balance(account_storage_usage),
        bounds.max == Some(bounds.min),
{
    let price: u128 = near_sdk::env::storage_byte_cost();
    let required: u128 = (account_storage_usage as u128) * price;
    StorageBalanceBounds { min: required, max: Some(required) }
}

} // verus!
