//! The storage bill of a freshly minted record.
//!
//! Whoever mints a record on behalf of an account pays for the bytes that the
//! record takes, and a fixed amount that funds the account. What is left of
//! the attached payment goes back.

use vstd::prelude::*;
use crate::balance::STORAGE_PRICE_PER_BYTE;

verus! {

/// What funds an account that is created for a minted record.
pub const BASE_STORAGE_COST: u128 = 10_000_000_000_000_000_000_000;

/// What minting a record of `storage_used` bytes costs: the bytes at the
/// price of a byte, and the funding of the account.
pub open spec fn mint_cost(storage_used: nat) -> nat {
    storage_used * (STORAGE_PRICE_PER_BYTE as nat) + (BASE_STORAGE_COST as nat)
}

/// What goes back of `attached_deposit` after a mint during which the storage
/// in use grew from `initial_storage` to `final_storage` bytes.
///
/// Returns `None` if the payment does not cover the cost, or if the storage
/// in use shrank, which no mint does.
pub fn mint_refund(attached_deposit: u128, initial_storage: u64, final_storage: u64) -> (refund:
    Option<u128>)
    ensures
        refund is Some <==> initial_storage <= final_storage && mint_cost(
            (final_storage - initial_storage) as nat,
        ) <= attached_deposit,
        refund matches Some(amount) ==> amount == attached_deposit - mint_cost(
            (final_storage - initial_storage) as nat,
        ),
{
    if final_storage < initial_storage {
        return None;
    }
    let storage_used: u64 = final_storage - initial_storage;
    let storage_cost: u128 = near_sdk::env::storage_byte_cost() * (storage_used as u128);
    let cost: u128 = storage_cost + BASE_STORAGE_COST;
    if attached_deposit < cost {
        None
    } else {
        Some(attached_deposit - cost)
    }
}

} // verus!
