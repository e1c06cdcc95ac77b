//! Storage staking for a token ledger.
//!
//! Every account that holds a token balance occupies ledger storage, and
//! storage is paid for by the byte. An account therefore exists only while a
//! bond covers its record. The bond is flat: it is the same for every account,
//! it is never more than the minimum, and it goes back to its owner when the
//! account is removed.
//!
//! * [`balance`] computes the bond from the size of a record and the price of
//!   a byte.
//! * [`rules`] decides, from plain values, what a deposit, a withdrawal or an
//!   unregistration does.
//! * [`model`] is the ledger as a mathematical state machine.
//! * [`contract`] is the executable ledger, proved to follow the model.
//! * [`laws`] states what holds across operations.
//! * [`mint`] settles the storage bill of a freshly minted record.

pub mod balance;
pub mod contract;
pub mod error;
pub mod laws;
pub mod manager;
pub mod mint;
pub mod model;
pub mod rules;
