//! Settlement and escrow accounting for binary-outcome prediction markets.
//!
//! Participants stake value on one of two outcomes of an event. Once the
//! event's creator has resolved it, holders of the winning outcome's position
//! tokens redeem a proportional share of the escrowed stake, less a protocol
//! fee.
//!
//! The engine decides; it does not move value. Each operation checks its
//! preconditions against the records it is handed, updates those records, and
//! returns the [`ledger::LedgerCommand`]s that the host must then apply to the
//! value ledger as one atomic unit. If the ledger refuses any of them, the host
//! discards the updated records and reports
//! [`errors::SoldoraError::LedgerError`].

use vstd::prelude::*;

pub mod errors;
pub mod instructions;
pub mod keys;
pub mod laws;
pub mod ledger;
pub mod market;
pub mod settlement;
pub mod state;

verus! {

/// Numerator of the protocol fee: 200 parts in [`FEE_DENOMINATOR`], or 2%.
pub const FEE_RATE: u64 = 200;

/// Denominator of the protocol fee.
pub const FEE_DENOMINATOR: u64 = 10000;

/// The smallest stake that is accepted.
pub const MIN_STAKE: u64 = 1_000_000;

/// The longest event description that is accepted, in bytes of UTF-8.
pub const MAX_DESCRIPTION_LEN: usize = 256;

} // verus!
