//! Why an operation was refused.

use vstd::prelude::*;

verus! {

/// The reason an operation failed. A failed operation changes nothing.
#[derive(Clone, Copy, Debug, PartialEq, Eq, Structural)]
pub enum SoldoraError {
    /// The description is longer than 256 bytes, or the deadline is not in
    /// the future.
    InvalidInput,
    /// The event is no longer active.
    NotActive,
    /// The deadline has been reached; stakes are closed.
    Expired,
    /// The stake is below the minimum.
    AmountTooLow,
    /// The caller is not the event's creator.
    Unauthorized,
    /// The deadline has not been reached; the event cannot be resolved yet.
    TooEarly,
    /// The event has not been resolved yet.
    NotResolved,
    /// The redeemer chose the outcome that lost.
    Lost,
    /// The redeemer holds no position tokens.
    NothingToRedeem,
    /// Nobody staked on the outcome that won.
    NoWinnerSupply,
    /// The redeemer's share rounds down to nothing.
    PayoutTooSmall,
    /// A counter would pass the largest value it can hold.
    Overflow,
    /// The value ledger refused a command. The engine never returns this
    /// itself: the host reports it when applying an operation's commands
    /// fails.
    LedgerError,
}

} // verus!
