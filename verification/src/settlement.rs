//! The settlement calculator: what one redemption is worth.
//!
//! A redeemer who holds `balance` of the `winner_supply` winning tokens is
//! owed that fraction of the escrow as it stands when they redeem, rounded
//! down. A fixed share of that gross amount is kept as the protocol fee.

use crate::errors::SoldoraError;
use crate::{FEE_DENOMINATOR, FEE_RATE};
use vstd::prelude::*;

verus! {

/// The amounts of one redemption. `gross` leaves the escrow: `fee` goes to
/// the treasury and `net` to the redeemer.
#[derive(Clone, Copy, Debug, PartialEq, Eq, Structural)]
pub struct Payout {
    pub gross: u64,
    pub fee: u64,
    pub net: u64,
}

/// The redeemer's share of the escrow before the fee:
/// `floor(balance * escrow_balance / winner_supply)`.
pub open spec fn gross_share(balance: nat, escrow_balance: nat, winner_supply: nat) -> nat
    recommends
        winner_supply > 0,
{
    (balance * escrow_balance) / winner_supply
}

/// The protocol fee on a gross payout: `floor(gross * FEE_RATE / FEE_DENOMINATOR)`.
pub open spec fn fee_on(gross: nat) -> nat {
    (gross * (FEE_RATE as nat)) / (FEE_DENOMINATOR as nat)
}

/// What [`settle`] returns. The checks are made in this order, and the first
/// that fails decides the error.
pub open spec fn settle_outcome(balance: u64, escrow_balance: u64, winner_supply: u64) -> Result<
    Payout,
    SoldoraError,
> {
    let gross = gross_share(balance as nat, escrow_balance as nat, winner_supply as nat);
    if balance == 0 {
        Err(SoldoraError::NothingToRedeem)
    } else if winner_supply == 0 {
        Err(SoldoraError::NoWinnerSupply)
    } else if gross == 0 {
        Err(SoldoraError::PayoutTooSmall)
    } else if gross > u64::MAX {
        Err(SoldoraError::Overflow)
    } else {
        Ok(
            Payout {
                gross: gross as u64,
                fee: fee_on(gross) as u64,
                net: (gross - fee_on(gross)) as u64,
            },
        )
    }
}

/// The fee never exceeds the gross amount, and leaves a positive net amount
/// whenever the gross amount is positive.
pub proof fn law_fee_within_gross(gross: nat)
    ensures
        fee_on(gross) <= gross,
        gross > 0 ==> fee_on(gross) < gross,
{
}

/// A holder of no more than the whole winning supply is owed no more than
/// the escrow holds.
pub proof fn law_gross_within_escrow(balance: nat, escrow_balance: nat, winner_supply: nat)
    requires
        winner_supply > 0,
        balance <= winner_supply,
    ensures
        gross_share(balance, escrow_balance, winner_supply) <= escrow_balance,
{
    assert((balance * escrow_balance) / winner_supply <= escrow_balance) by (nonlinear_arith)
        requires
            winner_supply > 0,
            balance <= winner_supply,
    ;
}

/// Computes the payout for a holder of `balance` winning tokens, out of
/// `winner_supply` minted, against an escrow that holds `escrow_balance`.
///
/// The product is formed in 128 bits, so no step overflows. The gross amount
/// can pass 64 bits only when `balance` is larger than `winner_supply`; that
/// is reported as `Overflow`.
pub fn settle(balance: u64, escrow_balance: u64, winner_supply: u64) -> (r: Result<
    Payout,
    SoldoraError,
>)
    ensures
        r == settle_outcome(balance, escrow_balance, winner_supply),
        r matches Ok(p) ==> p.net + p.fee == p.gross && p.net > 0,
{
    if balance == 0 {
        return Err(SoldoraError::NothingToRedeem);
    }
    if winner_supply == 0 {
        return Err(SoldoraError::NoWinnerSupply);
    }
    assert(balance * escrow_balance <= 0xffff_ffff_ffff_ffff * 0xffff_ffff_ffff_ffff)
        by (nonlinear_arith)
        requires
            balance <= 0xffff_ffff_ffff_ffff,
            escrow_balance <= 0xffff_ffff_ffff_ffff,
    ;
    let product: u128 = (balance as u128) * (escrow_balance as u128);
    let wide_gross: u128 = product / (winner_supply as u128);
    if wide_gross == 0 {
        return Err(SoldoraError::PayoutTooSmall);
    }
    if wide_gross > u64::MAX as u128 {
        return Err(SoldoraError::Overflow);
    }
    let gross: u64 = wide_gross as u64;
    let wide_fee: u128 = (gross as u128) * (FEE_RATE as u128) / (FEE_DENOMINATOR as u128);
    let fee: u64 = wide_fee as u64;
    let net: u64 = gross - fee;
    Ok(Payout { gross, fee, net })
}

} // verus!
