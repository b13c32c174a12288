//! Redemption: a holder of winning tokens collects their share of the escrow.

use crate::errors::SoldoraError;
use crate::ledger::LedgerCommand;
use crate::settlement::{settle, settle_outcome, Payout};
use crate::state::{Event, EventStatus, Treasury};
use anchor_lang::prelude::Pubkey;
use vstd::prelude::*;

verus! {

/// What a redemption is decided on.
#[derive(Clone, Debug, PartialEq, Eq)]
pub struct Redeem {
    /// The account that redeems.
    pub redeemer: Pubkey,
    /// The event redeemed against. It is read, never changed.
    pub event: Event,
    /// The fee record. A redemption with a fee adds to it.
    pub treasury: Treasury,
    /// The account that holds the collected fees.
    pub treasury_id: Pubkey,
    /// What the redeemer holds of the position token of the outcome they
    /// redeem for.
    pub balance: u64,
    /// What the event's escrow holds now.
    pub escrow_balance: u64,
}

/// A redemption that was granted.
#[derive(Clone, Debug, PartialEq, Eq)]
pub struct Redemption {
    /// The amounts: `payout.net` is what the redeemer is paid.
    pub payout: Payout,
    /// What the ledger must do for the redemption to take effect.
    pub commands: Vec<LedgerCommand>,
}

/// The decision of [`redeem`]: the payout that is granted, or why none is.
/// The checks are made in this order, and the first that fails decides the
/// error.
pub open spec fn redeem_payout(ctx: Redeem, choice: bool) -> Result<Payout, SoldoraError> {
    if ctx.event.status != EventStatus::Resolved {
        Err(SoldoraError::NotResolved)
    } else if ctx.event.result != Some(choice) {
        Err(SoldoraError::Lost)
    } else {
        match settle_outcome(ctx.balance, ctx.escrow_balance, ctx.event.supply(choice)) {
            Err(e) => Err(e),
            Ok(payout) => if payout.fee > 0 && ctx.treasury.total_fees + payout.fee > u64::MAX {
                Err(SoldoraError::Overflow)
            } else {
                Ok(payout)
            },
        }
    }
}

/// The commands of a granted redemption: the fee, if there is one, goes from
/// the escrow to the treasury; the net amount goes from the escrow to the
/// redeemer; and the redeemer's whole balance of the winning token is burnt.
pub open spec fn redeem_commands(ctx: Redeem, choice: bool, payout: Payout) -> Seq<LedgerCommand> {
    let fee_transfer = if payout.fee > 0 {
        seq![
            LedgerCommand::Transfer {
                source: ctx.event.escrow_id,
                destination: ctx.treasury_id,
                amount: payout.fee,
            },
        ]
    } else {
        seq![]
    };
    fee_transfer + seq![
        LedgerCommand::Transfer {
            source: ctx.event.escrow_id,
            destination: ctx.redeemer,
            amount: payout.net,
        },
        LedgerCommand::Burn {
            token: ctx.event.token_id(choice),
            source: ctx.redeemer,
            amount: ctx.balance,
        },
    ]
}

/// The fee record after a granted redemption.
pub open spec fn redeem_treasury(treasury: Treasury, payout: Payout) -> Treasury {
    Treasury { total_fees: (treasury.total_fees + payout.fee) as u64, ..treasury }
}

/// Redeems the redeemer's whole balance of the position token for `choice`
/// (`true` for Yes).
///
/// On success the fee, if any, is added to `ctx.treasury.total_fees`, and the
/// result holds the amounts and the commands for the ledger. On failure
/// nothing changes.
pub fn redeem(ctx: &mut Redeem, choice: bool) -> (r: Result<Redemption, SoldoraError>)
    ensures
        match redeem_payout(*old(ctx), choice) {
            Ok(payout) => {
                &&& r matches Ok(granted)
                &&& granted.payout == payout
                &&& granted.commands@ == redeem_commands(*old(ctx), choice, payout)
                &&& *final(ctx) == Redeem {
                    treasury: redeem_treasury(old(ctx).treasury, payout),
                    ..*old(ctx)
                }
            },
            Err(e) => r matches Err(refused) && refused == e && *final(ctx) == *old(ctx),
        },
        final(ctx).event == old(ctx).event,
        final(ctx).treasury.total_fees >= old(ctx).treasury.total_fees,
{
    match ctx.event.status {
        EventStatus::Active => {
            return Err(SoldoraError::NotResolved);
        },
        EventStatus::Resolved => {},
    }
    let won = match ctx.event.result {
        Some(result) => result == choice,
        None => false,
    };
    if !won {
        return Err(SoldoraError::Lost);
    }
    let winner_supply = if choice {
        ctx.event.yes_supply
    } else {
        ctx.event.no_supply
    };
    let payout = match settle(ctx.balance, ctx.escrow_balance, winner_supply) {
        Ok(payout) => payout,
        Err(e) => {
            return Err(e);
        },
    };
    let token = if choice {
        ctx.event.yes_token_id
    } else {
        ctx.event.no_token_id
    };
    let mut commands: Vec<LedgerCommand> = Vec::new();
    if payout.fee > 0 {
        match ctx.treasury.total_fees.checked_add(payout.fee) {
            Some(total_fees) => {
                ctx.treasury.total_fees = total_fees;
            },
            None => {
                return Err(SoldoraError::Overflow);
            },
        }
        commands.push(
            LedgerCommand::Transfer {
                source: ctx.event.escrow_id,
                destination: ctx.treasury_id,
                amount: payout.fee,
            },
        );
    }
    commands.push(
        LedgerCommand::Transfer {
            source: ctx.event.escrow_id,
            destination: ctx.redeemer,
            amount: payout.net,
        },
    );
    commands.push(
        LedgerCommand::Burn { token, source: ctx.redeemer, amount: ctx.balance },
    );
    Ok(Redemption { payout, commands })
}

} // verus!
