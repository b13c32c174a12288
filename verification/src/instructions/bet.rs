//! Staking: value goes into the escrow, position tokens come out, one for
//! one.

use crate::errors::SoldoraError;
use crate::ledger::LedgerCommand;
use crate::state::{Event, EventStatus};
use crate::MIN_STAKE;
use anchor_lang::prelude::Pubkey;
use vstd::prelude::*;

verus! {

/// What a stake is decided on.
#[derive(Clone, Debug, PartialEq, Eq)]
pub struct Bet {
    /// The account that stakes: the value comes from it, and the position
    /// tokens go to it.
    pub staker: Pubkey,
    /// The event staked on.
    pub event: Event,
    /// The current time.
    pub now: i64,
}

/// Why [`bet`] refuses, or `None` if it does not. The checks are made in this
/// order, and the first that fails decides the error.
pub open spec fn bet_error(ctx: Bet, amount: u64, choice: bool) -> Option<SoldoraError> {
    if ctx.event.status != EventStatus::Active {
        Some(SoldoraError::NotActive)
    } else if ctx.now >= ctx.event.deadline {
        Some(SoldoraError::Expired)
    } else if amount < MIN_STAKE {
        Some(SoldoraError::AmountTooLow)
    } else if ctx.event.supply(choice) + amount > u64::MAX {
        Some(SoldoraError::Overflow)
    } else {
        None
    }
}

/// An event once `amount` more is staked on `choice`.
pub open spec fn staked(event: Event, amount: u64, choice: bool) -> Event {
    if choice {
        Event { yes_supply: (event.yes_supply + amount) as u64, ..event }
    } else {
        Event { no_supply: (event.no_supply + amount) as u64, ..event }
    }
}

/// The commands of a stake: the staked value goes from the staker to the
/// escrow, then as many units of the chosen outcome's token are minted to the
/// staker.
pub open spec fn bet_commands(ctx: Bet, amount: u64, choice: bool) -> Seq<LedgerCommand> {
    seq![
        LedgerCommand::Transfer {
            source: ctx.staker,
            destination: ctx.event.escrow_id,
            amount,
        },
        LedgerCommand::Mint {
            token: ctx.event.token_id(choice),
            destination: ctx.staker,
            amount,
        },
    ]
}

/// Stakes `amount` on `choice` (`true` for Yes).
///
/// On success the supply of the chosen outcome has grown by `amount`, and the
/// commands for the ledger are returned. On failure nothing changes.
pub fn bet(ctx: &mut Bet, amount: u64, choice: bool) -> (r: Result<
    Vec<LedgerCommand>,
    SoldoraError,
>)
    ensures
        match bet_error(*old(ctx), amount, choice) {
            None => {
                &&& r matches Ok(commands)
                &&& commands@ == bet_commands(*old(ctx), amount, choice)
                &&& *final(ctx) == Bet {
                    event: staked(old(ctx).event, amount, choice),
                    ..*old(ctx)
                }
            },
            Some(e) => r matches Err(refused) && refused == e && *final(ctx) == *old(ctx),
        },
        final(ctx).event.yes_supply >= old(ctx).event.yes_supply,
        final(ctx).event.no_supply >= old(ctx).event.no_supply,
        old(ctx).event.well_formed() ==> final(ctx).event.well_formed(),
{
    match ctx.event.status {
        EventStatus::Active => {},
        EventStatus::Resolved => {
            return Err(SoldoraError::NotActive);
        },
    }
    if ctx.now >= ctx.event.deadline {
        return Err(SoldoraError::Expired);
    }
    if amount < MIN_STAKE {
        return Err(SoldoraError::AmountTooLow);
    }
    let token = if choice {
        match ctx.event.yes_supply.checked_add(amount) {
            Some(supply) => {
                ctx.event.yes_supply = supply;
            },
            None => {
                return Err(SoldoraError::Overflow);
            },
        }
        ctx.event.yes_token_id
    } else {
        match ctx.event.no_supply.checked_add(amount) {
            Some(supply) => {
                ctx.event.no_supply = supply;
            },
            None => {
                return Err(SoldoraError::Overflow);
            },
        }
        ctx.event.no_token_id
    };
    let mut commands: Vec<LedgerCommand> = Vec::new();
    commands.push(
        LedgerCommand::Transfer {
            source: ctx.staker,
            destination: ctx.event.escrow_id,
            amount,
        },
    );
    commands.push(LedgerCommand::Mint { token, destination: ctx.staker, amount });
    Ok(commands)
}

} // verus!
