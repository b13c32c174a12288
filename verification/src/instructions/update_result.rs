//! Resolution: the creator declares the outcome, and staking ends for good.

use crate::errors::SoldoraError;
use crate::keys::same_key;
use crate::ledger::LedgerCommand;
use crate::state::{Event, EventStatus};
use anchor_lang::prelude::Pubkey;
use vstd::prelude::*;

verus! {

/// What a resolution is decided on.
#[derive(Clone, Debug, PartialEq, Eq)]
pub struct UpdateResult {
    /// The account that asks for the resolution.
    pub caller: Pubkey,
    /// The event to resolve.
    pub event: Event,
    /// The current time.
    pub now: i64,
}

/// Why [`update_result`] refuses, or `None` if it does not. The checks are
/// made in this order, and the first that fails decides the error.
pub open spec fn update_result_error(ctx: UpdateResult) -> Option<SoldoraError> {
    if ctx.caller != ctx.event.creator {
        Some(SoldoraError::Unauthorized)
    } else if ctx.event.status != EventStatus::Active {
        Some(SoldoraError::NotActive)
    } else if ctx.now < ctx.event.deadline {
        Some(SoldoraError::TooEarly)
    } else {
        None
    }
}

/// An event once it is resolved with `result`.
pub open spec fn resolved(event: Event, result: bool) -> Event {
    Event { status: EventStatus::Resolved, result: Some(result), ..event }
}

/// The commands of a resolution: the right to mint is given up for both
/// position tokens, Yes first.
pub open spec fn update_result_commands(event: Event) -> Seq<LedgerCommand> {
    seq![
        LedgerCommand::RevokeMintAuthority { token: event.yes_token_id },
        LedgerCommand::RevokeMintAuthority { token: event.no_token_id },
    ]
}

/// Resolves the event with `result` (`true` if Yes won).
///
/// On success the event is `Resolved` with that result, its supplies as they
/// were, and the commands for the ledger are returned. On failure nothing
/// changes.
pub fn update_result(ctx: &mut UpdateResult, result: bool) -> (r: Result<
    Vec<LedgerCommand>,
    SoldoraError,
>)
    ensures
        match update_result_error(*old(ctx)) {
            None => {
                &&& r matches Ok(commands)
                &&& commands@ == update_result_commands(old(ctx).event)
                &&& *final(ctx) == UpdateResult {
                    event: resolved(old(ctx).event, result),
                    ..*old(ctx)
                }
            },
            Some(e) => r matches Err(refused) && refused == e && *final(ctx) == *old(ctx),
        },
        final(ctx).event.yes_supply == old(ctx).event.yes_supply,
        final(ctx).event.no_supply == old(ctx).event.no_supply,
        old(ctx).event.well_formed() ==> final(ctx).event.well_formed(),
{
    if !same_key(&ctx.caller, &ctx.event.creator) {
        return Err(SoldoraError::Unauthorized);
    }
    match ctx.event.status {
        EventStatus::Active => {},
        EventStatus::Resolved => {
            return Err(SoldoraError::NotActive);
        },
    }
    if ctx.now < ctx.event.deadline {
        return Err(SoldoraError::TooEarly);
    }
    ctx.event.result = Some(result);
    ctx.event.status = EventStatus::Resolved;
    let mut commands: Vec<LedgerCommand> = Vec::new();
    commands.push(LedgerCommand::RevokeMintAuthority { token: ctx.event.yes_token_id });
    commands.push(LedgerCommand::RevokeMintAuthority { token: ctx.event.no_token_id });
    Ok(commands)
}

} // verus!
