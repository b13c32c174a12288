//! Creation: a new event, active and with nothing staked.

use crate::errors::SoldoraError;
use crate::state::{description_len, Event, EventStatus};
use crate::MAX_DESCRIPTION_LEN;
use anchor_lang::prelude::Pubkey;
use vstd::prelude::*;

verus! {

/// What a creation is decided on.
#[derive(Clone, Copy, Debug, PartialEq, Eq)]
pub struct CreateEvent {
    /// The account that creates the event, and alone may resolve it.
    pub creator: Pubkey,
    /// The position token provided for stakes on Yes.
    pub yes_token_id: Pubkey,
    /// The position token provided for stakes on No.
    pub no_token_id: Pubkey,
    /// The account provided to hold the event's staked value.
    pub escrow_id: Pubkey,
    /// The current time.
    pub now: i64,
}

/// The event that [`create_event`] makes of valid input.
pub open spec fn created(ctx: CreateEvent, unique_id: u64, description: String, deadline: i64)
    -> Event {
    Event {
        creator: ctx.creator,
        unique_id,
        description,
        deadline,
        status: EventStatus::Active,
        result: None,
        yes_token_id: ctx.yes_token_id,
        no_token_id: ctx.no_token_id,
        escrow_id: ctx.escrow_id,
        yes_supply: 0,
        no_supply: 0,
    }
}

/// Creates an event.
///
/// Fails with `InvalidInput` if the description is longer than 256 bytes or
/// the deadline is not after `ctx.now`. Otherwise the event is active, has no
/// result and nothing staked, and carries the identities in `ctx`.
pub fn create_event(ctx: &CreateEvent, unique_id: u64, description: String, deadline: i64) -> (r:
    Result<Event, SoldoraError>)
    ensures
        match r {
            Ok(event) => {
                &&& description_len(description@) <= MAX_DESCRIPTION_LEN
                &&& deadline > ctx.now
                &&& event == created(*ctx, unique_id, description, deadline)
                &&& event.well_formed()
            },
            Err(e) => {
                &&& e == SoldoraError::InvalidInput
                &&& description_len(description@) > MAX_DESCRIPTION_LEN || deadline <= ctx.now
            },
        },
{
    if description.as_str().as_bytes().len() > MAX_DESCRIPTION_LEN {
        return Err(SoldoraError::InvalidInput);
    }
    if deadline <= ctx.now {
        return Err(SoldoraError::InvalidInput);
    }
    Ok(
        Event {
            creator: ctx.creator,
            unique_id,
            description,
            deadline,
            status: EventStatus::Active,
            result: None,
            yes_token_id: ctx.yes_token_id,
            no_token_id: ctx.no_token_id,
            escrow_id: ctx.escrow_id,
            yes_supply: 0,
            no_supply: 0,
        },
    )
}

} // verus!
