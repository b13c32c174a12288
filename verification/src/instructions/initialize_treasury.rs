//! The treasury's one operation: its creation.

use crate::state::Treasury;
use anchor_lang::prelude::Pubkey;
use vstd::prelude::*;

verus! {

/// What the treasury is initialised from.
#[derive(Clone, Copy, Debug, PartialEq, Eq)]
pub struct InitializeTreasury {
    /// The protocol identity that fees are collected for.
    pub authority: Pubkey,
    /// The bump seed of the address the record is stored under.
    pub bump: u8,
}

/// Makes the treasury record: no fees collected yet.
pub fn initialize_treasury(ctx: &InitializeTreasury) -> (treasury: Treasury)
    ensures
        treasury == (Treasury { authority: ctx.authority, total_fees: 0, bump: ctx.bump }),
{
    Treasury { authority: ctx.authority, total_fees: 0, bump: ctx.bump }
}

} // verus!
