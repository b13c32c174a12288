//! The records the engine keeps: one [`Event`] per market, one [`Treasury`]
//! per deployment.

use anchor_lang::prelude::Pubkey;
use vstd::prelude::*;
use vstd::utf8::encode_utf8;

verus! {

/// Where an event stands in its lifecycle. The only transition is from
/// `Active` to `Resolved`.
#[derive(Clone, Copy, Debug, PartialEq, Eq, Structural)]
pub enum EventStatus {
    Active,
    Resolved,
}

/// A market on one yes/no question.
#[derive(Clone, Debug, PartialEq, Eq)]
pub struct Event {
    /// The account that created the event; the only one allowed to resolve it.
    pub creator: Pubkey,
    /// Tells apart the events of one creator.
    pub unique_id: u64,
    /// What the event is about.
    pub description: String,
    /// Stakes are accepted strictly before this time, resolution at or after
    /// it.
    pub deadline: i64,
    pub status: EventStatus,
    /// `None` while active; once resolved, `Some(true)` if Yes won.
    pub result: Option<bool>,
    /// The position token minted for stakes on Yes.
    pub yes_token_id: Pubkey,
    /// The position token minted for stakes on No.
    pub no_token_id: Pubkey,
    /// The account that holds this event's staked value.
    pub escrow_id: Pubkey,
    /// Units staked on Yes so far, which is also the Yes tokens minted.
    pub yes_supply: u64,
    /// Units staked on No so far, which is also the No tokens minted.
    pub no_supply: u64,
}

/// The protocol-wide record of collected fees.
#[derive(Clone, Copy, Debug, PartialEq, Eq)]
pub struct Treasury {
    /// The protocol identity that fees are collected for.
    pub authority: Pubkey,
    /// All fees ever collected, over all events.
    pub total_fees: u64,
    /// The bump seed of the address the record is stored under.
    pub bump: u8,
}

/// The number of bytes a description takes when encoded as UTF-8.
pub open spec fn description_len(description: Seq<char>) -> nat {
    encode_utf8(description).len()
}

impl Event {
    /// The record's invariant: a result is present exactly when the event is
    /// resolved, and the description is within its limit.
    pub open spec fn well_formed(self) -> bool {
        &&& self.result is Some <==> self.status == EventStatus::Resolved
        &&& description_len(self.description@) <= crate::MAX_DESCRIPTION_LEN
    }

    /// The supply recorded for one outcome.
    pub open spec fn supply(self, outcome: bool) -> u64 {
        if outcome {
            self.yes_supply
        } else {
            self.no_supply
        }
    }

    /// The position token of one outcome.
    pub open spec fn token_id(self, outcome: bool) -> Pubkey {
        if outcome {
            self.yes_token_id
        } else {
            self.no_token_id
        }
    }
}

} // verus!
