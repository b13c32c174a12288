//! A whole market, in specifications only: the engine's records together
//! with a model of the ledger they are settled on.
//!
//! One [`Operation`] is one atomic transaction: the engine decides on what
//! the records and the ledger hold, and the ledger applies the commands. If
//! either refuses, nothing changes.

use crate::instructions::bet::{bet_commands, bet_error, staked, Bet};
use crate::instructions::redeem::{redeem_commands, redeem_payout, redeem_treasury, Redeem};
use crate::instructions::update_result::{
    resolved,
    update_result_commands,
    update_result_error,
    UpdateResult,
};
use crate::ledger::Ledger;
use crate::settlement::Payout;
use crate::state::{Event, Treasury};
use anchor_lang::prelude::Pubkey;
use vstd::prelude::*;

verus! {

/// The records of one event, the treasury, and the ledger.
pub struct Market {
    pub event: Event,
    pub treasury: Treasury,
    /// The account that holds the collected fees.
    pub treasury_id: Pubkey,
    pub ledger: Ledger,
}

/// A transaction against a market.
pub enum Operation {
    /// `staker` stakes `amount` on `choice` at time `now`.
    Bet { staker: Pubkey, amount: u64, choice: bool, now: i64 },
    /// `caller` resolves the event with `result` at time `now`.
    UpdateResult { caller: Pubkey, result: bool, now: i64 },
    /// `redeemer` redeems what they hold of the token for `choice`.
    Redeem { redeemer: Pubkey, choice: bool },
}

impl Operation {
    /// The account on whose behalf the operation is made.
    pub open spec fn actor(self) -> Pubkey {
        match self {
            Operation::Bet { staker, .. } => staker,
            Operation::UpdateResult { caller, .. } => caller,
            Operation::Redeem { redeemer, .. } => redeemer,
        }
    }
}

impl Market {
    /// What a stake by `staker` at `now` is decided on.
    pub open spec fn bet_context(self, staker: Pubkey, now: i64) -> Bet {
        Bet { staker, event: self.event, now }
    }

    /// What a resolution by `caller` at `now` is decided on.
    pub open spec fn update_result_context(self, caller: Pubkey, now: i64) -> UpdateResult {
        UpdateResult { caller, event: self.event, now }
    }

    /// What a redemption by `redeemer` for `choice` is decided on: the
    /// balances are read from the ledger as it stands.
    pub open spec fn redeem_context(self, redeemer: Pubkey, choice: bool) -> Redeem {
        Redeem {
            redeemer,
            event: self.event,
            treasury: self.treasury,
            treasury_id: self.treasury_id,
            balance: self.ledger.holding_of(self.event.token_id(choice), redeemer),
            escrow_balance: self.ledger.balance_of(self.event.escrow_id),
        }
    }

    /// The payout of a redemption that goes through: the engine grants it and
    /// the ledger applies its commands. `None` if either refuses.
    pub open spec fn redeemed(self, redeemer: Pubkey, choice: bool) -> Option<Payout> {
        let ctx = self.redeem_context(redeemer, choice);
        match redeem_payout(ctx, choice) {
            Ok(payout) => if self.ledger.run(redeem_commands(ctx, choice, payout)) is Some {
                Some(payout)
            } else {
                None
            },
            Err(_) => None,
        }
    }

    /// Whether the operation goes through: the engine grants it and the
    /// ledger applies its commands.
    pub open spec fn accepts(self, op: Operation) -> bool {
        match op {
            Operation::Bet { staker, amount, choice, now } => {
                let ctx = self.bet_context(staker, now);
                bet_error(ctx, amount, choice) is None && self.ledger.run(
                    bet_commands(ctx, amount, choice),
                ) is Some
            },
            Operation::UpdateResult { caller, result, now } => {
                update_result_error(self.update_result_context(caller, now)) is None
                    && self.ledger.run(update_result_commands(self.event)) is Some
            },
            Operation::Redeem { redeemer, choice } => self.redeemed(redeemer, choice) is Some,
        }
    }

    /// The market after the operation: as the engine and the ledger leave it
    /// if the operation goes through, unchanged if not.
    pub open spec fn step(self, op: Operation) -> Market {
        if !self.accepts(op) {
            self
        } else {
            match op {
                Operation::Bet { staker, amount, choice, now } => Market {
                    event: staked(self.event, amount, choice),
                    ledger: self.ledger.run(
                        bet_commands(self.bet_context(staker, now), amount, choice),
                    )->Some_0,
                    ..self
                },
                Operation::UpdateResult { caller, result, now } => Market {
                    event: resolved(self.event, result),
                    ledger: self.ledger.run(update_result_commands(self.event))->Some_0,
                    ..self
                },
                Operation::Redeem { redeemer, choice } => {
                    let payout = self.redeemed(redeemer, choice)->Some_0;
                    Market {
                        treasury: redeem_treasury(self.treasury, payout),
                        ledger: self.ledger.run(
                            redeem_commands(self.redeem_context(redeemer, choice), choice, payout),
                        )->Some_0,
                        ..self
                    }
                },
            }
        }
    }

    /// The market after all of `ops`, in order.
    pub open spec fn run(self, ops: Seq<Operation>) -> Market
        decreases ops.len(),
    {
        if ops.len() == 0 {
            self
        } else {
            self.step(ops[0]).run(ops.drop_first())
        }
    }

    /// What the operation stakes on `outcome`: its amount if it is a stake on
    /// that outcome that goes through, nothing otherwise.
    pub open spec fn step_staked(self, op: Operation, outcome: bool) -> nat {
        match op {
            Operation::Bet { amount, choice, .. } => if self.accepts(op) && choice == outcome {
                amount as nat
            } else {
                0
            },
            _ => 0,
        }
    }

    /// What the operation pays out of the escrow: net amount and fee, if it
    /// is a redemption that goes through, nothing otherwise.
    pub open spec fn step_paid(self, op: Operation) -> nat {
        match op {
            Operation::Redeem { redeemer, choice } => match self.redeemed(redeemer, choice) {
                Some(payout) => (payout.net + payout.fee) as nat,
                None => 0,
            },
            _ => 0,
        }
    }

    /// The sum of all that `ops` stake on `outcome`.
    pub open spec fn staked_on(self, ops: Seq<Operation>, outcome: bool) -> nat
        decreases ops.len(),
    {
        if ops.len() == 0 {
            0
        } else {
            self.step_staked(ops[0], outcome) + self.step(ops[0]).staked_on(
                ops.drop_first(),
                outcome,
            )
        }
    }

    /// The sum of all net payouts and fees that `ops` draw from the escrow.
    pub open spec fn paid(self, ops: Seq<Operation>) -> nat
        decreases ops.len(),
    {
        if ops.len() == 0 {
            0
        } else {
            self.step_paid(ops[0]) + self.step(ops[0]).paid(ops.drop_first())
        }
    }
}

} // verus!
