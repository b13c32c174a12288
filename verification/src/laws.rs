//! What holds of every market, proved from the contracts of the operations
//! and the model of the ledger.

use crate::errors::SoldoraError;
use crate::instructions::bet::{bet_commands, bet_error, staked, Bet};
use crate::instructions::redeem::{redeem_commands, redeem_payout, Redeem};
use crate::instructions::update_result::{
    update_result_commands,
    update_result_error,
    UpdateResult,
};
use crate::ledger::{Ledger, LedgerCommand};
use crate::market::{Market, Operation};
use crate::settlement::Payout;
use crate::state::EventStatus;
use crate::MIN_STAKE;
use anchor_lang::prelude::Pubkey;
use vstd::prelude::*;

verus! {

proof fn lemma_run_two(ledger: Ledger, first: LedgerCommand, second: LedgerCommand)
    ensures
        ledger.run(seq![first, second]) == match ledger.apply(first) {
            Some(next) => next.apply(second),
            None => None,
        },
{
    reveal_with_fuel(Ledger::run, 3);
    let commands = seq![first, second];
    assert(commands.drop_first() =~= seq![second]);
    assert(commands.drop_first().drop_first() =~= Seq::<LedgerCommand>::empty());
}

proof fn lemma_run_three(
    ledger: Ledger,
    first: LedgerCommand,
    second: LedgerCommand,
    third: LedgerCommand,
)
    ensures
        ledger.run(seq![first, second, third]) == match ledger.apply(first) {
            Some(next) => next.run(seq![second, third]),
            None => None,
        },
{
    assert(seq![first, second, third].drop_first() =~= seq![second, third]);
}

/// A stake that goes through moves exactly the staked amount into the
/// escrow.
proof fn lemma_bet_fills_escrow(market: Market, staker: Pubkey, amount: u64, choice: bool, now: i64)
    requires
        market.accepts(Operation::Bet { staker, amount, choice, now }),
        staker != market.event.escrow_id,
    ensures
        market.step(Operation::Bet { staker, amount, choice, now }).ledger.balance_of(
            market.event.escrow_id,
        ) == market.ledger.balance_of(market.event.escrow_id) + amount,
{
    let commands = bet_commands(market.bet_context(staker, now), amount, choice);
    assert(commands =~= seq![commands[0], commands[1]]);
    lemma_run_two(market.ledger, commands[0], commands[1]);
}

/// A redemption that goes through draws exactly its net amount and its fee
/// from the escrow.
proof fn lemma_redeem_draws_from_escrow(market: Market, redeemer: Pubkey, choice: bool)
    requires
        market.accepts(Operation::Redeem { redeemer, choice }),
        redeemer != market.event.escrow_id,
        market.treasury_id != market.event.escrow_id,
    ensures
        market.step(Operation::Redeem { redeemer, choice }).ledger.balance_of(
            market.event.escrow_id,
        ) + market.step_paid(Operation::Redeem { redeemer, choice }) == market.ledger.balance_of(
            market.event.escrow_id,
        ),
{
    let ctx = market.redeem_context(redeemer, choice);
    let payout = market.redeemed(redeemer, choice)->Some_0;
    let commands = redeem_commands(ctx, choice, payout);
    if payout.fee > 0 {
        assert(commands =~= seq![commands[0], commands[1], commands[2]]);
        lemma_run_three(market.ledger, commands[0], commands[1], commands[2]);
        let after_fee = market.ledger.apply(commands[0])->Some_0;
        lemma_run_two(after_fee, commands[1], commands[2]);
    } else {
        assert(commands =~= seq![commands[0], commands[1]]);
        lemma_run_two(market.ledger, commands[0], commands[1]);
    }
}

/// A resolution leaves every balance as it was.
proof fn lemma_update_result_keeps_balances(
    market: Market,
    caller: Pubkey,
    result: bool,
    now: i64,
)
    requires
        market.accepts(Operation::UpdateResult { caller, result, now }),
    ensures
        market.step(Operation::UpdateResult { caller, result, now }).ledger.balances
            == market.ledger.balances,
{
    let commands = update_result_commands(market.event);
    assert(commands =~= seq![commands[0], commands[1]]);
    lemma_run_two(market.ledger, commands[0], commands[1]);
}

/// No operation changes who the parties of a market are.
pub proof fn law_identities_are_fixed(market: Market, ops: Seq<Operation>)
    ensures
        market.run(ops).treasury_id == market.treasury_id,
        market.run(ops).treasury.authority == market.treasury.authority,
        market.run(ops).event.creator == market.event.creator,
        market.run(ops).event.escrow_id == market.event.escrow_id,
        market.run(ops).event.yes_token_id == market.event.yes_token_id,
        market.run(ops).event.no_token_id == market.event.no_token_id,
    decreases ops.len(),
{
    if ops.len() > 0 {
        law_identities_are_fixed(market.step(ops[0]), ops.drop_first());
    }
}

/// Conservation of value. Whatever operations are made against a market,
/// what the escrow holds afterwards together with all net payouts and fees
/// drawn from it is exactly what it held before together with all that was
/// staked: no operation creates or destroys value. In particular the payouts
/// and fees never exceed the stakes and what the escrow held to begin with.
///
/// The escrow is a custody account: it is assumed that it is not the
/// treasury's account and that it never stakes or redeems itself.
pub proof fn law_conservation(market: Market, ops: Seq<Operation>)
    requires
        market.treasury_id != market.event.escrow_id,
        forall|i: int| 0 <= i < ops.len() ==> (#[trigger] ops[i]).actor() != market.event.escrow_id,
    ensures
        market.run(ops).ledger.balance_of(market.event.escrow_id) + market.paid(ops)
            == market.ledger.balance_of(market.event.escrow_id) + market.staked_on(ops, true)
            + market.staked_on(ops, false),
        market.paid(ops) <= market.ledger.balance_of(market.event.escrow_id) + market.staked_on(
            ops,
            true,
        ) + market.staked_on(ops, false),
        market.ledger.balance_of(market.event.escrow_id) == 0 ==> market.paid(ops)
            <= market.staked_on(ops, true) + market.staked_on(ops, false),
    decreases ops.len(),
{
    if ops.len() > 0 {
        let op = ops[0];
        let next = market.step(op);
        let rest = ops.drop_first();
        let escrow = market.event.escrow_id;
        assert(op.actor() != escrow);
        assert(next.ledger.balance_of(escrow) + market.step_paid(op) == market.ledger.balance_of(
            escrow,
        ) + market.step_staked(op, true) + market.step_staked(op, false)) by {
            if market.accepts(op) {
                match op {
                    Operation::Bet { staker, amount, choice, now } => lemma_bet_fills_escrow(
                        market,
                        staker,
                        amount,
                        choice,
                        now,
                    ),
                    Operation::UpdateResult {
                        caller,
                        result,
                        now,
                    } => lemma_update_result_keeps_balances(market, caller, result, now),
                    Operation::Redeem { redeemer, choice } => lemma_redeem_draws_from_escrow(
                        market,
                        redeemer,
                        choice,
                    ),
                }
            }
        }
        assert(next.event.escrow_id == escrow && next.treasury_id == market.treasury_id);
        assert forall|i: int| 0 <= i < rest.len() implies (#[trigger] rest[i]).actor()
            != next.event.escrow_id by {
            assert(rest[i] == ops[i + 1]);
        }
        law_conservation(next, rest);
    }
}

/// The supply ledger. Whatever operations are made against a market, the
/// supply recorded for an outcome afterwards is the supply recorded before
/// plus all that was staked on that outcome: one unit of supply for each
/// unit staked, and no supply without a stake. In particular a supply never
/// decreases.
pub proof fn law_supply_is_what_was_staked(market: Market, ops: Seq<Operation>, outcome: bool)
    ensures
        market.run(ops).event.supply(outcome) == market.event.supply(outcome) + market.staked_on(
            ops,
            outcome,
        ),
        market.run(ops).event.supply(outcome) >= market.event.supply(outcome),
    decreases ops.len(),
{
    if ops.len() > 0 {
        law_supply_is_what_was_staked(market.step(ops[0]), ops.drop_first(), outcome);
    }
}

/// Resolution is final. Once an event is resolved, no operation changes its
/// record: status, result and both supplies stay as they are.
pub proof fn law_resolved_is_final(market: Market, ops: Seq<Operation>)
    requires
        market.event.status == EventStatus::Resolved,
    ensures
        market.run(ops).event == market.event,
    decreases ops.len(),
{
    if ops.len() > 0 {
        law_resolved_is_final(market.step(ops[0]), ops.drop_first());
    }
}

/// No stake after resolution. Once an event is resolved, every stake fails
/// with `NotActive`, whatever was done to the market in between and whatever
/// the stake's amount, outcome and time.
pub proof fn law_no_stake_after_resolution(
    market: Market,
    ops: Seq<Operation>,
    staker: Pubkey,
    amount: u64,
    choice: bool,
    now: i64,
)
    requires
        market.event.status == EventStatus::Resolved,
    ensures
        bet_error(market.run(ops).bet_context(staker, now), amount, choice) == Some(
            SoldoraError::NotActive,
        ),
{
    law_resolved_is_final(market, ops);
}

/// No redemption before resolution. While an event is active, every
/// redemption fails with `NotResolved`, whatever the redeemer holds.
pub proof fn law_no_redemption_before_resolution(ctx: Redeem, choice: bool)
    requires
        ctx.event.status == EventStatus::Active,
    ensures
        redeem_payout(ctx, choice) == Err::<Payout, SoldoraError>(SoldoraError::NotResolved),
{
}

/// Only the creator resolves. A resolution asked for by any other account
/// fails with `Unauthorized`, whatever the event's state and the time.
pub proof fn law_only_the_creator_resolves(ctx: UpdateResult)
    requires
        ctx.caller != ctx.event.creator,
    ensures
        update_result_error(ctx) == Some(SoldoraError::Unauthorized),
{
}

/// No resolution before the deadline. Before the deadline every resolution
/// fails; when it is the creator who asks and the event is active, it fails
/// with `TooEarly`.
pub proof fn law_no_resolution_before_deadline(ctx: UpdateResult)
    requires
        ctx.now < ctx.event.deadline,
    ensures
        update_result_error(ctx) is Some,
        ctx.caller == ctx.event.creator && ctx.event.status == EventStatus::Active
            ==> update_result_error(ctx) == Some(SoldoraError::TooEarly),
{
}

/// Exclusivity. On a resolved event, a redemption for the outcome that lost
/// fails with `Lost`, whatever the redeemer holds and whatever the escrow
/// holds.
pub proof fn law_loser_cannot_redeem(ctx: Redeem, choice: bool)
    requires
        ctx.event.status == EventStatus::Resolved,
        ctx.event.result == Some(!choice),
    ensures
        redeem_payout(ctx, choice) == Err::<Payout, SoldoraError>(SoldoraError::Lost),
{
}

/// The overflow boundary. A stake that is otherwise valid, on an active
/// event before its deadline and of at least the minimum amount, fails with
/// `Overflow` exactly when it would take the chosen outcome's supply past the
/// largest value the counter holds; and then the event is left as it was.
pub proof fn law_stake_overflow(ctx: Bet, amount: u64, choice: bool)
    requires
        ctx.event.status == EventStatus::Active,
        ctx.now < ctx.event.deadline,
        amount >= MIN_STAKE,
    ensures
        bet_error(ctx, amount, choice) == Some(SoldoraError::Overflow) <==> ctx.event.supply(choice)
            + amount > u64::MAX,
        bet_error(ctx, amount, choice) is None ==> staked(ctx.event, amount, choice).supply(choice)
            == ctx.event.supply(choice) + amount,
{
}

/// A right to mint that was given up does not come back: no sequence of
/// commands makes a token mintable again.
pub proof fn law_revocation_is_permanent(
    ledger: Ledger,
    commands: Seq<LedgerCommand>,
    token: Pubkey,
)
    requires
        !ledger.mintable.contains(token),
        ledger.run(commands) is Some,
    ensures
        !ledger.run(commands)->Some_0.mintable.contains(token),
    decreases commands.len(),
{
    if commands.len() > 0 {
        law_revocation_is_permanent(
            ledger.apply(commands[0])->Some_0,
            commands.drop_first(),
            token,
        );
    }
}

/// The lock on minting. After a resolution has gone through, no units of
/// either position token can be minted again: whatever commands the ledger
/// has applied since, every mint of the Yes or the No token is refused.
pub proof fn law_resolution_locks_minting(
    ctx: UpdateResult,
    ledger: Ledger,
    later: Seq<LedgerCommand>,
    outcome: bool,
    destination: Pubkey,
    amount: u64,
)
    requires
        update_result_error(ctx) is None,
        ledger.run(update_result_commands(ctx.event)) is Some,
        ledger.run(update_result_commands(ctx.event))->Some_0.run(later) is Some,
    ensures
        ledger.run(update_result_commands(ctx.event))->Some_0.run(later)->Some_0.apply(
            LedgerCommand::Mint { token: ctx.event.token_id(outcome), destination, amount },
        ) is None,
{
    let commands = update_result_commands(ctx.event);
    assert(commands =~= seq![commands[0], commands[1]]);
    lemma_run_two(ledger, commands[0], commands[1]);
    law_revocation_is_permanent(
        ledger.run(commands)->Some_0,
        later,
        ctx.event.token_id(outcome),
    );
}

/// A resolved market without winners is frozen. If nobody staked on the
/// outcome that won, every later operation is refused, so the market, and
/// with it the escrow, stays exactly as it is.
pub proof fn law_escrow_is_unclaimable_without_winners(market: Market, ops: Seq<Operation>)
    requires
        market.event.status == EventStatus::Resolved,
        market.event.result matches Some(winner) && market.event.supply(winner) == 0,
    ensures
        market.run(ops) == market,
        market.paid(ops) == 0,
    decreases ops.len(),
{
    if ops.len() > 0 {
        assert(!market.accepts(ops[0]));
        law_escrow_is_unclaimable_without_winners(market, ops.drop_first());
    }
}

} // verus!
