use anchor_lang::prelude::Pubkey;
use soldora::errors::SoldoraError;
use soldora::instructions::{
    bet, create_event, initialize_treasury, redeem, update_result, Bet, CreateEvent,
    InitializeTreasury, Redeem, UpdateResult,
};
use soldora::ledger::LedgerCommand;
use soldora::settlement::Payout;
use soldora::state::{Event, EventStatus, Treasury};
use std::collections::{HashMap, HashSet};

const CREATOR: u8 = 1;
const YES: u8 = 2;
const NO: u8 = 3;
const ESCROW: u8 = 4;
const TREASURY: u8 = 9;

fn account(n: u8) -> Pubkey {
    Pubkey::new_from_array([n; 32])
}

/// A ledger in memory that takes commands all or none.
#[derive(Clone)]
struct Book {
    balances: HashMap<Pubkey, u64>,
    holdings: HashMap<(Pubkey, Pubkey), u64>,
    mintable: HashSet<Pubkey>,
}

fn balance_of(book: &Book, who: Pubkey) -> u64 {
    book.balances.get(&who).copied().unwrap_or(0)
}

fn holding_of(book: &Book, token: Pubkey, who: Pubkey) -> u64 {
    book.holdings.get(&(token, who)).copied().unwrap_or(0)
}

fn apply(book: &mut Book, command: &LedgerCommand) -> bool {
    match *command {
        LedgerCommand::Transfer { source, destination, amount } => {
            let from = balance_of(book, source);
            if from < amount {
                return false;
            }
            book.balances.insert(source, from - amount);
            match balance_of(book, destination).checked_add(amount) {
                Some(total) => {
                    book.balances.insert(destination, total);
                    true
                }
                None => false,
            }
        }
        LedgerCommand::Mint { token, destination, amount } => {
            if !book.mintable.contains(&token) {
                return false;
            }
            match holding_of(book, token, destination).checked_add(amount) {
                Some(total) => {
                    book.holdings.insert((token, destination), total);
                    true
                }
                None => false,
            }
        }
        LedgerCommand::Burn { token, source, amount } => {
            let held = holding_of(book, token, source);
            if held < amount {
                return false;
            }
            book.holdings.insert((token, source), held - amount);
            true
        }
        LedgerCommand::RevokeMintAuthority { token } => {
            book.mintable.remove(&token);
            true
        }
    }
}

fn run(book: &mut Book, commands: &[LedgerCommand]) -> bool {
    let mut trial = book.clone();
    for command in commands {
        if !apply(&mut trial, command) {
            return false;
        }
    }
    *book = trial;
    true
}

/// A market as a host would keep it: the records, and the ledger they are
/// settled on.
struct Host {
    event: Event,
    treasury: Treasury,
    book: Book,
}

fn open_market(deadline: i64, funds: &[(u8, u64)]) -> Host {
    let ctx = CreateEvent {
        creator: account(CREATOR),
        yes_token_id: account(YES),
        no_token_id: account(NO),
        escrow_id: account(ESCROW),
        now: deadline - 100,
    };
    let event = create_event(&ctx, 1, String::from("Will it rain?"), deadline).unwrap();
    let treasury = initialize_treasury(&InitializeTreasury { authority: account(8), bump: 255 });
    let mut book = Book {
        balances: HashMap::new(),
        holdings: HashMap::new(),
        mintable: HashSet::new(),
    };
    book.mintable.insert(account(YES));
    book.mintable.insert(account(NO));
    for (who, amount) in funds {
        book.balances.insert(account(*who), *amount);
    }
    Host { event, treasury, book }
}

fn stake(host: &mut Host, who: u8, amount: u64, choice: bool, now: i64) -> Result<(), SoldoraError> {
    let mut ctx = Bet { staker: account(who), event: host.event.clone(), now };
    let commands = bet(&mut ctx, amount, choice)?;
    if !run(&mut host.book, &commands) {
        return Err(SoldoraError::LedgerError);
    }
    host.event = ctx.event;
    Ok(())
}

fn resolve(host: &mut Host, who: u8, result: bool, now: i64) -> Result<(), SoldoraError> {
    let mut ctx = UpdateResult { caller: account(who), event: host.event.clone(), now };
    let commands = update_result(&mut ctx, result)?;
    if !run(&mut host.book, &commands) {
        return Err(SoldoraError::LedgerError);
    }
    host.event = ctx.event;
    Ok(())
}

fn claim(host: &mut Host, who: u8, choice: bool) -> Result<Payout, SoldoraError> {
    let token = if choice { host.event.yes_token_id } else { host.event.no_token_id };
    let mut ctx = Redeem {
        redeemer: account(who),
        event: host.event.clone(),
        treasury: host.treasury,
        treasury_id: account(TREASURY),
        balance: holding_of(&host.book, token, account(who)),
        escrow_balance: balance_of(&host.book, host.event.escrow_id),
    };
    let granted = redeem(&mut ctx, choice)?;
    if !run(&mut host.book, &granted.commands) {
        return Err(SoldoraError::LedgerError);
    }
    host.treasury = ctx.treasury;
    Ok(granted.payout)
}

#[test]
fn two_stakers_one_winner() {
    let mut host = open_market(1000, &[(10, 1_000_000), (11, 3_000_000)]);
    stake(&mut host, 10, 1_000_000, true, 900).unwrap();
    stake(&mut host, 11, 3_000_000, false, 901).unwrap();
    assert_eq!(host.event.yes_supply, 1_000_000);
    assert_eq!(host.event.no_supply, 3_000_000);
    assert_eq!(balance_of(&host.book, account(ESCROW)), 4_000_000);
    assert_eq!(holding_of(&host.book, account(YES), account(10)), 1_000_000);
    assert_eq!(holding_of(&host.book, account(NO), account(11)), 3_000_000);

    resolve(&mut host, CREATOR, true, 1000).unwrap();
    assert_eq!(host.event.status, EventStatus::Resolved);
    assert_eq!(host.event.result, Some(true));
    assert_eq!(balance_of(&host.book, account(ESCROW)), 4_000_000);

    let payout = claim(&mut host, 10, true).unwrap();
    assert_eq!(payout, Payout { gross: 4_000_000, fee: 80_000, net: 3_920_000 });
    assert_eq!(balance_of(&host.book, account(10)), 3_920_000);
    assert_eq!(balance_of(&host.book, account(TREASURY)), 80_000);
    assert_eq!(balance_of(&host.book, account(ESCROW)), 0);
    assert_eq!(host.treasury.total_fees, 80_000);
    assert_eq!(holding_of(&host.book, account(YES), account(10)), 0);

    assert_eq!(claim(&mut host, 11, false), Err(SoldoraError::Lost));
    assert_eq!(holding_of(&host.book, account(NO), account(11)), 3_000_000);
    assert_eq!(balance_of(&host.book, account(11)), 0);
}

#[test]
fn nobody_staked_on_the_outcome_that_won() {
    let mut host = open_market(1000, &[(11, 3_000_000)]);
    stake(&mut host, 11, 3_000_000, false, 900).unwrap();
    resolve(&mut host, CREATOR, true, 1000).unwrap();

    // A holder of Yes tokens cannot exist on this ledger; put to the engine
    // directly, such a claim is refused for want of winner supply.
    let mut ctx = Redeem {
        redeemer: account(12),
        event: host.event.clone(),
        treasury: host.treasury,
        treasury_id: account(TREASURY),
        balance: 1,
        escrow_balance: 3_000_000,
    };
    assert_eq!(redeem(&mut ctx, true), Err(SoldoraError::NoWinnerSupply));

    assert_eq!(claim(&mut host, 12, true), Err(SoldoraError::NothingToRedeem));
    assert_eq!(claim(&mut host, 11, true), Err(SoldoraError::NothingToRedeem));
    assert_eq!(claim(&mut host, 11, false), Err(SoldoraError::Lost));
    assert_eq!(balance_of(&host.book, account(ESCROW)), 3_000_000);
    assert_eq!(host.treasury.total_fees, 0);
}

#[test]
fn payouts_and_fees_never_exceed_the_stakes() {
    let mut host = open_market(
        1000,
        &[(10, 5_000_000), (11, 7_000_000), (12, 2_500_000), (13, 9_000_000)],
    );
    stake(&mut host, 10, 5_000_000, true, 1).unwrap();
    stake(&mut host, 11, 7_000_000, true, 2).unwrap();
    stake(&mut host, 12, 2_500_000, true, 3).unwrap();
    stake(&mut host, 13, 9_000_000, false, 4).unwrap();
    let staked: u64 = 23_500_000;
    assert_eq!(host.event.yes_supply + host.event.no_supply, staked);
    assert_eq!(balance_of(&host.book, account(ESCROW)), staked);
    resolve(&mut host, CREATOR, true, 1000).unwrap();

    let mut paid: u64 = 0;
    for who in [10u8, 11, 12] {
        let before = balance_of(&host.book, account(ESCROW));
        let payout = claim(&mut host, who, true).unwrap();
        assert_eq!(payout.net + payout.fee, payout.gross);
        assert_eq!(balance_of(&host.book, account(ESCROW)), before - payout.gross);
        paid += payout.gross;
    }
    assert!(paid <= staked);
    assert_eq!(balance_of(&host.book, account(ESCROW)) + paid, staked);
    assert_eq!(
        balance_of(&host.book, account(TREASURY)),
        host.treasury.total_fees
    );
    // Each winner drew their share of what was left when they claimed.
    assert_eq!(balance_of(&host.book, account(10)), 7_941_380);
    assert_eq!(paid, 8_103_448 + 7_432_818 + 1_373_057);
    // A second claim finds nothing left to redeem.
    assert_eq!(claim(&mut host, 10, true), Err(SoldoraError::NothingToRedeem));
}

#[test]
fn supplies_grow_with_stakes_and_freeze_at_resolution() {
    let mut host = open_market(1000, &[(10, 10_000_000), (11, 10_000_000)]);
    let mut yes: u64 = 0;
    let mut no: u64 = 0;
    let stakes: Vec<(u8, u64, bool)> =
        vec![(10, 1_000_000, true), (11, 2_000_000, false), (10, 3_000_000, false)];
    for (who, amount, choice) in stakes {
        stake(&mut host, who, amount, choice, 10).unwrap();
        assert!(host.event.yes_supply >= yes);
        assert!(host.event.no_supply >= no);
        if choice {
            yes += amount;
        } else {
            no += amount;
        }
        assert_eq!(host.event.yes_supply, yes);
        assert_eq!(host.event.no_supply, no);
    }
    resolve(&mut host, CREATOR, false, 1000).unwrap();
    let frozen = host.event.clone();
    assert_eq!(stake(&mut host, 10, 1_000_000, true, 10), Err(SoldoraError::NotActive));
    assert_eq!(resolve(&mut host, CREATOR, true, 2000), Err(SoldoraError::NotActive));
    claim(&mut host, 11, false).unwrap();
    claim(&mut host, 10, false).unwrap();
    assert_eq!(claim(&mut host, 10, true), Err(SoldoraError::Lost));
    assert_eq!(host.event, frozen);
}

#[test]
fn minting_is_locked_after_resolution() {
    let mut host = open_market(1000, &[(10, 2_000_000)]);
    stake(&mut host, 10, 1_000_000, true, 10).unwrap();
    resolve(&mut host, CREATOR, true, 1000).unwrap();
    assert!(!host.book.mintable.contains(&account(YES)));
    assert!(!host.book.mintable.contains(&account(NO)));
    for token in [YES, NO] {
        let mint = LedgerCommand::Mint {
            token: account(token),
            destination: account(10),
            amount: 1,
        };
        assert!(!run(&mut host.book, &[mint]));
    }
    claim(&mut host, 10, true).unwrap();
    let mint = LedgerCommand::Mint { token: account(YES), destination: account(10), amount: 1 };
    assert!(!run(&mut host.book, &[mint]));
}

#[test]
fn stake_without_funds_changes_nothing() {
    let mut host = open_market(1000, &[(10, 999_999)]);
    let before = host.event.clone();
    assert_eq!(stake(&mut host, 10, 1_000_000, true, 10), Err(SoldoraError::LedgerError));
    assert_eq!(host.event, before);
    assert_eq!(balance_of(&host.book, account(10)), 999_999);
    assert_eq!(balance_of(&host.book, account(ESCROW)), 0);
    assert_eq!(holding_of(&host.book, account(YES), account(10)), 0);
}

#[test]
fn redemption_before_resolution_is_refused_on_a_live_market() {
    let mut host = open_market(1000, &[(10, 1_000_000)]);
    stake(&mut host, 10, 1_000_000, true, 10).unwrap();
    assert_eq!(claim(&mut host, 10, true), Err(SoldoraError::NotResolved));
    assert_eq!(resolve(&mut host, CREATOR, true, 999), Err(SoldoraError::TooEarly));
    assert_eq!(resolve(&mut host, 10, true, 1000), Err(SoldoraError::Unauthorized));
    assert_eq!(balance_of(&host.book, account(ESCROW)), 1_000_000);
    assert_eq!(host.event.status, EventStatus::Active);
}
