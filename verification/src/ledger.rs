//! The value ledger, as the engine sees it.
//!
//! The ledger moves staked value and mints and burns position tokens. It is
//! not part of the engine: an operation returns [`LedgerCommand`]s, and the
//! host applies them, all or none.
//!
//! [`Ledger`] is a mathematical model of that collaborator. It exists only in
//! specifications: it says what each command is taken to do, so that
//! properties of whole markets can be stated and proved.

use anchor_lang::prelude::Pubkey;
use vstd::prelude::*;

verus! {

/// One instruction to the value ledger.
#[derive(Clone, Copy, Debug, PartialEq, Eq)]
pub enum LedgerCommand {
    /// Move `amount` of value from `source` to `destination`.
    Transfer { source: Pubkey, destination: Pubkey, amount: u64 },
    /// Mint `amount` units of `token` into `destination`'s holding.
    Mint { token: Pubkey, destination: Pubkey, amount: u64 },
    /// Burn `amount` units of `token` from `source`'s holding.
    Burn { token: Pubkey, source: Pubkey, amount: u64 },
    /// Give up the right to mint `token`, for good.
    RevokeMintAuthority { token: Pubkey },
}

/// The state of the value ledger.
pub struct Ledger {
    /// The value each account holds. An account that is absent holds nothing.
    pub balances: Map<Pubkey, u64>,
    /// The units of each token, first in the pair, that each holder, second,
    /// holds. A pair that is absent holds nothing.
    pub holdings: Map<(Pubkey, Pubkey), u64>,
    /// The tokens that can still be minted.
    pub mintable: Set<Pubkey>,
}

impl Ledger {
    /// The value that `account` holds.
    pub open spec fn balance_of(self, account: Pubkey) -> u64 {
        if self.balances.dom().contains(account) {
            self.balances[account]
        } else {
            0
        }
    }

    /// The units of `token` that `holder` holds.
    pub open spec fn holding_of(self, token: Pubkey, holder: Pubkey) -> u64 {
        if self.holdings.dom().contains((token, holder)) {
            self.holdings[(token, holder)]
        } else {
            0
        }
    }

    /// The ledger after one command, or `None` if the ledger refuses it.
    ///
    /// A transfer is refused when the source holds too little, a mint when
    /// the right to mint the token was given up, a burn when the holder has
    /// too few units; a transfer or a mint also when the receiving balance
    /// would pass 64 bits. Giving up the right to mint always succeeds.
    pub open spec fn apply(self, command: LedgerCommand) -> Option<Ledger> {
        match command {
            LedgerCommand::Transfer { source, destination, amount } => {
                if self.balance_of(source) < amount {
                    None
                } else {
                    let debited = Ledger {
                        balances: self.balances.insert(
                            source,
                            (self.balance_of(source) - amount) as u64,
                        ),
                        ..self
                    };
                    if debited.balance_of(destination) + amount > u64::MAX {
                        None
                    } else {
                        Some(
                            Ledger {
                                balances: debited.balances.insert(
                                    destination,
                                    (debited.balance_of(destination) + amount) as u64,
                                ),
                                ..self
                            },
                        )
                    }
                }
            },
            LedgerCommand::Mint { token, destination, amount } => {
                if !self.mintable.contains(token) || self.holding_of(token, destination) + amount
                    > u64::MAX {
                    None
                } else {
                    Some(
                        Ledger {
                            holdings: self.holdings.insert(
                                (token, destination),
                                (self.holding_of(token, destination) + amount) as u64,
                            ),
                            ..self
                        },
                    )
                }
            },
            LedgerCommand::Burn { token, source, amount } => {
                if self.holding_of(token, source) < amount {
                    None
                } else {
                    Some(
                        Ledger {
                            holdings: self.holdings.insert(
                                (token, source),
                                (self.holding_of(token, source) - amount) as u64,
                            ),
                            ..self
                        },
                    )
                }
            },
            LedgerCommand::RevokeMintAuthority { token } => Some(
                Ledger { mintable: self.mintable.remove(token), ..self },
            ),
        }
    }

    /// The ledger after all of `commands`, in order, or `None` if it refuses
    /// any of them: commands are applied all or none.
    pub open spec fn run(self, commands: Seq<LedgerCommand>) -> Option<Ledger>
        decreases commands.len(),
    {
        if commands.len() == 0 {
            Some(self)
        } else {
            match self.apply(commands[0]) {
                Some(next) => next.run(commands.drop_first()),
                None => None,
            }
        }
    }
}

} // verus!
