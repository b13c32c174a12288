//! Account identities.
//!
//! Every party the engine names (a creator, a staker, an escrow, a position
//! token) is identified by a [`Pubkey`]. The engine never looks inside a key:
//! it stores keys, hands them back in ledger commands, and compares them.

use anchor_lang::prelude::Pubkey;
use vstd::prelude::*;

verus! {

#[verifier::external_type_specification]
#[verifier::external_body]
pub struct ExPubkey(Pubkey);

/// Trusted: `Pubkey` is `Copy`, and the `clone` that is derived for it
/// returns the key it was called on.
pub assume_specification[ <Pubkey as Clone>::clone ](key: &Pubkey) -> (copy: Pubkey)
    ensures
        copy == *key,
;

/// Whether two keys name the same account.
///
/// Trusted: calls `Pubkey`'s `==`, the `PartialEq` that is derived for the
/// key's 32 bytes, so the answer is `true` exactly when both keys are the
/// same value.
#[verifier::external_body]
pub(crate) fn same_key(a: &Pubkey, b: &Pubkey) -> (same: bool)
    ensures
        same == (*a == *b),
{
    a == b
}

} // verus!
