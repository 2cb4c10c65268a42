//! An in-memory model of the asset ledger's accounts and transfers.
//!
//! The real ledger owns fungible-token accounts and performs authorized
//! transfers between them. This module models one account as a plain value
//! and the ledger's `transfer` as a verified function with the ledger's
//! documented behaviour: it refuses a request whose declared authority does
//! not control the source account, whose accounts hold different assets, or
//! whose source balance is too low, and otherwise moves exactly the requested
//! amount.

use vstd::prelude::*;
use crate::identity::{Authority, Pubkey};
use crate::escrow::EscrowError;

verus! {

/// One fungible-token account of the ledger.
#[derive(Clone, Copy, PartialEq, Eq, Structural, Debug)]
pub struct TokenAccount {
    /// The account's own ledger identity.
    pub key: Pubkey,
    /// The asset class the account holds.
    pub mint: Pubkey,
    /// The identity that may authorize movements out of this account.
    pub owner: Authority,
    /// The account's balance.
    pub amount: u64,
}

/// `a` with its balance replaced by `amount`; every other field unchanged.
pub open spec fn with_amount(a: TokenAccount, amount: u64) -> TokenAccount {
    TokenAccount { key: a.key, mint: a.mint, owner: a.owner, amount }
}

/// The ledger accepts a transfer exactly when the declared authority controls
/// the source account, both accounts hold the same asset, and the source
/// balance covers the amount.
pub open spec fn transfer_allowed(
    from: TokenAccount,
    to: TokenAccount,
    amount: u64,
    authority: Authority,
) -> bool {
    &&& authority == from.owner
    &&& from.mint == to.mint
    &&& amount <= from.amount
}

/// The error a refused transfer earns. Authorization is checked first, then
/// asset compatibility, then the balance.
pub open spec fn transfer_error(
    from: TokenAccount,
    to: TokenAccount,
    amount: u64,
    authority: Authority,
) -> EscrowError
    recommends
        !transfer_allowed(from, to, amount, authority),
{
    if authority != from.owner {
        EscrowError::Unauthorized
    } else if from.mint != to.mint {
        EscrowError::AssetMismatch
    } else {
        EscrowError::InsufficientFunds
    }
}

/// Moves `amount` from `from` to `to` on the declared authority, or refuses
/// the request and leaves both accounts untouched.
pub fn transfer(
    from: &mut TokenAccount,
    to: &mut TokenAccount,
    amount: u64,
    authority: &Authority,
) -> (r: Result<(), EscrowError>)
    requires
        old(to).amount + amount <= u64::MAX,
    ensures
        r is Ok <==> transfer_allowed(*old(from), *old(to), amount, *authority),
        transfer_allowed(*old(from), *old(to), amount, *authority) ==> {
            &&& *final(from) == with_amount(*old(from), (old(from).amount - amount) as u64)
            &&& *final(to) == with_amount(*old(to), (old(to).amount + amount) as u64)
        },
        !transfer_allowed(*old(from), *old(to), amount, *authority) ==> {
            &&& r == Err::<(), EscrowError>(transfer_error(*old(from), *old(to), amount, *authority))
            &&& *final(from) == *old(from)
            &&& *final(to) == *old(to)
        },
{
    if !(*authority == from.owner) {
        return Err(EscrowError::Unauthorized);
    }
    if !(from.mint == to.mint) {
        return Err(EscrowError::AssetMismatch);
    }
    if amount > from.amount {
        return Err(EscrowError::InsufficientFunds);
    }
    from.amount = from.amount - amount;
    to.amount = to.amount + amount;
    Ok(())
}

} // verus!
