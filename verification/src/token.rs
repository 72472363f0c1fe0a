use vstd::prelude::*;

use crate::state::{AccountId, MintId};

verus! {

/// A fungible-token account: who holds it, which token kind it holds, and
/// how many units it currently holds. The operations below are the ledger
/// bookkeeping the escrow and registry operations rely on; each moves value
/// without creating or destroying any except where its contract says so.
#[derive(Clone, Copy, Debug)]
pub struct TokenAccount {
    pub owner: AccountId,
    pub mint: MintId,
    pub amount: u64,
}

/// Moves `amount` units from one account to another. The callers check
/// balance and width before calling, so the move itself cannot fail; the
/// total of the two balances is conserved.
pub fn transfer(from: &mut TokenAccount, to: &mut TokenAccount, amount: u64)
    requires
        old(from).amount >= amount,
        old(to).amount + amount <= u64::MAX,
    ensures
        final(from).amount == old(from).amount - amount,
        final(to).amount == old(to).amount + amount,
        final(from).amount + final(to).amount == old(from).amount + old(to).amount,
        final(from).owner == old(from).owner && final(from).mint == old(from).mint,
        final(to).owner == old(to).owner && final(to).mint == old(to).mint,
{
    from.amount = from.amount - amount;
    to.amount = to.amount + amount;
}

/// Creates `amount` new units in `to`.
pub fn mint_to(to: &mut TokenAccount, amount: u64)
    requires
        old(to).amount + amount <= u64::MAX,
    ensures
        final(to).amount == old(to).amount + amount,
        final(to).owner == old(to).owner && final(to).mint == old(to).mint,
{
    to.amount = to.amount + amount;
}

/// Destroys `amount` units held in `from`.
pub fn burn_from(from: &mut TokenAccount, amount: u64)
    requires
        old(from).amount >= amount,
    ensures
        final(from).amount == old(from).amount - amount,
        final(from).owner == old(from).owner && final(from).mint == old(from).mint,
{
    from.amount = from.amount - amount;
}

} // verus!
