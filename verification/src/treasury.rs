use vstd::prelude::*;

use crate::auth::require_admin;
use crate::errors::GameError;
use crate::state::{AccountId, Platform, PlatformTreasury};
use crate::token::TokenAccount;

verus! {

/// Withdraws collected fees from the treasury's custody into the
/// administrator's account. The lifetime fee counter is an audit record and
/// deliberately does not shrink: only the custodied balance does.
///
/// Fails with `Unauthorized` when the caller is not the administrator, with
/// `InvalidPrice` when the amount is zero, with `InsufficientBalance` when
/// the custody holds less than the amount, and with `MathOverflow` when the
/// administrator's balance would overflow, in that order; nothing changes
/// on failure.
pub fn withdraw_platform_fees(
    caller: AccountId,
    platform: &Platform,
    treasury: &mut PlatformTreasury,
    admin_mon: &mut TokenAccount,
    amount: u64,
) -> (r: Result<(), GameError>)
    requires
        old(admin_mon).owner == caller,
        old(admin_mon).mint == platform.mon_token_mint,
    ensures
        r is Err ==> *final(treasury) == *old(treasury) && *final(admin_mon) == *old(admin_mon),
        r is Err <==> (caller != platform.admin || amount == 0 || old(
            treasury,
        ).fee_vault_balance < amount || old(admin_mon).amount + amount > u64::MAX),
        r matches Err(e) ==> e == (if caller != platform.admin {
            GameError::Unauthorized
        } else if amount == 0 {
            GameError::InvalidPrice
        } else if old(treasury).fee_vault_balance < amount {
            GameError::InsufficientBalance
        } else {
            GameError::MathOverflow
        }),
        r is Ok ==> ({
            &&& *final(treasury) == (PlatformTreasury {
                fee_vault_balance: (old(treasury).fee_vault_balance - amount) as u64,
                ..*old(treasury)
            })
            &&& *final(admin_mon) == (TokenAccount {
                amount: (old(admin_mon).amount + amount) as u64,
                ..*old(admin_mon)
            })
            // The lifetime audit counter never shrinks on withdrawal.
            &&& final(treasury).total_fees_collected == old(treasury).total_fees_collected
        }),
{
    match require_admin(caller, platform) {
        Ok(_) => {},
        Err(e) => {
            return Err(e);
        },
    }
    if amount == 0 {
        return Err(GameError::InvalidPrice);
    }
    if treasury.fee_vault_balance < amount {
        return Err(GameError::InsufficientBalance);
    }
    if admin_mon.amount > u64::MAX - amount {
        return Err(GameError::MathOverflow);
    }
    treasury.fee_vault_balance = treasury.fee_vault_balance - amount;
    admin_mon.amount = admin_mon.amount + amount;
    Ok(())
}

} // verus!
