use vstd::prelude::*;

use crate::auth::require_admin;
use crate::errors::GameError;
use crate::state::{AccountId, MintId, Platform, PlatformTreasury, SoulStoneConfig};
use crate::token::{mint_to, TokenAccount};

verus! {

/// Bootstraps the platform: records the administrator identity and the fee
/// rate, and opens an empty treasury. Both counters start at zero and no
/// token kind is registered yet.
///
/// Fails with `InvalidFeePercentage` exactly when the rate exceeds 10000
/// basis points.
pub fn initialize_platform(admin: AccountId, platform_fee_percentage: u16) -> (r: Result<
    (Platform, PlatformTreasury),
    GameError,
>)
    ensures
        r is Err <==> platform_fee_percentage > 10000,
        r matches Err(e) ==> e == GameError::InvalidFeePercentage,
        r matches Ok(pair) ==> ({
            &&& pair.0 == (Platform {
                admin,
                mon_token_mint: 0,
                soul_stone_mint: 0,
                soul_stone_price_lamports: 0,
                platform_fee_percentage,
                total_pokemon_minted: 0,
                total_battles: 0,
            })
            &&& pair.0.wf()
            &&& pair.1 == (PlatformTreasury { total_fees_collected: 0, fee_vault_balance: 0 })
        }),
{
    if platform_fee_percentage > 10000 {
        return Err(GameError::InvalidFeePercentage);
    }
    let platform = Platform {
        admin,
        mon_token_mint: 0,
        soul_stone_mint: 0,
        soul_stone_price_lamports: 0,
        platform_fee_percentage,
        total_pokemon_minted: 0,
        total_battles: 0,
    };
    let treasury = PlatformTreasury { total_fees_collected: 0, fee_vault_balance: 0 };
    Ok((platform, treasury))
}

/// Registers the freshly created utility-token kind on the platform.
/// Creating the token itself and its metadata record is the outside
/// ledger's work; the policy here is that only the administrator may bind
/// the platform to a token kind.
///
/// Fails with `Unauthorized` exactly when the caller is not the
/// administrator; nothing changes on failure.
pub fn create_mon_token(caller: AccountId, platform: &mut Platform, mint: MintId) -> (r: Result<
    (),
    GameError,
>)
    requires
        old(platform).wf(),
    ensures
        final(platform).wf(),
        r is Err <==> caller != old(platform).admin,
        r matches Err(e) ==> e == GameError::Unauthorized && *final(platform) == *old(platform),
        r is Ok ==> *final(platform) == (Platform { mon_token_mint: mint, ..*old(platform) }),
{
    match require_admin(caller, platform) {
        Ok(_) => {},
        Err(e) => {
            return Err(e);
        },
    }
    platform.mon_token_mint = mint;
    Ok(())
}

/// Registers the freshly created consumable-token kind on the platform and
/// opens its configuration record with a zero price and a zero counter.
///
/// Fails with `Unauthorized` exactly when the caller is not the
/// administrator; nothing changes on failure.
pub fn create_soul_stone_token(caller: AccountId, platform: &mut Platform, mint: MintId) -> (r:
    Result<SoulStoneConfig, GameError>)
    requires
        old(platform).wf(),
    ensures
        final(platform).wf(),
        r is Err <==> caller != old(platform).admin,
        r matches Err(e) ==> e == GameError::Unauthorized && *final(platform) == *old(platform),
        r matches Ok(config) ==> ({
            &&& *final(platform) == (Platform { soul_stone_mint: mint, ..*old(platform) })
            &&& config == (SoulStoneConfig { mint, price_in_lamports: 0, total_minted: 0 })
        }),
{
    match require_admin(caller, platform) {
        Ok(_) => {},
        Err(e) => {
            return Err(e);
        },
    }
    platform.soul_stone_mint = mint;
    Ok(SoulStoneConfig { mint, price_in_lamports: 0, total_minted: 0 })
}

/// Sets the consumable's price, on its configuration record and on the
/// platform's copy of it.
///
/// Fails with `Unauthorized` when the caller is not the administrator and
/// with `InvalidPrice` when the price is zero, in that order; nothing
/// changes on failure.
pub fn set_soul_stone_price(
    caller: AccountId,
    platform: &mut Platform,
    config: &mut SoulStoneConfig,
    price_in_lamports: u64,
) -> (r: Result<(), GameError>)
    requires
        old(platform).wf(),
    ensures
        final(platform).wf(),
        r is Err ==> *final(platform) == *old(platform) && *final(config) == *old(config),
        r is Err <==> (caller != old(platform).admin || price_in_lamports == 0),
        r matches Err(e) ==> e == (if caller != old(platform).admin {
            GameError::Unauthorized
        } else {
            GameError::InvalidPrice
        }),
        r is Ok ==> ({
            &&& *final(platform) == (Platform {
                soul_stone_price_lamports: price_in_lamports,
                ..*old(platform)
            })
            &&& *final(config) == (SoulStoneConfig {
                price_in_lamports,
                ..*old(config)
            })
        }),
{
    match require_admin(caller, platform) {
        Ok(_) => {},
        Err(e) => {
            return Err(e);
        },
    }
    if price_in_lamports == 0 {
        return Err(GameError::InvalidPrice);
    }
    config.price_in_lamports = price_in_lamports;
    platform.soul_stone_price_lamports = price_in_lamports;
    Ok(())
}

/// Updates the platform's fee rate.
///
/// Fails with `Unauthorized` when the caller is not the administrator and
/// with `InvalidFeePercentage` when the new rate exceeds 10000 basis
/// points, in that order; the rate is unchanged on failure.
pub fn update_platform_fee(
    caller: AccountId,
    platform: &mut Platform,
    new_fee_percentage: u16,
) -> (r: Result<(), GameError>)
    requires
        old(platform).wf(),
    ensures
        final(platform).wf(),
        r is Err ==> *final(platform) == *old(platform),
        r is Err <==> (caller != old(platform).admin || new_fee_percentage > 10000),
        r matches Err(e) ==> e == (if caller != old(platform).admin {
            GameError::Unauthorized
        } else {
            GameError::InvalidFeePercentage
        }),
        r is Ok ==> *final(platform) == (Platform {
            platform_fee_percentage: new_fee_percentage,
            ..*old(platform)
        }),
{
    match require_admin(caller, platform) {
        Ok(_) => {},
        Err(e) => {
            return Err(e);
        },
    }
    if new_fee_percentage > 10000 {
        return Err(GameError::InvalidFeePercentage);
    }
    platform.platform_fee_percentage = new_fee_percentage;
    Ok(())
}

/// Mints utility tokens into a recipient's account as a reward, at the
/// administrator's discretion.
///
/// Fails with `Unauthorized` when the caller is not the administrator,
/// with `InvalidPrice` when the amount is zero, and with `MathOverflow`
/// when the recipient's balance would overflow, in that order; nothing
/// changes on failure.
pub fn reward_mon_tokens(
    caller: AccountId,
    platform: &Platform,
    recipient_mon: &mut TokenAccount,
    amount: u64,
) -> (r: Result<(), GameError>)
    requires
        old(recipient_mon).mint == platform.mon_token_mint,
    ensures
        r is Err ==> *final(recipient_mon) == *old(recipient_mon),
        r is Err <==> (caller != platform.admin || amount == 0 || old(recipient_mon).amount + amount
            > u64::MAX),
        r matches Err(e) ==> e == (if caller != platform.admin {
            GameError::Unauthorized
        } else if amount == 0 {
            GameError::InvalidPrice
        } else {
            GameError::MathOverflow
        }),
        r is Ok ==> *final(recipient_mon) == (TokenAccount {
            amount: (old(recipient_mon).amount + amount) as u64,
            ..*old(recipient_mon)
        }),
{
    match require_admin(caller, platform) {
        Ok(_) => {},
        Err(e) => {
            return Err(e);
        },
    }
    if amount == 0 {
        return Err(GameError::InvalidPrice);
    }
    if recipient_mon.amount > u64::MAX - amount {
        return Err(GameError::MathOverflow);
    }
    mint_to(recipient_mon, amount);
    Ok(())
}

} // verus!
