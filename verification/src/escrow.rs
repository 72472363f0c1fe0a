use vstd::prelude::*;

use crate::errors::GameError;
use crate::fee::{compute_fee, lemma_fee_within_stake, spec_compute_fee};
use crate::state::{AccountId, Battle, BattleStatus, MintId, Platform, PlatformTreasury, PokemonData};
use crate::token::TokenAccount;

verus! {

/// Stake each player locks to enter a battle: ten utility tokens, at nine
/// decimal places.
pub const BATTLE_STAKE_AMOUNT: u64 = 10_000_000_000;

/// Opens a battle: player1 locks `stake_amount` units into a fresh custody
/// account and waits for an opponent.
///
/// Fails with `InsufficientMonTokens` when player1 holds less than the
/// stake, with `NotPokemonOwner` when the entered asset is not player1's,
/// and with `MathOverflow` when the platform's battle counter is exhausted;
/// on failure nothing changes. On success the stake has moved from player1
/// into the battle's custody account, the stored fee is the fee owed on the
/// stake at the platform's current rate, and the platform's battle counter
/// has grown by one.
pub fn create_battle(
    player1: AccountId,
    platform: &mut Platform,
    pokemon: &PokemonData,
    player1_mon: &mut TokenAccount,
    battle_id: u64,
    pokemon_mint: MintId,
    stake_amount: u64,
    now: i64,
) -> (r: Result<Battle, GameError>)
    requires
        old(platform).wf(),
        pokemon.mint == pokemon_mint,
        old(player1_mon).owner == player1,
        old(player1_mon).mint == old(platform).mon_token_mint,
    ensures
        r is Err ==> *final(platform) == *old(platform) && *final(player1_mon) == *old(
            player1_mon,
        ),
        r is Err <==> (old(player1_mon).amount < stake_amount || pokemon.owner != player1 || old(
            platform,
        ).total_battles == u64::MAX),
        r matches Err(e) ==> e == (if old(player1_mon).amount < stake_amount {
            GameError::InsufficientMonTokens
        } else if pokemon.owner != player1 {
            GameError::NotPokemonOwner
        } else {
            GameError::MathOverflow
        }),
        final(platform).wf(),
        r matches Ok(battle) ==> ({
            &&& battle.wf()
            &&& battle.battle_id == battle_id
            &&& battle.player1 == player1
            &&& battle.player2 is None
            &&& battle.player1_pokemon == pokemon_mint
            &&& battle.player2_pokemon is None
            &&& battle.stake_amount == stake_amount
            &&& battle.platform_fee_amount == spec_compute_fee(
                stake_amount,
                old(platform).platform_fee_percentage,
            )
            &&& battle.status is WaitingForPlayer2
            &&& battle.winner is None
            &&& battle.created_at == now
            &&& battle.resolved_at is None
            &&& battle.escrow == Some(stake_amount)
            &&& *final(player1_mon) == (TokenAccount {
                amount: (old(player1_mon).amount - stake_amount) as u64,
                ..*old(player1_mon)
            })
            &&& *final(platform) == (Platform {
                total_battles: (old(platform).total_battles + 1) as u64,
                ..*old(platform)
            })
        }),
{
    if player1_mon.amount < stake_amount {
        return Err(GameError::InsufficientMonTokens);
    }
    if pokemon.owner != player1 {
        return Err(GameError::NotPokemonOwner);
    }
    proof {
        lemma_fee_within_stake(stake_amount, platform.platform_fee_percentage);
    }
    let platform_fee = match compute_fee(stake_amount, platform.platform_fee_percentage) {
        Ok(fee) => fee,
        Err(e) => {
            return Err(e);
        },
    };
    if platform.total_battles == u64::MAX {
        return Err(GameError::MathOverflow);
    }
    // Move the stake into the newly created custody account, then record
    // the battle; the checks above make every step infallible.
    player1_mon.amount = player1_mon.amount - stake_amount;
    platform.total_battles = platform.total_battles + 1;
    Ok(
        Battle {
            battle_id,
            player1,
            player2: None,
            player1_pokemon: pokemon_mint,
            player2_pokemon: None,
            stake_amount,
            platform_fee_amount: platform_fee,
            status: BattleStatus::WaitingForPlayer2,
            winner: None,
            created_at: now,
            resolved_at: None,
            escrow: Some(stake_amount),
        },
    )
}

/// Enters an open battle as the second player: player2 locks the battle's
/// stake into the same custody account and the battle becomes active.
///
/// Fails with `InvalidBattleStatus` unless the battle is waiting for a
/// second player, with `CannotJoinOwnBattle` when player2 created the
/// battle, with `InsufficientMonTokens` when player2 holds less than the
/// stake, with `NotPokemonOwner` when the entered asset is not player2's,
/// and with `MathOverflow` when two stakes do not fit the custody width; on
/// failure nothing changes. On success the custody account holds exactly
/// twice the stake.
pub fn join_battle(
    player2: AccountId,
    battle: &mut Battle,
    pokemon: &PokemonData,
    player2_mon: &mut TokenAccount,
    pokemon_mint: MintId,
) -> (r: Result<(), GameError>)
    requires
        old(battle).wf(),
        pokemon.mint == pokemon_mint,
        old(player2_mon).owner == player2,
    ensures
        final(battle).wf(),
        r is Err ==> *final(battle) == *old(battle) && *final(player2_mon) == *old(player2_mon),
        r is Err <==> (!(old(battle).status is WaitingForPlayer2) || old(battle).player1 == player2
            || old(player2_mon).amount < old(battle).stake_amount || pokemon.owner != player2 || old(
            battle,
        ).stake_amount * 2 > u64::MAX),
        r matches Err(e) ==> e == (if !(old(battle).status is WaitingForPlayer2) {
            GameError::InvalidBattleStatus
        } else if old(battle).player1 == player2 {
            GameError::CannotJoinOwnBattle
        } else if old(player2_mon).amount < old(battle).stake_amount {
            GameError::InsufficientMonTokens
        } else if pokemon.owner != player2 {
            GameError::NotPokemonOwner
        } else {
            GameError::MathOverflow
        }),
        r is Ok ==> ({
            &&& *final(battle) == (Battle {
                player2: Some(player2),
                player2_pokemon: Some(pokemon_mint),
                status: BattleStatus::InProgress,
                escrow: Some((old(battle).stake_amount * 2) as u64),
                ..*old(battle)
            })
            &&& *final(player2_mon) == (TokenAccount {
                amount: (old(player2_mon).amount - old(battle).stake_amount) as u64,
                ..*old(player2_mon)
            })
        }),
{
    if battle.status != BattleStatus::WaitingForPlayer2 {
        return Err(GameError::InvalidBattleStatus);
    }
    if battle.player1 == player2 {
        return Err(GameError::CannotJoinOwnBattle);
    }
    if player2_mon.amount < battle.stake_amount {
        return Err(GameError::InsufficientMonTokens);
    }
    if pokemon.owner != player2 {
        return Err(GameError::NotPokemonOwner);
    }
    if battle.stake_amount > u64::MAX - battle.stake_amount {
        return Err(GameError::MathOverflow);
    }
    // Move the second stake into the custody account and activate the
    // battle; the checks above make every step infallible.
    player2_mon.amount = player2_mon.amount - battle.stake_amount;
    let held = battle.escrow.unwrap();
    battle.escrow = Some(held + battle.stake_amount);
    battle.player2 = Some(player2);
    battle.player2_pokemon = Some(pokemon_mint);
    battle.status = BattleStatus::InProgress;
    Ok(())
}

/// Settles an active battle from the supplied outcome: the stored fee goes
/// to the treasury, the rest of the pot goes to the winner, the custody
/// account is closed, and both assets' battle records are stamped.
///
/// The outcome is deliberately unauthenticated: any caller may supply it
/// once a battle is active, a trust boundary of the current design.
///
/// Fails with `InvalidBattleStatus` unless the battle is active (in
/// particular, a battle can be resolved only once), and with `MathOverflow`
/// when a balance or counter would overflow its width; on failure nothing
/// changes. On success the value gained by the winner and the treasury
/// together is exactly the two stakes the custody account held: none is
/// created or destroyed.
pub fn resolve_battle(
    treasury: &mut PlatformTreasury,
    battle: &mut Battle,
    player1_pokemon_data: &mut PokemonData,
    player2_pokemon_data: &mut PokemonData,
    player1_mon: &mut TokenAccount,
    player2_mon: &mut TokenAccount,
    winner_is_player1: bool,
    now: i64,
) -> (r: Result<(), GameError>)
    requires
        old(battle).wf(),
        old(battle).status is InProgress ==> ({
            &&& old(player1_mon).owner == old(battle).player1
            &&& old(battle).player2 matches Some(p2) && old(player2_mon).owner == p2
            &&& old(player1_pokemon_data).mint == old(battle).player1_pokemon
            &&& old(battle).player2_pokemon matches Some(m) && old(player2_pokemon_data).mint == m
        }),
    ensures
        final(battle).wf(),
        r is Err ==> ({
            &&& *final(treasury) == *old(treasury)
            &&& *final(battle) == *old(battle)
            &&& *final(player1_pokemon_data) == *old(player1_pokemon_data)
            &&& *final(player2_pokemon_data) == *old(player2_pokemon_data)
            &&& *final(player1_mon) == *old(player1_mon)
            &&& *final(player2_mon) == *old(player2_mon)
        }),
        r is Err <==> ({
            let payout = old(battle).stake_amount * 2 - old(battle).platform_fee_amount;
            let fee = old(battle).platform_fee_amount;
            let winner_acct = if winner_is_player1 {
                old(player1_mon)
            } else {
                old(player2_mon)
            };
            let winner_poke = if winner_is_player1 {
                old(player1_pokemon_data)
            } else {
                old(player2_pokemon_data)
            };
            let loser_poke = if winner_is_player1 {
                old(player2_pokemon_data)
            } else {
                old(player1_pokemon_data)
            };
            ||| !(old(battle).status is InProgress)
            ||| winner_acct.amount + payout > u64::MAX
            ||| old(treasury).fee_vault_balance + fee > u64::MAX
            ||| old(treasury).total_fees_collected + fee > u64::MAX
            ||| winner_poke.battles_won == u32::MAX
            ||| loser_poke.battles_lost == u32::MAX
        }),
        r matches Err(e) ==> e == (if !(old(battle).status is InProgress) {
            GameError::InvalidBattleStatus
        } else {
            GameError::MathOverflow
        }),
        r is Ok ==> ({
            let stake = old(battle).stake_amount;
            let fee = old(battle).platform_fee_amount;
            let payout = stake * 2 - fee;
            &&& *final(battle) == (Battle {
                status: BattleStatus::Resolved,
                winner: if winner_is_player1 {
                    Some(old(battle).player1)
                } else {
                    old(battle).player2
                },
                resolved_at: Some(now),
                escrow: None,
                ..*old(battle)
            })
            &&& final(treasury).fee_vault_balance == old(treasury).fee_vault_balance + fee
            &&& final(treasury).total_fees_collected == old(treasury).total_fees_collected + fee
            &&& (if winner_is_player1 {
                &&& *final(player1_mon) == (TokenAccount {
                    amount: (old(player1_mon).amount + payout) as u64,
                    ..*old(player1_mon)
                })
                &&& *final(player2_mon) == *old(player2_mon)
                &&& *final(player1_pokemon_data) == (PokemonData {
                    battles_won: (old(player1_pokemon_data).battles_won + 1) as u32,
                    last_battle_at: now,
                    ..*old(player1_pokemon_data)
                })
                &&& *final(player2_pokemon_data) == (PokemonData {
                    battles_lost: (old(player2_pokemon_data).battles_lost + 1) as u32,
                    last_battle_at: now,
                    ..*old(player2_pokemon_data)
                })
            } else {
                &&& *final(player2_mon) == (TokenAccount {
                    amount: (old(player2_mon).amount + payout) as u64,
                    ..*old(player2_mon)
                })
                &&& *final(player1_mon) == *old(player1_mon)
                &&& *final(player2_pokemon_data) == (PokemonData {
                    battles_won: (old(player2_pokemon_data).battles_won + 1) as u32,
                    last_battle_at: now,
                    ..*old(player2_pokemon_data)
                })
                &&& *final(player1_pokemon_data) == (PokemonData {
                    battles_lost: (old(player1_pokemon_data).battles_lost + 1) as u32,
                    last_battle_at: now,
                    ..*old(player1_pokemon_data)
                })
            })
            // No value is created or destroyed: what the winner and the
            // treasury gained together is exactly what custody held.
            &&& (if winner_is_player1 {
                final(player1_mon).amount - old(player1_mon).amount
            } else {
                final(player2_mon).amount - old(player2_mon).amount
            }) + (final(treasury).fee_vault_balance - old(treasury).fee_vault_balance) == old(
                battle,
            ).stake_amount * 2
        }),
{
    if battle.status != BattleStatus::InProgress {
        return Err(GameError::InvalidBattleStatus);
    }
    // Defensive readiness check; the battle invariant proves it can never
    // fire, since an active battle always has its second player.
    if battle.player2.is_none() {
        return Err(GameError::BattleNotReady);
    }
    let total_pot = battle.escrow.unwrap();
    let platform_fee = battle.platform_fee_amount;
    let winner_amount = total_pot - platform_fee;
    // Check every arithmetic step before mutating anything, so that a
    // failure observes no partial state change.
    if winner_is_player1 {
        if player1_mon.amount > u64::MAX - winner_amount {
            return Err(GameError::MathOverflow);
        }
        if player1_pokemon_data.battles_won == u32::MAX {
            return Err(GameError::MathOverflow);
        }
        if player2_pokemon_data.battles_lost == u32::MAX {
            return Err(GameError::MathOverflow);
        }
    } else {
        if player2_mon.amount > u64::MAX - winner_amount {
            return Err(GameError::MathOverflow);
        }
        if player2_pokemon_data.battles_won == u32::MAX {
            return Err(GameError::MathOverflow);
        }
        if player1_pokemon_data.battles_lost == u32::MAX {
            return Err(GameError::MathOverflow);
        }
    }
    if treasury.fee_vault_balance > u64::MAX - platform_fee {
        return Err(GameError::MathOverflow);
    }
    if treasury.total_fees_collected > u64::MAX - platform_fee {
        return Err(GameError::MathOverflow);
    }
    // Commit: collect the fee, pay the winner, close custody, stamp both
    // asset records, and mark the battle resolved.
    treasury.fee_vault_balance = treasury.fee_vault_balance + platform_fee;
    treasury.total_fees_collected = treasury.total_fees_collected + platform_fee;
    if winner_is_player1 {
        player1_mon.amount = player1_mon.amount + winner_amount;
        player1_pokemon_data.battles_won = player1_pokemon_data.battles_won + 1;
        player1_pokemon_data.last_battle_at = now;
        player2_pokemon_data.battles_lost = player2_pokemon_data.battles_lost + 1;
        player2_pokemon_data.last_battle_at = now;
        battle.winner = Some(battle.player1);
    } else {
        player2_mon.amount = player2_mon.amount + winner_amount;
        player2_pokemon_data.battles_won = player2_pokemon_data.battles_won + 1;
        player2_pokemon_data.last_battle_at = now;
        player1_pokemon_data.battles_lost = player1_pokemon_data.battles_lost + 1;
        player1_pokemon_data.last_battle_at = now;
        battle.winner = battle.player2;
    }
    battle.status = BattleStatus::Resolved;
    battle.resolved_at = Some(now);
    battle.escrow = None;
    Ok(())
}

} // verus!
