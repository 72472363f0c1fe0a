use vstd::prelude::*;

use crate::auth::{require_admin, require_owner};
use crate::errors::GameError;
use crate::state::{
    AccountId, MintId, Platform, PokemonData, PokemonTemplate, SoulStoneConfig, MAX_NAME_LEN,
    MAX_URI_LEN,
};
use crate::token::{burn_from, transfer, TokenAccount};

verus! {

/// Adds a catalog entry assets can be minted from. The entry starts active
/// with a zero mint counter.
///
/// Fails with `Unauthorized` when the caller is not the administrator, with
/// `NameTooLong` or `UriTooLong` when a text field exceeds its bound, with
/// `InvalidPrice` when the price is zero, and with `InvalidStats` when any
/// base stat is zero, in that order.
pub fn add_pokemon_template(
    caller: AccountId,
    platform: &Platform,
    template_id: u64,
    name: Vec<u8>,
    base_uri: Vec<u8>,
    price_in_mon: u64,
    hp: u16,
    attack: u16,
    defense: u16,
    speed: u16,
) -> (r: Result<PokemonTemplate, GameError>)
    ensures
        r is Err <==> (caller != platform.admin || name@.len() > MAX_NAME_LEN || base_uri@.len()
            > MAX_URI_LEN || price_in_mon == 0 || hp == 0 || attack == 0 || defense == 0 || speed
            == 0),
        r matches Err(e) ==> e == (if caller != platform.admin {
            GameError::Unauthorized
        } else if name@.len() > MAX_NAME_LEN {
            GameError::NameTooLong
        } else if base_uri@.len() > MAX_URI_LEN {
            GameError::UriTooLong
        } else if price_in_mon == 0 {
            GameError::InvalidPrice
        } else {
            GameError::InvalidStats
        }),
        r matches Ok(template) ==> ({
            &&& template.wf()
            &&& template.template_id == template_id
            &&& template.name@ == name@
            &&& template.base_uri@ == base_uri@
            &&& template.price_in_mon == price_in_mon
            &&& template.hp == hp
            &&& template.attack == attack
            &&& template.defense == defense
            &&& template.speed == speed
            &&& template.is_active
            &&& template.times_minted == 0
        }),
{
    match require_admin(caller, platform) {
        Ok(_) => {},
        Err(e) => {
            return Err(e);
        },
    }
    if name.len() > MAX_NAME_LEN {
        return Err(GameError::NameTooLong);
    }
    if base_uri.len() > MAX_URI_LEN {
        return Err(GameError::UriTooLong);
    }
    if price_in_mon == 0 {
        return Err(GameError::InvalidPrice);
    }
    if hp == 0 || attack == 0 || defense == 0 || speed == 0 {
        return Err(GameError::InvalidStats);
    }
    Ok(
        PokemonTemplate {
            template_id,
            name,
            base_uri,
            price_in_mon,
            hp,
            attack,
            defense,
            speed,
            is_active: true,
            times_minted: 0,
        },
    )
}

/// Mints a new asset from a template: the player pays the template's price
/// to the platform's account and receives a fresh asset record carrying the
/// template's stats at level one, stage zero.
///
/// Fails with `TemplateNotFound` when the template is inactive, with
/// `InsufficientMonTokens` when the player holds less than the price, and
/// with `MathOverflow` when a balance or counter would overflow, in that
/// order; on failure nothing changes — in particular, no counter moves.
pub fn mint_pokemon(
    player: AccountId,
    platform: &mut Platform,
    template: &mut PokemonTemplate,
    player_mon: &mut TokenAccount,
    platform_mon: &mut TokenAccount,
    template_id: u64,
    pokemon_mint: MintId,
    now: i64,
) -> (r: Result<PokemonData, GameError>)
    requires
        old(platform).wf(),
        old(template).wf(),
        old(template).template_id == template_id,
        old(player_mon).owner == player,
        old(player_mon).mint == old(platform).mon_token_mint,
        old(platform_mon).mint == old(platform).mon_token_mint,
    ensures
        final(platform).wf(),
        final(template).wf(),
        r is Err ==> ({
            &&& *final(platform) == *old(platform)
            &&& *final(template) == *old(template)
            &&& *final(player_mon) == *old(player_mon)
            &&& *final(platform_mon) == *old(platform_mon)
        }),
        r is Err <==> (!old(template).is_active || old(player_mon).amount < old(
            template,
        ).price_in_mon || old(platform_mon).amount + old(template).price_in_mon > u64::MAX || old(
            template,
        ).times_minted == u64::MAX || old(platform).total_pokemon_minted == u64::MAX),
        r matches Err(e) ==> e == (if !old(template).is_active {
            GameError::TemplateNotFound
        } else if old(player_mon).amount < old(template).price_in_mon {
            GameError::InsufficientMonTokens
        } else {
            GameError::MathOverflow
        }),
        r matches Ok(pokemon) ==> ({
            &&& pokemon.wf()
            &&& pokemon.owner == player
            &&& pokemon.mint == pokemon_mint
            &&& pokemon.template_id == template_id
            &&& pokemon.name@ == old(template).name@
            &&& pokemon.current_metadata_uri@ == old(template).base_uri@
            &&& pokemon.hp == old(template).hp
            &&& pokemon.attack == old(template).attack
            &&& pokemon.defense == old(template).defense
            &&& pokemon.speed == old(template).speed
            &&& pokemon.level == 1
            &&& pokemon.evolution_stage == 0
            &&& pokemon.battles_won == 0
            &&& pokemon.battles_lost == 0
            &&& pokemon.created_at == now
            &&& pokemon.last_battle_at == 0
            &&& *final(player_mon) == (TokenAccount {
                amount: (old(player_mon).amount - old(template).price_in_mon) as u64,
                ..*old(player_mon)
            })
            &&& *final(platform_mon) == (TokenAccount {
                amount: (old(platform_mon).amount + old(template).price_in_mon) as u64,
                ..*old(platform_mon)
            })
            &&& *final(template) == (PokemonTemplate {
                times_minted: (old(template).times_minted + 1) as u64,
                ..*old(template)
            })
            &&& *final(platform) == (Platform {
                total_pokemon_minted: (old(platform).total_pokemon_minted + 1) as u64,
                ..*old(platform)
            })
        }),
{
    if !template.is_active {
        return Err(GameError::TemplateNotFound);
    }
    if player_mon.amount < template.price_in_mon {
        return Err(GameError::InsufficientMonTokens);
    }
    // Check every arithmetic step before mutating anything, so that a
    // failure observes no partial state change.
    if platform_mon.amount > u64::MAX - template.price_in_mon {
        return Err(GameError::MathOverflow);
    }
    if template.times_minted == u64::MAX {
        return Err(GameError::MathOverflow);
    }
    if platform.total_pokemon_minted == u64::MAX {
        return Err(GameError::MathOverflow);
    }
    // Pay the mint price, then record the new asset with the template's
    // stats and bump both counters.
    transfer(player_mon, platform_mon, template.price_in_mon);
    let name = template.name.clone();
    let uri = template.base_uri.clone();
    proof {
        assert(name@ =~= template.name@);
        assert(uri@ =~= template.base_uri@);
    }
    template.times_minted = template.times_minted + 1;
    platform.total_pokemon_minted = platform.total_pokemon_minted + 1;
    Ok(
        PokemonData {
            owner: player,
            mint: pokemon_mint,
            template_id,
            name,
            current_metadata_uri: uri,
            hp: template.hp,
            attack: template.attack,
            defense: template.defense,
            speed: template.speed,
            level: 1,
            evolution_stage: 0,
            battles_won: 0,
            battles_lost: 0,
            created_at: now,
            last_battle_at: 0,
        },
    )
}

/// Sells one consumable token to the player for its configured native
/// price: the price moves from the player's native balance to the
/// administrator's, one unit is minted into the player's consumable
/// account, and the mint counter grows.
///
/// Fails with `InvalidPrice` when no price is configured, with
/// `InsufficientSol` when the player's native balance is below the price,
/// and with `MathOverflow` when a balance or counter would overflow, in
/// that order; nothing changes on failure.
pub fn mint_soul_stone(
    player: AccountId,
    player_lamports: &mut u64,
    admin_lamports: &mut u64,
    platform: &Platform,
    config: &mut SoulStoneConfig,
    player_soul_stone: &mut TokenAccount,
) -> (r: Result<(), GameError>)
    requires
        old(player_soul_stone).owner == player,
        old(player_soul_stone).mint == platform.soul_stone_mint,
    ensures
        r is Err ==> ({
            &&& *final(player_lamports) == *old(player_lamports)
            &&& *final(admin_lamports) == *old(admin_lamports)
            &&& *final(config) == *old(config)
            &&& *final(player_soul_stone) == *old(player_soul_stone)
        }),
        r is Err <==> (old(config).price_in_lamports == 0 || *old(player_lamports) < old(
            config,
        ).price_in_lamports || *old(admin_lamports) + old(config).price_in_lamports > u64::MAX
            || old(player_soul_stone).amount == u64::MAX || old(config).total_minted == u64::MAX),
        r matches Err(e) ==> e == (if old(config).price_in_lamports == 0 {
            GameError::InvalidPrice
        } else if *old(player_lamports) < old(config).price_in_lamports {
            GameError::InsufficientSol
        } else {
            GameError::MathOverflow
        }),
        r is Ok ==> ({
            &&& *final(player_lamports) == *old(player_lamports) - old(config).price_in_lamports
            &&& *final(admin_lamports) == *old(admin_lamports) + old(config).price_in_lamports
            &&& *final(player_soul_stone) == (TokenAccount {
                amount: (old(player_soul_stone).amount + 1) as u64,
                ..*old(player_soul_stone)
            })
            &&& *final(config) == (SoulStoneConfig {
                total_minted: (old(config).total_minted + 1) as u64,
                ..*old(config)
            })
        }),
{
    let price = config.price_in_lamports;
    if price == 0 {
        return Err(GameError::InvalidPrice);
    }
    if *player_lamports < price {
        return Err(GameError::InsufficientSol);
    }
    // Check every arithmetic step before mutating anything, so that a
    // failure observes no partial state change.
    if *admin_lamports > u64::MAX - price {
        return Err(GameError::MathOverflow);
    }
    if player_soul_stone.amount == u64::MAX {
        return Err(GameError::MathOverflow);
    }
    if config.total_minted == u64::MAX {
        return Err(GameError::MathOverflow);
    }
    // Pay the administrator in native units, then mint one unit.
    *player_lamports = *player_lamports - price;
    *admin_lamports = *admin_lamports + price;
    player_soul_stone.amount = player_soul_stone.amount + 1;
    config.total_minted = config.total_minted + 1;
    Ok(())
}

/// Evolves an asset: burns exactly one consumable unit from its owner and,
/// in exchange, overwrites the stats and the media reference and raises the
/// evolution stage and the level by exactly one each.
///
/// Fails with `UriTooLong` when the media reference exceeds its bound, with
/// `InvalidStats` when any new stat is zero, with `NoSoulStone` when the
/// owner holds no consumable unit, with `NotPokemonOwner` when the caller
/// does not own the asset, with `InvalidPokemonMint` when the record does
/// not belong to the supplied asset identifier, and with `MathOverflow`
/// when stage or level is exhausted, in that order; nothing changes on
/// failure — a failed call burns nothing.
pub fn evolve_pokemon(
    player: AccountId,
    platform: &Platform,
    pokemon_data: &mut PokemonData,
    player_soul_stone: &mut TokenAccount,
    pokemon_mint: MintId,
    new_metadata_uri: Vec<u8>,
    new_hp: u16,
    new_attack: u16,
    new_defense: u16,
    new_speed: u16,
) -> (r: Result<(), GameError>)
    requires
        old(pokemon_data).wf(),
        old(player_soul_stone).owner == player,
        old(player_soul_stone).mint == platform.soul_stone_mint,
    ensures
        final(pokemon_data).wf(),
        r is Err ==> *final(pokemon_data) == *old(pokemon_data) && *final(player_soul_stone)
            == *old(player_soul_stone),
        r is Err <==> (new_metadata_uri@.len() > MAX_URI_LEN || new_hp == 0 || new_attack == 0
            || new_defense == 0 || new_speed == 0 || old(player_soul_stone).amount < 1 || old(
            pokemon_data,
        ).owner != player || old(pokemon_data).mint != pokemon_mint || old(
            pokemon_data,
        ).evolution_stage == u8::MAX || old(pokemon_data).level == u8::MAX),
        r matches Err(e) ==> e == (if new_metadata_uri@.len() > MAX_URI_LEN {
            GameError::UriTooLong
        } else if new_hp == 0 || new_attack == 0 || new_defense == 0 || new_speed == 0 {
            GameError::InvalidStats
        } else if old(player_soul_stone).amount < 1 {
            GameError::NoSoulStone
        } else if old(pokemon_data).owner != player {
            GameError::NotPokemonOwner
        } else if old(pokemon_data).mint != pokemon_mint {
            GameError::InvalidPokemonMint
        } else {
            GameError::MathOverflow
        }),
        r is Ok ==> ({
            // Exactly one consumable unit is burned, and stage and level
            // each rise by exactly one.
            &&& *final(player_soul_stone) == (TokenAccount {
                amount: (old(player_soul_stone).amount - 1) as u64,
                ..*old(player_soul_stone)
            })
            &&& *final(pokemon_data) == (PokemonData {
                current_metadata_uri: new_metadata_uri,
                hp: new_hp,
                attack: new_attack,
                defense: new_defense,
                speed: new_speed,
                evolution_stage: (old(pokemon_data).evolution_stage + 1) as u8,
                level: (old(pokemon_data).level + 1) as u8,
                ..*old(pokemon_data)
            })
        }),
{
    if new_metadata_uri.len() > MAX_URI_LEN {
        return Err(GameError::UriTooLong);
    }
    if new_hp == 0 || new_attack == 0 || new_defense == 0 || new_speed == 0 {
        return Err(GameError::InvalidStats);
    }
    if player_soul_stone.amount < 1 {
        return Err(GameError::NoSoulStone);
    }
    match require_owner(player, pokemon_data) {
        Ok(_) => {},
        Err(e) => {
            return Err(e);
        },
    }
    if pokemon_data.mint != pokemon_mint {
        return Err(GameError::InvalidPokemonMint);
    }
    // Check both counters before mutating anything, so that a failure
    // observes no partial state change.
    if pokemon_data.evolution_stage == u8::MAX {
        return Err(GameError::MathOverflow);
    }
    if pokemon_data.level == u8::MAX {
        return Err(GameError::MathOverflow);
    }
    // Burn the consumable, then apply the evolution.
    burn_from(player_soul_stone, 1);
    pokemon_data.current_metadata_uri = new_metadata_uri;
    pokemon_data.hp = new_hp;
    pokemon_data.attack = new_attack;
    pokemon_data.defense = new_defense;
    pokemon_data.speed = new_speed;
    pokemon_data.evolution_stage = pokemon_data.evolution_stage + 1;
    pokemon_data.level = pokemon_data.level + 1;
    Ok(())
}

/// Replay safety of evolution: a successful evolution burns exactly one
/// consumable unit (its contract relates the holding before and after by
/// exactly one), so a holding that funded two successive burns held at
/// least two units to begin with — one unit can never fund the same
/// evolution twice.
pub proof fn lemma_two_evolutions_need_two_units(
    before_first: u64,
    before_second: u64,
    after_second: u64,
)
    requires
        before_second == before_first - 1,
        after_second == before_second - 1,
    ensures
        before_first >= 2,
{
}

/// Replaces an asset's media reference at its owner's request.
///
/// Fails with `NotPokemonOwner` when the caller does not own the asset,
/// with `UriTooLong` when the new reference exceeds its bound, and with
/// `InvalidMetadataUri` when it is empty, in that order; the record is
/// unchanged on failure.
pub fn update_pokemon_metadata(
    caller: AccountId,
    pokemon_data: &mut PokemonData,
    new_uri: Vec<u8>,
) -> (r: Result<(), GameError>)
    requires
        old(pokemon_data).wf(),
    ensures
        final(pokemon_data).wf(),
        r is Err ==> *final(pokemon_data) == *old(pokemon_data),
        r is Err <==> (old(pokemon_data).owner != caller || new_uri@.len() > MAX_URI_LEN
            || new_uri@.len() == 0),
        r matches Err(e) ==> e == (if old(pokemon_data).owner != caller {
            GameError::NotPokemonOwner
        } else if new_uri@.len() > MAX_URI_LEN {
            GameError::UriTooLong
        } else {
            GameError::InvalidMetadataUri
        }),
        r is Ok ==> *final(pokemon_data) == (PokemonData {
            current_metadata_uri: new_uri,
            ..*old(pokemon_data)
        }),
{
    match require_owner(caller, pokemon_data) {
        Ok(_) => {},
        Err(e) => {
            return Err(e);
        },
    }
    if new_uri.len() > MAX_URI_LEN {
        return Err(GameError::UriTooLong);
    }
    if new_uri.len() == 0 {
        return Err(GameError::InvalidMetadataUri);
    }
    pokemon_data.current_metadata_uri = new_uri;
    Ok(())
}

} // verus!
