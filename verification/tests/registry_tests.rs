use genetix::auth::{require_admin, require_owner};
use genetix::errors::GameError;
use genetix::platform::{create_mon_token, create_soul_stone_token, initialize_platform, set_soul_stone_price};
use genetix::registry::{
    add_pokemon_template, evolve_pokemon, mint_pokemon, mint_soul_stone, update_pokemon_metadata,
};
use genetix::state::{Platform, PokemonData, PokemonTemplate};
use genetix::token::TokenAccount;

const ADMIN: u64 = 1;
const PLAYER: u64 = 100;
const MON_MINT: u64 = 11;
const STONE_MINT: u64 = 12;

fn fresh_platform() -> Platform {
    let (mut platform, _) = initialize_platform(ADMIN, 500).unwrap();
    create_mon_token(ADMIN, &mut platform, MON_MINT).unwrap();
    create_soul_stone_token(ADMIN, &mut platform, STONE_MINT).unwrap();
    platform
}

fn fresh_template(platform: &Platform) -> PokemonTemplate {
    add_pokemon_template(
        ADMIN,
        platform,
        5,
        b"Bulbasaur".to_vec(),
        b"ipfs://bulbasaur".to_vec(),
        1_000,
        45,
        49,
        49,
        45,
    )
    .unwrap()
}

fn fresh_pokemon(owner: u64, mint: u64) -> PokemonData {
    PokemonData {
        owner,
        mint,
        template_id: 5,
        name: b"Bulbasaur".to_vec(),
        current_metadata_uri: b"ipfs://bulbasaur".to_vec(),
        hp: 45,
        attack: 49,
        defense: 49,
        speed: 45,
        level: 1,
        evolution_stage: 0,
        battles_won: 0,
        battles_lost: 0,
        created_at: 0,
        last_battle_at: 0,
    }
}

#[test]
fn guards_compare_identities() {
    let platform = fresh_platform();
    assert_eq!(require_admin(ADMIN, &platform), Ok(()));
    assert_eq!(require_admin(99, &platform), Err(GameError::Unauthorized));
    let pokemon = fresh_pokemon(PLAYER, 41);
    assert_eq!(require_owner(PLAYER, &pokemon), Ok(()));
    assert_eq!(require_owner(99, &pokemon), Err(GameError::NotPokemonOwner));
}

#[test]
fn template_fields_are_validated_in_order() {
    let platform = fresh_platform();
    let long_name = vec![b'a'; 33];
    let long_uri = vec![b'u'; 201];
    assert_eq!(
        add_pokemon_template(99, &platform, 5, b"x".to_vec(), b"u".to_vec(), 1, 1, 1, 1, 1)
            .unwrap_err(),
        GameError::Unauthorized
    );
    assert_eq!(
        add_pokemon_template(ADMIN, &platform, 5, long_name, b"u".to_vec(), 1, 1, 1, 1, 1)
            .unwrap_err(),
        GameError::NameTooLong
    );
    assert_eq!(
        add_pokemon_template(ADMIN, &platform, 5, b"x".to_vec(), long_uri, 1, 1, 1, 1, 1)
            .unwrap_err(),
        GameError::UriTooLong
    );
    assert_eq!(
        add_pokemon_template(ADMIN, &platform, 5, b"x".to_vec(), b"u".to_vec(), 0, 1, 1, 1, 1)
            .unwrap_err(),
        GameError::InvalidPrice
    );
    assert_eq!(
        add_pokemon_template(ADMIN, &platform, 5, b"x".to_vec(), b"u".to_vec(), 1, 1, 0, 1, 1)
            .unwrap_err(),
        GameError::InvalidStats
    );
    let template = fresh_template(&platform);
    assert!(template.is_active);
    assert_eq!(template.times_minted, 0);
    assert_eq!(template.name, b"Bulbasaur".to_vec());
}

#[test]
fn minting_copies_template_and_moves_price() {
    let mut platform = fresh_platform();
    let mut template = fresh_template(&platform);
    let mut player_mon = TokenAccount { owner: PLAYER, mint: MON_MINT, amount: 1_500 };
    let mut platform_mon = TokenAccount { owner: ADMIN, mint: MON_MINT, amount: 0 };
    let pokemon = mint_pokemon(
        PLAYER,
        &mut platform,
        &mut template,
        &mut player_mon,
        &mut platform_mon,
        5,
        41,
        777,
    )
    .unwrap();
    assert_eq!(player_mon.amount, 500);
    assert_eq!(platform_mon.amount, 1_000);
    assert_eq!(template.times_minted, 1);
    assert_eq!(platform.total_pokemon_minted, 1);
    assert_eq!(pokemon.owner, PLAYER);
    assert_eq!(pokemon.mint, 41);
    assert_eq!(pokemon.name, b"Bulbasaur".to_vec());
    assert_eq!(pokemon.hp, 45);
    assert_eq!(pokemon.level, 1);
    assert_eq!(pokemon.evolution_stage, 0);
    assert_eq!(pokemon.created_at, 777);
}

#[test]
fn inactive_template_rejects_minting_and_no_counter_moves() {
    let mut platform = fresh_platform();
    let mut template = fresh_template(&platform);
    template.is_active = false;
    let mut player_mon = TokenAccount { owner: PLAYER, mint: MON_MINT, amount: 1_500 };
    let mut platform_mon = TokenAccount { owner: ADMIN, mint: MON_MINT, amount: 0 };
    assert_eq!(
        mint_pokemon(
            PLAYER,
            &mut platform,
            &mut template,
            &mut player_mon,
            &mut platform_mon,
            5,
            41,
            777,
        )
        .unwrap_err(),
        GameError::TemplateNotFound
    );
    assert_eq!(template.times_minted, 0);
    assert_eq!(platform.total_pokemon_minted, 0);
    assert_eq!(player_mon.amount, 1_500);
    assert_eq!(platform_mon.amount, 0);
}

#[test]
fn minting_needs_the_full_price() {
    let mut platform = fresh_platform();
    let mut template = fresh_template(&platform);
    let mut player_mon = TokenAccount { owner: PLAYER, mint: MON_MINT, amount: 999 };
    let mut platform_mon = TokenAccount { owner: ADMIN, mint: MON_MINT, amount: 0 };
    assert_eq!(
        mint_pokemon(
            PLAYER,
            &mut platform,
            &mut template,
            &mut player_mon,
            &mut platform_mon,
            5,
            41,
            777,
        )
        .unwrap_err(),
        GameError::InsufficientMonTokens
    );
    assert_eq!(player_mon.amount, 999);
}

#[test]
fn consumable_sale_moves_native_price_and_mints_one() {
    let mut platform = fresh_platform();
    let mut config = create_soul_stone_token(ADMIN, &mut platform, STONE_MINT).unwrap();
    set_soul_stone_price(ADMIN, &mut platform, &mut config, 1_000_000).unwrap();
    let mut player_lamports: u64 = 2_500_000;
    let mut admin_lamports: u64 = 10;
    let mut stones = TokenAccount { owner: PLAYER, mint: STONE_MINT, amount: 0 };
    assert_eq!(
        mint_soul_stone(
            PLAYER,
            &mut player_lamports,
            &mut admin_lamports,
            &platform,
            &mut config,
            &mut stones,
        ),
        Ok(())
    );
    assert_eq!(player_lamports, 1_500_000);
    assert_eq!(admin_lamports, 1_000_010);
    assert_eq!(stones.amount, 1);
    assert_eq!(config.total_minted, 1);
}

#[test]
fn consumable_sale_validates_price_and_funds() {
    let mut platform = fresh_platform();
    let mut config = create_soul_stone_token(ADMIN, &mut platform, STONE_MINT).unwrap();
    let mut player_lamports: u64 = 2_500_000;
    let mut admin_lamports: u64 = 0;
    let mut stones = TokenAccount { owner: PLAYER, mint: STONE_MINT, amount: 0 };
    // No price configured yet.
    assert_eq!(
        mint_soul_stone(
            PLAYER,
            &mut player_lamports,
            &mut admin_lamports,
            &platform,
            &mut config,
            &mut stones,
        ),
        Err(GameError::InvalidPrice)
    );
    set_soul_stone_price(ADMIN, &mut platform, &mut config, 3_000_000).unwrap();
    assert_eq!(
        mint_soul_stone(
            PLAYER,
            &mut player_lamports,
            &mut admin_lamports,
            &platform,
            &mut config,
            &mut stones,
        ),
        Err(GameError::InsufficientSol)
    );
    assert_eq!(player_lamports, 2_500_000);
    assert_eq!(stones.amount, 0);
    assert_eq!(config.total_minted, 0);
}

#[test]
fn evolution_burns_one_unit_and_raises_stage_and_level_by_one() {
    let platform = fresh_platform();
    let mut pokemon = fresh_pokemon(PLAYER, 41);
    let mut stones = TokenAccount { owner: PLAYER, mint: STONE_MINT, amount: 3 };
    assert_eq!(
        evolve_pokemon(
            PLAYER,
            &platform,
            &mut pokemon,
            &mut stones,
            41,
            b"ipfs://ivysaur".to_vec(),
            60,
            62,
            63,
            60,
        ),
        Ok(())
    );
    assert_eq!(stones.amount, 2);
    assert_eq!(pokemon.evolution_stage, 1);
    assert_eq!(pokemon.level, 2);
    assert_eq!(pokemon.hp, 60);
    assert_eq!(pokemon.current_metadata_uri, b"ipfs://ivysaur".to_vec());
    assert_eq!(pokemon.battles_won, 0);
}

#[test]
fn evolving_twice_takes_two_separate_units() {
    let platform = fresh_platform();
    let mut pokemon = fresh_pokemon(PLAYER, 41);
    let mut stones = TokenAccount { owner: PLAYER, mint: STONE_MINT, amount: 1 };
    assert_eq!(
        evolve_pokemon(
            PLAYER,
            &platform,
            &mut pokemon,
            &mut stones,
            41,
            b"ipfs://ivysaur".to_vec(),
            60,
            62,
            63,
            60,
        ),
        Ok(())
    );
    assert_eq!(stones.amount, 0);
    assert_eq!(pokemon.evolution_stage, 1);
    // The single unit is spent: replaying the same call burns nothing and
    // changes nothing.
    assert_eq!(
        evolve_pokemon(
            PLAYER,
            &platform,
            &mut pokemon,
            &mut stones,
            41,
            b"ipfs://ivysaur".to_vec(),
            60,
            62,
            63,
            60,
        ),
        Err(GameError::NoSoulStone)
    );
    assert_eq!(stones.amount, 0);
    assert_eq!(pokemon.evolution_stage, 1);
    assert_eq!(pokemon.level, 2);
}

#[test]
fn evolution_validates_inputs_in_order() {
    let platform = fresh_platform();
    let mut pokemon = fresh_pokemon(PLAYER, 41);
    let mut stones = TokenAccount { owner: PLAYER, mint: STONE_MINT, amount: 1 };
    let long_uri = vec![b'u'; 201];
    assert_eq!(
        evolve_pokemon(PLAYER, &platform, &mut pokemon, &mut stones, 41, long_uri, 1, 1, 1, 1),
        Err(GameError::UriTooLong)
    );
    assert_eq!(
        evolve_pokemon(
            PLAYER, &platform, &mut pokemon, &mut stones, 41, b"u".to_vec(), 1, 0, 1, 1
        ),
        Err(GameError::InvalidStats)
    );
    let mut intruder_stones = TokenAccount { owner: 99, mint: STONE_MINT, amount: 1 };
    assert_eq!(
        evolve_pokemon(
            99, &platform, &mut pokemon, &mut intruder_stones, 41, b"u".to_vec(), 1, 1, 1, 1
        ),
        Err(GameError::NotPokemonOwner)
    );
    assert_eq!(intruder_stones.amount, 1);
    assert_eq!(
        evolve_pokemon(
            PLAYER, &platform, &mut pokemon, &mut stones, 42, b"u".to_vec(), 1, 1, 1, 1
        ),
        Err(GameError::InvalidPokemonMint)
    );
    assert_eq!(stones.amount, 1);
    assert_eq!(pokemon.evolution_stage, 0);
}

#[test]
fn evolution_fails_when_stage_is_exhausted() {
    let platform = fresh_platform();
    let mut pokemon = fresh_pokemon(PLAYER, 41);
    pokemon.evolution_stage = u8::MAX;
    let mut stones = TokenAccount { owner: PLAYER, mint: STONE_MINT, amount: 1 };
    assert_eq!(
        evolve_pokemon(
            PLAYER, &platform, &mut pokemon, &mut stones, 41, b"u".to_vec(), 1, 1, 1, 1
        ),
        Err(GameError::MathOverflow)
    );
    assert_eq!(stones.amount, 1);
    assert_eq!(pokemon.level, 1);
}

#[test]
fn metadata_update_is_owner_gated_and_validated() {
    let mut pokemon = fresh_pokemon(PLAYER, 41);
    assert_eq!(
        update_pokemon_metadata(99, &mut pokemon, b"ipfs://new".to_vec()),
        Err(GameError::NotPokemonOwner)
    );
    let long_uri = vec![b'u'; 201];
    assert_eq!(
        update_pokemon_metadata(PLAYER, &mut pokemon, long_uri),
        Err(GameError::UriTooLong)
    );
    assert_eq!(
        update_pokemon_metadata(PLAYER, &mut pokemon, Vec::new()),
        Err(GameError::InvalidMetadataUri)
    );
    assert_eq!(pokemon.current_metadata_uri, b"ipfs://bulbasaur".to_vec());
    assert_eq!(
        update_pokemon_metadata(PLAYER, &mut pokemon, b"ipfs://new".to_vec()),
        Ok(())
    );
    assert_eq!(pokemon.current_metadata_uri, b"ipfs://new".to_vec());
}
