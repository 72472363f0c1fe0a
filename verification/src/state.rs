use vstd::prelude::*;

verus! {

/// Identity of an account holder: a player, the administrator, or a
/// system-owned record. Identities are compared by value; holding the right
/// identity is what authorizes an operation.
pub type AccountId = u64;

/// Stable identifier of a token kind or of a minted asset.
pub type MintId = u64;

/// Longest accepted display name, in bytes.
pub const MAX_NAME_LEN: usize = 32;

/// Longest accepted media reference, in bytes.
pub const MAX_URI_LEN: usize = 200;

/// Platform configuration singleton: the administrator identity, the two
/// token kinds of the economy, the consumable's price, the current fee rate
/// and the running counters. Created once at bootstrap and mutated only
/// through operations guarded by the administrator identity.
#[derive(Clone, Copy, Debug)]
pub struct Platform {
    pub admin: AccountId,
    pub mon_token_mint: MintId,
    pub soul_stone_mint: MintId,
    pub soul_stone_price_lamports: u64,
    /// Fee rate in basis points; at most 10000.
    pub platform_fee_percentage: u16,
    pub total_pokemon_minted: u64,
    pub total_battles: u64,
}

impl Platform {
    /// The platform invariant: the fee rate never exceeds the whole.
    pub open spec fn wf(&self) -> bool {
        self.platform_fee_percentage <= 10000
    }
}

/// Catalog entry an asset can be minted from. Created by the administrator;
/// toggled inactive rather than deleted; its stats are copied onto each
/// minted asset and never change one retroactively.
#[derive(Clone, Debug)]
pub struct PokemonTemplate {
    pub template_id: u64,
    pub name: Vec<u8>,
    pub base_uri: Vec<u8>,
    pub price_in_mon: u64,
    pub hp: u16,
    pub attack: u16,
    pub defense: u16,
    pub speed: u16,
    pub is_active: bool,
    pub times_minted: u64,
}

impl PokemonTemplate {
    /// The template invariant: bounded name and media reference, a positive
    /// price, and strictly positive base stats.
    pub open spec fn wf(&self) -> bool {
        &&& self.name@.len() <= MAX_NAME_LEN
        &&& self.base_uri@.len() <= MAX_URI_LEN
        &&& self.price_in_mon > 0
        &&& self.hp > 0
        &&& self.attack > 0
        &&& self.defense > 0
        &&& self.speed > 0
    }
}

/// A minted creature asset. Ownership is a plain field comparison; the
/// record is mutated by evolution and by battle resolution and never
/// destroyed.
#[derive(Clone, Debug)]
pub struct PokemonData {
    pub owner: AccountId,
    pub mint: MintId,
    pub template_id: u64,
    pub name: Vec<u8>,
    pub current_metadata_uri: Vec<u8>,
    pub hp: u16,
    pub attack: u16,
    pub defense: u16,
    pub speed: u16,
    pub level: u8,
    pub evolution_stage: u8,
    pub battles_won: u32,
    pub battles_lost: u32,
    pub created_at: i64,
    pub last_battle_at: i64,
}

impl PokemonData {
    /// The asset invariant: bounded name and media reference, strictly
    /// positive stats, and a level of at least one.
    pub open spec fn wf(&self) -> bool {
        &&& self.name@.len() <= MAX_NAME_LEN
        &&& self.current_metadata_uri@.len() <= MAX_URI_LEN
        &&& self.hp > 0
        &&& self.attack > 0
        &&& self.defense > 0
        &&& self.speed > 0
        &&& self.level >= 1
    }
}

/// Lifecycle states of a battle. A battle waits for a second player, runs,
/// and is resolved; `Cancelled` is declared in the model but no operation
/// currently reaches it, so a battle stuck waiting has no refund path.
#[derive(Clone, Copy, Debug, PartialEq, Eq, Structural)]
pub enum BattleStatus {
    WaitingForPlayer2,
    InProgress,
    Resolved,
    Cancelled,
}

/// A player-versus-player battle and its escrow. The `escrow` field is the
/// battle's custody account: a system-owned balance that only the escrow
/// operations of this library move, holding exactly the stake of each joined
/// player until resolution closes it.
#[derive(Clone, Copy, Debug)]
pub struct Battle {
    pub battle_id: u64,
    pub player1: AccountId,
    pub player2: Option<AccountId>,
    pub player1_pokemon: MintId,
    pub player2_pokemon: Option<MintId>,
    pub stake_amount: u64,
    pub platform_fee_amount: u64,
    pub status: BattleStatus,
    pub winner: Option<AccountId>,
    pub created_at: i64,
    pub resolved_at: Option<i64>,
    /// Balance of the custody account, or `None` once it has been closed.
    pub escrow: Option<u64>,
}

impl Battle {
    /// The battle invariant. The stored fee never exceeds the stake, and
    /// each status pins down which optional fields are set and exactly how
    /// much the custody account holds: one stake while waiting, two stakes
    /// while in progress, and nothing (the account is closed) once resolved.
    pub open spec fn wf(&self) -> bool {
        &&& self.platform_fee_amount <= self.stake_amount
        &&& match self.status {
            BattleStatus::WaitingForPlayer2 => {
                &&& self.player2 is None
                &&& self.player2_pokemon is None
                &&& self.winner is None
                &&& self.resolved_at is None
                &&& self.escrow == Some(self.stake_amount)
            },
            BattleStatus::InProgress => {
                &&& self.player2 is Some
                &&& self.player2_pokemon is Some
                &&& self.winner is None
                &&& self.resolved_at is None
                &&& (self.escrow matches Some(bal) && bal == self.stake_amount * 2)
            },
            BattleStatus::Resolved => {
                &&& self.player2 is Some
                &&& self.player2_pokemon is Some
                &&& self.winner is Some
                &&& self.resolved_at is Some
                &&& self.escrow is None
            },
            BattleStatus::Cancelled => {
                &&& self.player2 is None
                &&& self.winner is None
            },
        }
    }
}

/// Consumable-token configuration: its mint, its price in native units, and
/// how many units were ever minted.
#[derive(Clone, Copy, Debug)]
pub struct SoulStoneConfig {
    pub mint: MintId,
    pub price_in_lamports: u64,
    pub total_minted: u64,
}

/// Treasury singleton. `total_fees_collected` is a lifetime audit counter
/// that only grows; `fee_vault_balance` is the custodied fee balance, which
/// battle resolution feeds and an administrator withdrawal drains.
#[derive(Clone, Copy, Debug)]
pub struct PlatformTreasury {
    pub total_fees_collected: u64,
    pub fee_vault_balance: u64,
}

} // verus!
