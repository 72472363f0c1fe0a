use vstd::prelude::*;

verus! {

/// Failure kinds surfaced by the platform's operations.
///
/// Every operation fails with a specific kind so a caller can tell
/// authorization failures from validation failures, exhausted balances,
/// state conflicts and arithmetic overflow. No error is recovered
/// silently, and an operation that fails leaves no observable state change.
#[derive(Clone, Copy, Debug, PartialEq, Eq, Structural)]
pub enum GameError {
    /// The caller is not the platform administrator.
    Unauthorized,
    /// A fee rate above 10000 basis points was supplied.
    InvalidFeePercentage,
    /// An asset template with this identifier already exists.
    TemplateAlreadyExists,
    /// The asset template does not exist or is inactive.
    TemplateNotFound,
    /// The caller's utility-token balance is below the required amount.
    InsufficientMonTokens,
    /// The caller's native balance is below the consumable's price.
    InsufficientSol,
    /// The caller holds no consumable token to burn.
    NoSoulStone,
    /// The battle already has two players.
    BattleAlreadyFull,
    /// The battle has no second player yet and cannot be resolved.
    BattleNotReady,
    /// The battle was already resolved.
    BattleAlreadyResolved,
    /// The operation is not valid for the battle's current status.
    InvalidBattleStatus,
    /// The caller is not one of the battle's players.
    NotBattleParticipant,
    /// A player may not join a battle they created.
    CannotJoinOwnBattle,
    /// The asset record does not belong to the supplied asset identifier.
    InvalidPokemonMint,
    /// The caller does not own the asset.
    NotPokemonOwner,
    /// An arithmetic step would overflow its integer width.
    MathOverflow,
    /// The supplied media reference is empty.
    InvalidMetadataUri,
    /// The supplied name exceeds the length bound.
    NameTooLong,
    /// The supplied media reference exceeds the length bound.
    UriTooLong,
    /// A stat value of zero was supplied.
    InvalidStats,
    /// A price or amount of zero was supplied.
    InvalidPrice,
    /// The fee custody balance is below the requested withdrawal.
    InsufficientBalance,
    /// The supplied metadata record is not the one derived for the asset.
    InvalidMetadataAccount,
}

} // verus!
