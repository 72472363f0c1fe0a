use vstd::prelude::*;

use crate::errors::GameError;
use crate::state::{AccountId, Platform, PokemonData};

verus! {

/// Passes exactly when the caller is the platform administrator, and fails
/// with `Unauthorized` otherwise. A pure predicate with no side effect;
/// every administrator-gated operation consults it before touching state.
pub fn require_admin(caller: AccountId, platform: &Platform) -> (r: Result<(), GameError>)
    ensures
        r == if caller == platform.admin {
            Ok::<(), GameError>(())
        } else {
            Err::<(), GameError>(GameError::Unauthorized)
        },
{
    if caller == platform.admin {
        Ok(())
    } else {
        Err(GameError::Unauthorized)
    }
}

/// Passes exactly when the caller owns the asset, and fails with
/// `NotPokemonOwner` otherwise. Ownership is a plain field comparison.
pub fn require_owner(caller: AccountId, asset: &PokemonData) -> (r: Result<(), GameError>)
    ensures
        r == if caller == asset.owner {
            Ok::<(), GameError>(())
        } else {
            Err::<(), GameError>(GameError::NotPokemonOwner)
        },
{
    if caller == asset.owner {
        Ok(())
    } else {
        Err(GameError::NotPokemonOwner)
    }
}

} // verus!
