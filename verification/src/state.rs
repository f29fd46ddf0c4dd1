use vstd::prelude::*;

use crate::errors::ErrorCode;
use crate::rates::TokenRates;
use crate::rates::default_token_rates;
use crate::rates::spec_default_token_rates;

verus! {

/// The single persistent ledger record of one deployment. Identities are
/// opaque account numbers compared only for equality: `authority` may fund
/// the vault and replace the rates, `token_mint` names the rewarded asset,
/// and `vault` names the custody account holding reward inventory.
/// `total_distributed` counts every unit ever paid out of the vault through
/// this engine and only ever grows. `bump` is the derivation material from
/// which the engine reconstructs the vault's keyless authority on demand; no
/// private credential is ever stored. `is_initialized` guards against double
/// initialization.
#[derive(Clone, Copy, Debug, PartialEq, Eq, Structural)]
pub struct GameState {
    pub authority: u64,
    pub token_mint: u64,
    pub vault: u64,
    pub total_distributed: u64,
    pub token_rates: TokenRates,
    pub bump: u8,
    pub is_initialized: bool,
}

/// One-time setup of the ledger record: fixes the admin authority, the asset
/// and the vault identity, derives and stores the authority-proof material,
/// zeroes the distribution counter and installs the default rate table. A
/// second call on the same record fails with `AlreadyInitialized` and leaves
/// every field of the first call untouched.
pub fn initialize_token(
    game_state: &mut GameState,
    authority: u64,
    token_mint: u64,
    vault: u64,
    bump: u8,
) -> (result: Result<(), ErrorCode>)
    ensures
        match result {
            Ok(()) => !old(game_state).is_initialized && *final(game_state) == (GameState {
                authority,
                token_mint,
                vault,
                total_distributed: 0,
                token_rates: spec_default_token_rates(),
                bump,
                is_initialized: true,
            }),
            Err(e) => e == ErrorCode::AlreadyInitialized && old(game_state).is_initialized
                && *final(game_state) == *old(game_state),
        },
{
    if game_state.is_initialized {
        return Err(ErrorCode::AlreadyInitialized);
    }
    game_state.authority = authority;
    game_state.token_mint = token_mint;
    game_state.vault = vault;
    game_state.total_distributed = 0;
    game_state.token_rates = default_token_rates();
    game_state.bump = bump;
    game_state.is_initialized = true;
    Ok(())
}

/// Authority-gated wholesale replacement of the rate table: the caller must
/// be the admin authority of an initialized ledger; old rates are not
/// retained, no field-wise validation is applied, and every other ledger
/// field is left untouched. Any other caller is refused with `Unauthorized`
/// and nothing changes.
pub fn update_token_rates(
    game_state: &mut GameState,
    caller: u64,
    new_rates: TokenRates,
) -> (result: Result<(), ErrorCode>)
    ensures
        match result {
            Ok(()) => old(game_state).is_initialized && caller == old(game_state).authority
                && *final(game_state) == (GameState {
                token_rates: new_rates,
                ..*old(game_state)
            }),
            Err(e) => *final(game_state) == *old(game_state) && ((e
                == ErrorCode::GameStateNotInitialized && !old(game_state).is_initialized) || (e
                == ErrorCode::Unauthorized && old(game_state).is_initialized && caller != old(game_state).authority)),
        },
{
    if !game_state.is_initialized {
        return Err(ErrorCode::GameStateNotInitialized);
    }
    if caller != game_state.authority {
        return Err(ErrorCode::Unauthorized);
    }
    game_state.token_rates = new_rates;
    Ok(())
}

} // verus!
