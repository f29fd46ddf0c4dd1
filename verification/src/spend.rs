use vstd::prelude::*;

use crate::errors::ErrorCode;
use crate::events::TokenSpend;
use crate::state::GameState;

verus! {

/// The closed set of things a player can destroy value for.
#[derive(Clone, Copy, Debug, PartialEq, Eq, Structural)]
pub enum SpendType {
    TournamentEntry,
    CarUpgrade,
    CarCustomization,
    StakingBoost,
}

/// Player-authorized redemption: permanently removes `amount` from the
/// player's own balance — no custody authority is involved, the player signs
/// for their own funds — and appends exactly one spend record. A balance
/// below `amount` is refused with `InsufficientBalance`; nothing is ever
/// partially destroyed.
pub fn spend_tokens(
    game_state: &GameState,
    player: u64,
    player_balance: &mut u64,
    amount: u64,
    spend_type: SpendType,
    timestamp: i64,
    spend_log: &mut Vec<TokenSpend>,
) -> (result: Result<(), ErrorCode>)
    ensures
        match result {
            Ok(()) => game_state.is_initialized && amount <= *old(player_balance) && *final(player_balance) == *old(player_balance) - amount && final(spend_log)@ == old(spend_log)@.push(
                TokenSpend { player, amount, spend_type, timestamp },
            ),
            Err(e) => *final(player_balance) == *old(player_balance) && final(spend_log)@ == old(spend_log)@ && ((e == ErrorCode::GameStateNotInitialized && !game_state.is_initialized) || (e
                == ErrorCode::InsufficientBalance && game_state.is_initialized && amount > *old(player_balance))),
        },
{
    if !game_state.is_initialized {
        return Err(ErrorCode::GameStateNotInitialized);
    }
    if amount > *player_balance {
        return Err(ErrorCode::InsufficientBalance);
    }
    *player_balance = *player_balance - amount;
    spend_log.push(TokenSpend { player, amount, spend_type, timestamp });
    Ok(())
}

} // verus!
