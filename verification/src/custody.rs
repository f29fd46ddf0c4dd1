use vstd::prelude::*;

use crate::errors::ErrorCode;
use crate::events::RewardType;
use crate::events::TokenReward;
use crate::state::GameState;

verus! {

/// Moves `amount` out of the custody vault into a player's balance, the only
/// debit path the vault has. In the deployed setting the debit is authorized
/// by the keyless capability the engine reconstructs on demand from the
/// ledger record's derivation material (`GameState::bump`), never by a stored
/// credential; here that capability is exactly this function's crate-private
/// visibility, so no outside caller — the admin authority included — can
/// debit the vault directly. The move is atomic: either the whole amount
/// moves or, when the vault holds less than `amount`, nothing does.
///
/// Both balances belong to one asset whose total supply fits in the unsigned
/// 64-bit range, so their sum does too; that is the only precondition.
pub(crate) fn transfer_tokens_from_vault(
    vault_balance: &mut u64,
    player_balance: &mut u64,
    amount: u64,
) -> (result: Result<(), ErrorCode>)
    requires
        *old(vault_balance) + *old(player_balance) <= u64::MAX,
    ensures
        match result {
            Ok(()) => amount <= *old(vault_balance) && *final(vault_balance) == *old(vault_balance)
                - amount && *final(player_balance) == *old(player_balance) + amount,
            Err(e) => e == ErrorCode::InsufficientBalance && amount > *old(vault_balance)
                && *final(vault_balance) == *old(vault_balance) && *final(player_balance) == *old(player_balance),
        },
{
    if amount > *vault_balance {
        return Err(ErrorCode::InsufficientBalance);
    }
    *vault_balance = *vault_balance - amount;
    *player_balance = *player_balance + amount;
    Ok(())
}

/// What one successful payout leaves behind: the record's amount moved out of
/// the vault into the player's balance, the distribution counter grown by
/// exactly that amount, and exactly the one record appended to the payout
/// log. Solvency held before the move, so the vault balance cannot go below
/// zero.
pub open spec fn payout_applied(
    pre: GameState,
    post: GameState,
    vault_pre: u64,
    vault_post: u64,
    balance_pre: u64,
    balance_post: u64,
    log_pre: Seq<TokenReward>,
    log_post: Seq<TokenReward>,
    record: TokenReward,
) -> bool {
    &&& pre.is_initialized
    &&& record.amount <= vault_pre
    &&& pre.total_distributed + record.amount <= u64::MAX
    &&& vault_post == vault_pre - record.amount
    &&& balance_post == balance_pre + record.amount
    &&& post == (GameState {
        total_distributed: (pre.total_distributed + record.amount) as u64,
        ..pre
    })
    &&& log_post == log_pre.push(record)
}

/// What a refused payout leaves behind: the ledger record, both balances and
/// the payout log exactly as they stood — no partial effect survives a
/// failure.
pub open spec fn payout_unchanged(
    pre: GameState,
    post: GameState,
    vault_pre: u64,
    vault_post: u64,
    balance_pre: u64,
    balance_post: u64,
    log_pre: Seq<TokenReward>,
    log_post: Seq<TokenReward>,
) -> bool {
    &&& post == pre
    &&& vault_post == vault_pre
    &&& balance_post == balance_pre
    &&& log_post == log_pre
}

/// Exactly when a payout of `amount` is refused, and with which error: an
/// uninitialized ledger, then a vault holding less than the amount, then a
/// distribution counter that would overflow. A refused payout changes
/// nothing.
pub open spec fn payout_refusal(pre: GameState, vault_pre: u64, amount: u64, e: ErrorCode) -> bool {
    ||| (e == ErrorCode::GameStateNotInitialized && !pre.is_initialized)
    ||| (e == ErrorCode::InsufficientVaultBalance && pre.is_initialized && amount > vault_pre)
    ||| (e == ErrorCode::InvalidRewardAmount && pre.is_initialized && amount <= vault_pre
        && pre.total_distributed + amount > u64::MAX)
}

/// The solvency-checked payout path: moves a computed reward out of the
/// custody vault into the player's balance, bumps the cumulative distribution
/// counter by exactly that amount and appends exactly one payout record — or
/// refuses and changes nothing. Refusals, in the order tested: the ledger is
/// not initialized; the vault holds less than `amount`
/// (`InsufficientVaultBalance`); the distribution counter would overflow
/// (`InvalidRewardAmount`). Success is owed in every other case.
pub fn payout(
    game_state: &mut GameState,
    vault_balance: &mut u64,
    player_balance: &mut u64,
    player: u64,
    amount: u64,
    reward_type: RewardType,
    correlation_id: u64,
    timestamp: i64,
    rewards_log: &mut Vec<TokenReward>,
) -> (result: Result<(), ErrorCode>)
    requires
        *old(vault_balance) + *old(player_balance) <= u64::MAX,
    ensures
        match result {
            Ok(()) => payout_applied(
                *old(game_state),
                *final(game_state),
                *old(vault_balance),
                *final(vault_balance),
                *old(player_balance),
                *final(player_balance),
                old(rewards_log)@,
                final(rewards_log)@,
                TokenReward { player, amount, reward_type, race_id: correlation_id, timestamp },
            ),
            Err(e) => payout_unchanged(
                *old(game_state),
                *final(game_state),
                *old(vault_balance),
                *final(vault_balance),
                *old(player_balance),
                *final(player_balance),
                old(rewards_log)@,
                final(rewards_log)@,
            ) && payout_refusal(*old(game_state), *old(vault_balance), amount, e),
        },
{
    if !game_state.is_initialized {
        return Err(ErrorCode::GameStateNotInitialized);
    }
    if *vault_balance < amount {
        return Err(ErrorCode::InsufficientVaultBalance);
    }
    let new_total = match game_state.total_distributed.checked_add(amount) {
        Some(v) => v,
        None => {
            return Err(ErrorCode::InvalidRewardAmount);
        },
    };
    let transfer_result = transfer_tokens_from_vault(vault_balance, player_balance, amount);
    match transfer_result {
        Ok(()) => {},
        Err(e) => {
            return Err(e);
        },
    }
    game_state.total_distributed = new_total;
    rewards_log.push(
        TokenReward { player, amount, reward_type, race_id: correlation_id, timestamp },
    );
    Ok(())
}

/// Admin-gated funding of the custody vault: moves `amount` from the admin
/// authority's own balance into the vault. Any caller other than the admin
/// authority of an initialized ledger is refused with `Unauthorized`; a
/// funder balance below `amount` is refused with `InsufficientBalance`; every
/// refusal changes nothing.
pub fn fund_vault(
    game_state: &GameState,
    caller: u64,
    funder_balance: &mut u64,
    vault_balance: &mut u64,
    amount: u64,
) -> (result: Result<(), ErrorCode>)
    requires
        *old(funder_balance) + *old(vault_balance) <= u64::MAX,
    ensures
        match result {
            Ok(()) => game_state.is_initialized && caller == game_state.authority && amount
                <= *old(funder_balance) && *final(funder_balance) == *old(funder_balance) - amount
                && *final(vault_balance) == *old(vault_balance) + amount,
            Err(e) => *final(funder_balance) == *old(funder_balance) && *final(vault_balance)
                == *old(vault_balance) && ((e == ErrorCode::GameStateNotInitialized
                && !game_state.is_initialized) || (e == ErrorCode::Unauthorized
                && game_state.is_initialized && caller != game_state.authority) || (e
                == ErrorCode::InsufficientBalance && game_state.is_initialized && caller
                == game_state.authority && amount > *old(funder_balance))),
        },
{
    if !game_state.is_initialized {
        return Err(ErrorCode::GameStateNotInitialized);
    }
    if caller != game_state.authority {
        return Err(ErrorCode::Unauthorized);
    }
    if amount > *funder_balance {
        return Err(ErrorCode::InsufficientBalance);
    }
    *funder_balance = *funder_balance - amount;
    *vault_balance = *vault_balance + amount;
    Ok(())
}

} // verus!
