use vstd::prelude::*;

use crate::custody::payout;
use crate::custody::payout_applied;
use crate::custody::payout_refusal;
use crate::custody::payout_unchanged;
use crate::errors::ErrorCode;
use crate::events::RewardType;
use crate::events::TokenReward;
use crate::rewards::CarRarity;
use crate::rewards::ChallengeDifficulty;
use crate::rewards::RaceStats;
use crate::rewards::TournamentPlacement;
use crate::rewards::challenge_reward;
use crate::rewards::race_reward;
use crate::rewards::race_reward_checked;
use crate::rewards::spec_challenge_rate;
use crate::rewards::spec_tournament_rate;
use crate::rewards::staking_reward;
use crate::rewards::staking_reward_checked;
use crate::rewards::tournament_reward;
use crate::state::GameState;

verus! {

/// Pays out the race reward of `race_stats` under the current rate table.
/// The amount is computed first, with checked arithmetic: any intermediate
/// overflow refuses the whole operation with `InvalidRewardAmount` — no
/// partial credit, no saturation — before the ledger is even consulted. A
/// fitting amount is then paid out under the vault's derived authority, or
/// refused as `payout_refusal` says; every refusal leaves the counter, both
/// balances and the log unchanged.
pub fn award_race_tokens(
    game_state: &mut GameState,
    vault_balance: &mut u64,
    player_balance: &mut u64,
    player: u64,
    race_stats: RaceStats,
    timestamp: i64,
    rewards_log: &mut Vec<TokenReward>,
) -> (result: Result<(), ErrorCode>)
    requires
        *old(vault_balance) + *old(player_balance) <= u64::MAX,
    ensures
        match result {
            Ok(()) => race_reward(race_stats, old(game_state).token_rates) <= u64::MAX
                && payout_applied(
                *old(game_state),
                *final(game_state),
                *old(vault_balance),
                *final(vault_balance),
                *old(player_balance),
                *final(player_balance),
                old(rewards_log)@,
                final(rewards_log)@,
                TokenReward {
                    player,
                    amount: race_reward(race_stats, old(game_state).token_rates) as u64,
                    reward_type: RewardType::RaceCompletion,
                    race_id: race_stats.race_id,
                    timestamp,
                },
            ),
            Err(e) => payout_unchanged(
                *old(game_state),
                *final(game_state),
                *old(vault_balance),
                *final(vault_balance),
                *old(player_balance),
                *final(player_balance),
                old(rewards_log)@,
                final(rewards_log)@,
            ) && ((e == ErrorCode::InvalidRewardAmount && race_reward(
                race_stats,
                old(game_state).token_rates,
            ) > u64::MAX) || (race_reward(race_stats, old(game_state).token_rates) <= u64::MAX
                && payout_refusal(
                *old(game_state),
                *old(vault_balance),
                race_reward(race_stats, old(game_state).token_rates) as u64,
                e,
            ))),
        },
{
    let total_reward = match race_reward_checked(&race_stats, &game_state.token_rates) {
        Ok(amount) => amount,
        Err(e) => {
            return Err(e);
        },
    };
    payout(
        game_state,
        vault_balance,
        player_balance,
        player,
        total_reward,
        RewardType::RaceCompletion,
        race_stats.race_id,
        timestamp,
        rewards_log,
    )
}

/// Pays out the rate table's reward for one completed daily challenge. A
/// table entry always fits, so the only refusals are `payout_refusal`'s, and
/// every refusal changes nothing.
pub fn award_challenge_tokens(
    game_state: &mut GameState,
    vault_balance: &mut u64,
    player_balance: &mut u64,
    player: u64,
    challenge_difficulty: ChallengeDifficulty,
    challenge_id: u64,
    timestamp: i64,
    rewards_log: &mut Vec<TokenReward>,
) -> (result: Result<(), ErrorCode>)
    requires
        *old(vault_balance) + *old(player_balance) <= u64::MAX,
    ensures
        match result {
            Ok(()) => payout_applied(
                *old(game_state),
                *final(game_state),
                *old(vault_balance),
                *final(vault_balance),
                *old(player_balance),
                *final(player_balance),
                old(rewards_log)@,
                final(rewards_log)@,
                TokenReward {
                    player,
                    amount: spec_challenge_rate(old(game_state).token_rates, challenge_difficulty),
                    reward_type: RewardType::DailyChallenge,
                    race_id: challenge_id,
                    timestamp,
                },
            ),
            Err(e) => payout_unchanged(
                *old(game_state),
                *final(game_state),
                *old(vault_balance),
                *final(vault_balance),
                *old(player_balance),
                *final(player_balance),
                old(rewards_log)@,
                final(rewards_log)@,
            ) && payout_refusal(
                *old(game_state),
                *old(vault_balance),
                spec_challenge_rate(old(game_state).token_rates, challenge_difficulty),
                e,
            ),
        },
{
    let reward_amount = challenge_reward(&game_state.token_rates, challenge_difficulty);
    payout(
        game_state,
        vault_balance,
        player_balance,
        player,
        reward_amount,
        RewardType::DailyChallenge,
        challenge_id,
        timestamp,
        rewards_log,
    )
}

/// Pays out the rate table's reward for one tournament placement. A table
/// entry always fits, so the only refusals are `payout_refusal`'s, and every
/// refusal changes nothing.
pub fn award_tournament_tokens(
    game_state: &mut GameState,
    vault_balance: &mut u64,
    player_balance: &mut u64,
    player: u64,
    placement: TournamentPlacement,
    tournament_id: u64,
    timestamp: i64,
    rewards_log: &mut Vec<TokenReward>,
) -> (result: Result<(), ErrorCode>)
    requires
        *old(vault_balance) + *old(player_balance) <= u64::MAX,
    ensures
        match result {
            Ok(()) => payout_applied(
                *old(game_state),
                *final(game_state),
                *old(vault_balance),
                *final(vault_balance),
                *old(player_balance),
                *final(player_balance),
                old(rewards_log)@,
                final(rewards_log)@,
                TokenReward {
                    player,
                    amount: spec_tournament_rate(old(game_state).token_rates, placement),
                    reward_type: RewardType::Tournament,
                    race_id: tournament_id,
                    timestamp,
                },
            ),
            Err(e) => payout_unchanged(
                *old(game_state),
                *final(game_state),
                *old(vault_balance),
                *final(vault_balance),
                *old(player_balance),
                *final(player_balance),
                old(rewards_log)@,
                final(rewards_log)@,
            ) && payout_refusal(
                *old(game_state),
                *old(vault_balance),
                spec_tournament_rate(old(game_state).token_rates, placement),
                e,
            ),
        },
{
    let reward_amount = tournament_reward(&game_state.token_rates, placement);
    payout(
        game_state,
        vault_balance,
        player_balance,
        player,
        reward_amount,
        RewardType::Tournament,
        tournament_id,
        timestamp,
        rewards_log,
    )
}

/// Pays out the one-time welcome bonus of the current rate table,
/// unconditionally on the event side: the only refusals are
/// `payout_refusal`'s, and every refusal changes nothing. Welcome records
/// carry no correlating id.
pub fn award_welcome_bonus(
    game_state: &mut GameState,
    vault_balance: &mut u64,
    player_balance: &mut u64,
    player: u64,
    timestamp: i64,
    rewards_log: &mut Vec<TokenReward>,
) -> (result: Result<(), ErrorCode>)
    requires
        *old(vault_balance) + *old(player_balance) <= u64::MAX,
    ensures
        match result {
            Ok(()) => payout_applied(
                *old(game_state),
                *final(game_state),
                *old(vault_balance),
                *final(vault_balance),
                *old(player_balance),
                *final(player_balance),
                old(rewards_log)@,
                final(rewards_log)@,
                TokenReward {
                    player,
                    amount: old(game_state).token_rates.welcome_bonus,
                    reward_type: RewardType::WelcomeBonus,
                    race_id: 0,
                    timestamp,
                },
            ),
            Err(e) => payout_unchanged(
                *old(game_state),
                *final(game_state),
                *old(vault_balance),
                *final(vault_balance),
                *old(player_balance),
                *final(player_balance),
                old(rewards_log)@,
                final(rewards_log)@,
            ) && payout_refusal(
                *old(game_state),
                *old(vault_balance),
                old(game_state).token_rates.welcome_bonus,
                e,
            ),
        },
{
    let reward_amount = game_state.token_rates.welcome_bonus;
    payout(
        game_state,
        vault_balance,
        player_balance,
        player,
        reward_amount,
        RewardType::WelcomeBonus,
        0,
        timestamp,
        rewards_log,
    )
}

/// Pays out the staking yield of one car: its rarity tier's hourly rate times
/// the caller-supplied, untrusted `hours_staked`. The multiply is checked
/// first: an oversized product refuses the whole operation with
/// `InvalidRewardAmount` before the ledger is even consulted. A fitting
/// amount is then paid out or refused as `payout_refusal` says; every refusal
/// changes nothing.
pub fn award_staking_tokens(
    game_state: &mut GameState,
    vault_balance: &mut u64,
    player_balance: &mut u64,
    player: u64,
    car_rarity: CarRarity,
    hours_staked: u64,
    car_id: u64,
    timestamp: i64,
    rewards_log: &mut Vec<TokenReward>,
) -> (result: Result<(), ErrorCode>)
    requires
        *old(vault_balance) + *old(player_balance) <= u64::MAX,
    ensures
        match result {
            Ok(()) => staking_reward(old(game_state).token_rates, car_rarity, hours_staked)
                <= u64::MAX && payout_applied(
                *old(game_state),
                *final(game_state),
                *old(vault_balance),
                *final(vault_balance),
                *old(player_balance),
                *final(player_balance),
                old(rewards_log)@,
                final(rewards_log)@,
                TokenReward {
                    player,
                    amount: staking_reward(
                        old(game_state).token_rates,
                        car_rarity,
                        hours_staked,
                    ) as u64,
                    reward_type: RewardType::Staking,
                    race_id: car_id,
                    timestamp,
                },
            ),
            Err(e) => payout_unchanged(
                *old(game_state),
                *final(game_state),
                *old(vault_balance),
                *final(vault_balance),
                *old(player_balance),
                *final(player_balance),
                old(rewards_log)@,
                final(rewards_log)@,
            ) && ((e == ErrorCode::InvalidRewardAmount && staking_reward(
                old(game_state).token_rates,
                car_rarity,
                hours_staked,
            ) > u64::MAX) || (staking_reward(old(game_state).token_rates, car_rarity, hours_staked)
                <= u64::MAX && payout_refusal(
                *old(game_state),
                *old(vault_balance),
                staking_reward(old(game_state).token_rates, car_rarity, hours_staked) as u64,
                e,
            ))),
        },
{
    let reward_amount = match staking_reward_checked(
        &game_state.token_rates,
        car_rarity,
        hours_staked,
    ) {
        Ok(amount) => amount,
        Err(e) => {
            return Err(e);
        },
    };
    payout(
        game_state,
        vault_balance,
        player_balance,
        player,
        reward_amount,
        RewardType::Staking,
        car_id,
        timestamp,
        rewards_log,
    )
}

} // verus!
