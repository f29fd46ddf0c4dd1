use vstd::prelude::*;

use crate::errors::ErrorCode;
use crate::rates::TokenRates;

verus! {

/// The statistics a finished race hands to the reward engine. Untrusted
/// caller input: every field may carry any value, and the formulas below must
/// fail closed on overflow rather than wrap.
#[derive(Clone, Copy, Debug)]
pub struct RaceStats {
    pub race_id: u64,
    pub completed: bool,
    pub won: bool,
    pub distance: u64,
    pub obstacles_avoided: u64,
    pub bonus_boxes_collected: u64,
    pub lap_time: u64,
    pub score: u64,
}

/// The closed set of daily-challenge difficulty tiers.
#[derive(Clone, Copy, Debug, PartialEq, Eq, Structural)]
pub enum ChallengeDifficulty {
    Easy,
    Medium,
    Hard,
}

/// The closed set of rewarded tournament outcomes.
#[derive(Clone, Copy, Debug, PartialEq, Eq, Structural)]
pub enum TournamentPlacement {
    Participation,
    Winner,
}

/// The closed set of rarity tiers a staked car can have.
#[derive(Clone, Copy, Debug, PartialEq, Eq, Structural)]
pub enum CarRarity {
    Common,
    Rare,
    Epic,
    Legendary,
}

/// One gameplay event, the transient input of the reward engine. Each variant
/// carries exactly the fields its formula reads.
#[derive(Clone, Copy, Debug)]
pub enum GameplayEvent {
    RaceResult(RaceStats),
    ChallengeResult { difficulty: ChallengeDifficulty, challenge_id: u64 },
    TournamentResult { placement: TournamentPlacement, tournament_id: u64 },
    WelcomeGrant,
    StakingYield { rarity_tier: CarRarity, hours: u64, position_id: u64 },
}

/// The mathematical race reward: completion and win bonuses, a bonus per full
/// hundred distance units, and bonuses per obstacle avoided and per bonus box
/// collected. Stated over unbounded integers; the executable path fails
/// whenever this value does not fit in the unsigned 64-bit range.
pub open spec fn race_reward(stats: RaceStats, rates: TokenRates) -> int {
    (if stats.completed {
        rates.race_completion as int
    } else {
        0
    }) + (if stats.won {
        rates.race_win as int
    } else {
        0
    }) + (stats.distance as int / 100) * (rates.distance_per_100m as int)
        + (stats.obstacles_avoided as int) * (rates.obstacle_avoided as int)
        + (stats.bonus_boxes_collected as int) * (rates.bonus_collected as int)
}

/// The rate the table holds for one challenge difficulty.
pub open spec fn spec_challenge_rate(rates: TokenRates, difficulty: ChallengeDifficulty) -> u64 {
    match difficulty {
        ChallengeDifficulty::Easy => rates.daily_challenge_easy,
        ChallengeDifficulty::Medium => rates.daily_challenge_medium,
        ChallengeDifficulty::Hard => rates.daily_challenge_hard,
    }
}

/// The rate the table holds for one tournament placement.
pub open spec fn spec_tournament_rate(rates: TokenRates, placement: TournamentPlacement) -> u64 {
    match placement {
        TournamentPlacement::Participation => rates.tournament_participation,
        TournamentPlacement::Winner => rates.tournament_winner,
    }
}

/// The hourly staking rate the table holds for one rarity tier.
pub open spec fn spec_staking_rate(rates: TokenRates, rarity: CarRarity) -> u64 {
    match rarity {
        CarRarity::Common => rates.staking_per_hour_common,
        CarRarity::Rare => rates.staking_per_hour_rare,
        CarRarity::Epic => rates.staking_per_hour_epic,
        CarRarity::Legendary => rates.staking_per_hour_legendary,
    }
}

/// The mathematical staking reward: the rarity tier's hourly rate times the
/// caller-supplied number of hours, over unbounded integers.
pub open spec fn staking_reward(rates: TokenRates, rarity: CarRarity, hours: u64) -> int {
    (spec_staking_rate(rates, rarity) as int) * (hours as int)
}

/// The mathematical reward of any gameplay event under a given rate table.
pub open spec fn event_reward(event: GameplayEvent, rates: TokenRates) -> int {
    match event {
        GameplayEvent::RaceResult(stats) => race_reward(stats, rates),
        GameplayEvent::ChallengeResult { difficulty, .. } => spec_challenge_rate(
            rates,
            difficulty,
        ) as int,
        GameplayEvent::TournamentResult { placement, .. } => spec_tournament_rate(
            rates,
            placement,
        ) as int,
        GameplayEvent::WelcomeGrant => rates.welcome_bonus as int,
        GameplayEvent::StakingYield { rarity_tier, hours, .. } => staking_reward(
            rates,
            rarity_tier,
            hours,
        ),
    }
}

/// Computes the race reward with checked arithmetic: returns exactly the
/// mathematical amount when it fits in the unsigned 64-bit range and fails
/// closed otherwise, with no partial credit.
pub fn race_reward_checked(stats: &RaceStats, rates: &TokenRates) -> (result: Result<
    u64,
    ErrorCode,
>)
    ensures
        match result {
            Ok(amount) => amount == race_reward(*stats, *rates) && race_reward(*stats, *rates)
                <= u64::MAX,
            Err(e) => e == ErrorCode::InvalidRewardAmount && race_reward(*stats, *rates)
                > u64::MAX,
        },
{
    let mut total_reward: u64 = 0;

    if stats.completed {
        total_reward = match total_reward.checked_add(rates.race_completion) {
            Some(v) => v,
            None => {
                return Err(ErrorCode::InvalidRewardAmount);
            },
        };
    }

    if stats.won {
        total_reward = match total_reward.checked_add(rates.race_win) {
            Some(v) => v,
            None => {
                return Err(ErrorCode::InvalidRewardAmount);
            },
        };
    }

    let distance_hundreds = stats.distance / 100;
    let distance_bonus = match distance_hundreds.checked_mul(rates.distance_per_100m) {
        Some(v) => v,
        None => {
            return Err(ErrorCode::InvalidRewardAmount);
        },
    };
    total_reward = match total_reward.checked_add(distance_bonus) {
        Some(v) => v,
        None => {
            return Err(ErrorCode::InvalidRewardAmount);
        },
    };

    let obstacle_bonus = match stats.obstacles_avoided.checked_mul(rates.obstacle_avoided) {
        Some(v) => v,
        None => {
            return Err(ErrorCode::InvalidRewardAmount);
        },
    };
    total_reward = match total_reward.checked_add(obstacle_bonus) {
        Some(v) => v,
        None => {
            return Err(ErrorCode::InvalidRewardAmount);
        },
    };

    let bonus_reward = match stats.bonus_boxes_collected.checked_mul(rates.bonus_collected) {
        Some(v) => v,
        None => {
            return Err(ErrorCode::InvalidRewardAmount);
        },
    };
    total_reward = match total_reward.checked_add(bonus_reward) {
        Some(v) => v,
        None => {
            return Err(ErrorCode::InvalidRewardAmount);
        },
    };

    Ok(total_reward)
}

/// Looks up the reward for one challenge difficulty; a table lookup never
/// overflows.
pub fn challenge_reward(rates: &TokenRates, difficulty: ChallengeDifficulty) -> (amount: u64)
    ensures
        amount == spec_challenge_rate(*rates, difficulty),
{
    match difficulty {
        ChallengeDifficulty::Easy => rates.daily_challenge_easy,
        ChallengeDifficulty::Medium => rates.daily_challenge_medium,
        ChallengeDifficulty::Hard => rates.daily_challenge_hard,
    }
}

/// Looks up the reward for one tournament placement.
pub fn tournament_reward(rates: &TokenRates, placement: TournamentPlacement) -> (amount: u64)
    ensures
        amount == spec_tournament_rate(*rates, placement),
{
    match placement {
        TournamentPlacement::Participation => rates.tournament_participation,
        TournamentPlacement::Winner => rates.tournament_winner,
    }
}

/// Computes the staking reward with a checked multiply: `hours` is untrusted,
/// so an oversized product fails closed rather than wrapping.
pub fn staking_reward_checked(rates: &TokenRates, rarity: CarRarity, hours: u64) -> (result: Result<
    u64,
    ErrorCode,
>)
    ensures
        match result {
            Ok(amount) => amount == staking_reward(*rates, rarity, hours) && staking_reward(
                *rates,
                rarity,
                hours,
            ) <= u64::MAX,
            Err(e) => e == ErrorCode::InvalidRewardAmount && staking_reward(*rates, rarity, hours)
                > u64::MAX,
        },
{
    let hourly_rate = match rarity {
        CarRarity::Common => rates.staking_per_hour_common,
        CarRarity::Rare => rates.staking_per_hour_rare,
        CarRarity::Epic => rates.staking_per_hour_epic,
        CarRarity::Legendary => rates.staking_per_hour_legendary,
    };
    match hourly_rate.checked_mul(hours) {
        Some(amount) => Ok(amount),
        None => Err(ErrorCode::InvalidRewardAmount),
    }
}

/// The single dispatch point of the reward engine: maps any gameplay event and
/// rate table to its reward amount, failing closed whenever the mathematical
/// amount does not fit in the unsigned 64-bit range. A pure function of its
/// arguments, independent of any ledger or custody state.
pub fn compute_reward(event: &GameplayEvent, rates: &TokenRates) -> (result: Result<
    u64,
    ErrorCode,
>)
    ensures
        match result {
            Ok(amount) => amount == event_reward(*event, *rates) && event_reward(*event, *rates)
                <= u64::MAX,
            Err(e) => e == ErrorCode::InvalidRewardAmount && event_reward(*event, *rates)
                > u64::MAX,
        },
{
    match event {
        GameplayEvent::RaceResult(stats) => race_reward_checked(stats, rates),
        GameplayEvent::ChallengeResult { difficulty, .. } => Ok(
            challenge_reward(rates, *difficulty),
        ),
        GameplayEvent::TournamentResult { placement, .. } => Ok(
            tournament_reward(rates, *placement),
        ),
        GameplayEvent::WelcomeGrant => Ok(rates.welcome_bonus),
        GameplayEvent::StakingYield { rarity_tier, hours, .. } => staking_reward_checked(
            rates,
            *rarity_tier,
            *hours,
        ),
    }
}

} // verus!
