use vstd::prelude::*;

verus! {

/// The current price list: fifteen independent unsigned rates, one per reward
/// category, each expressed in the asset's smallest unit. No cross-field
/// relationship is enforced; a category is disabled by setting its rate to
/// zero. The table is replaced wholesale by the admin authority and is
/// read-only everywhere else. New categories are appended, never inserted,
/// so the fixed field order is part of the persisted layout.
#[derive(Clone, Copy, Debug, PartialEq, Eq, Structural)]
pub struct TokenRates {
    pub race_completion: u64,
    pub race_win: u64,
    pub distance_per_100m: u64,
    pub obstacle_avoided: u64,
    pub bonus_collected: u64,
    pub daily_challenge_easy: u64,
    pub daily_challenge_medium: u64,
    pub daily_challenge_hard: u64,
    pub tournament_participation: u64,
    pub tournament_winner: u64,
    pub welcome_bonus: u64,
    pub staking_per_hour_common: u64,
    pub staking_per_hour_rare: u64,
    pub staking_per_hour_epic: u64,
    pub staking_per_hour_legendary: u64,
}

/// The fixed initial price list a fresh ledger starts from.
pub open spec fn spec_default_token_rates() -> TokenRates {
    TokenRates {
        race_completion: 100_000_000,
        race_win: 50_000_000,
        distance_per_100m: 500_000,
        obstacle_avoided: 200_000,
        bonus_collected: 500_000,
        daily_challenge_easy: 50_000_000,
        daily_challenge_medium: 100_000_000,
        daily_challenge_hard: 200_000_000,
        tournament_participation: 100_000_000,
        tournament_winner: 1_000_000_000,
        welcome_bonus: 100_000_000,
        staking_per_hour_common: 1_000_000,
        staking_per_hour_rare: 3_000_000,
        staking_per_hour_epic: 10_000_000,
        staking_per_hour_legendary: 25_000_000,
    }
}

/// Returns the fixed initial price list.
pub fn default_token_rates() -> (rates: TokenRates)
    ensures
        rates == spec_default_token_rates(),
{
    TokenRates {
        race_completion: 100_000_000,
        race_win: 50_000_000,
        distance_per_100m: 500_000,
        obstacle_avoided: 200_000,
        bonus_collected: 500_000,
        daily_challenge_easy: 50_000_000,
        daily_challenge_medium: 100_000_000,
        daily_challenge_hard: 200_000_000,
        tournament_participation: 100_000_000,
        tournament_winner: 1_000_000_000,
        welcome_bonus: 100_000_000,
        staking_per_hour_common: 1_000_000,
        staking_per_hour_rare: 3_000_000,
        staking_per_hour_epic: 10_000_000,
        staking_per_hour_legendary: 25_000_000,
    }
}

} // verus!
