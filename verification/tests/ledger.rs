use speedy_token::awards::award_challenge_tokens;
use speedy_token::awards::award_race_tokens;
use speedy_token::awards::award_staking_tokens;
use speedy_token::awards::award_tournament_tokens;
use speedy_token::awards::award_welcome_bonus;
use speedy_token::custody::fund_vault;
use speedy_token::custody::payout;
use speedy_token::errors::ErrorCode;
use speedy_token::events::RewardType;
use speedy_token::events::TokenReward;
use speedy_token::events::TokenSpend;
use speedy_token::rates::TokenRates;
use speedy_token::rates::default_token_rates;
use speedy_token::rewards::CarRarity;
use speedy_token::rewards::ChallengeDifficulty;
use speedy_token::rewards::RaceStats;
use speedy_token::rewards::TournamentPlacement;
use speedy_token::spend::SpendType;
use speedy_token::spend::spend_tokens;
use speedy_token::state::GameState;
use speedy_token::state::initialize_token;
use speedy_token::state::update_token_rates;

const ADMIN: u64 = 11;
const MINT: u64 = 22;
const VAULT: u64 = 33;
const PLAYER: u64 = 44;

fn blank_state() -> GameState {
    GameState {
        authority: 0,
        token_mint: 0,
        vault: 0,
        total_distributed: 0,
        token_rates: default_token_rates(),
        bump: 0,
        is_initialized: false,
    }
}

fn initialized_state() -> GameState {
    let mut state = blank_state();
    initialize_token(&mut state, ADMIN, MINT, VAULT, 254).unwrap();
    state
}

fn example_race() -> RaceStats {
    RaceStats {
        race_id: 77,
        completed: true,
        won: true,
        distance: 250,
        obstacles_avoided: 3,
        bonus_boxes_collected: 2,
        lap_time: 95,
        score: 8_000,
    }
}

#[test]
fn initialize_sets_every_field_and_default_rates() {
    let mut state = blank_state();
    assert_eq!(initialize_token(&mut state, ADMIN, MINT, VAULT, 254), Ok(()));
    assert_eq!(state.authority, ADMIN);
    assert_eq!(state.token_mint, MINT);
    assert_eq!(state.vault, VAULT);
    assert_eq!(state.total_distributed, 0);
    assert_eq!(state.bump, 254);
    assert!(state.is_initialized);
    assert_eq!(state.token_rates, default_token_rates());
}

#[test]
fn double_initialize_rejected_and_first_call_preserved() {
    let mut state = blank_state();
    assert_eq!(initialize_token(&mut state, ADMIN, MINT, VAULT, 254), Ok(()));
    let first = state;
    assert_eq!(
        initialize_token(&mut state, 999, 888, 777, 1),
        Err(ErrorCode::AlreadyInitialized)
    );
    assert_eq!(state, first);
}

#[test]
fn fund_vault_by_admin_moves_exact_amount() {
    let state = initialized_state();
    let mut funder: u64 = 10_000;
    let mut vault: u64 = 500;
    assert_eq!(fund_vault(&state, ADMIN, &mut funder, &mut vault, 1_000), Ok(()));
    assert_eq!(funder, 9_000);
    assert_eq!(vault, 1_500);
}

#[test]
fn fund_vault_by_non_admin_fails_unauthorized() {
    let state = initialized_state();
    let mut funder: u64 = 10_000;
    let mut vault: u64 = 500;
    assert_eq!(
        fund_vault(&state, PLAYER, &mut funder, &mut vault, 1_000),
        Err(ErrorCode::Unauthorized)
    );
    assert_eq!(funder, 10_000);
    assert_eq!(vault, 500);
}

#[test]
fn fund_vault_with_short_funder_balance_fails() {
    let state = initialized_state();
    let mut funder: u64 = 999;
    let mut vault: u64 = 0;
    assert_eq!(
        fund_vault(&state, ADMIN, &mut funder, &mut vault, 1_000),
        Err(ErrorCode::InsufficientBalance)
    );
    assert_eq!(funder, 999);
    assert_eq!(vault, 0);
}

#[test]
fn update_rates_by_admin_replaces_table_wholesale() {
    let mut state = initialized_state();
    let new_rates = TokenRates {
        race_completion: 0,
        welcome_bonus: 42,
        ..default_token_rates()
    };
    assert_eq!(update_token_rates(&mut state, ADMIN, new_rates), Ok(()));
    assert_eq!(state.token_rates, new_rates);
    assert_eq!(state.authority, ADMIN);
    assert_eq!(state.total_distributed, 0);
}

#[test]
fn update_rates_by_non_admin_fails_unauthorized() {
    let mut state = initialized_state();
    let before = state;
    let new_rates = TokenRates {
        tournament_winner: u64::MAX,
        ..default_token_rates()
    };
    assert_eq!(
        update_token_rates(&mut state, PLAYER, new_rates),
        Err(ErrorCode::Unauthorized)
    );
    assert_eq!(state, before);
}

#[test]
fn award_race_example_scenario_moves_exact_amount() {
    let mut state = initialized_state();
    let mut vault: u64 = 1_000_000_000;
    let mut player: u64 = 0;
    let mut log: Vec<TokenReward> = Vec::new();
    assert_eq!(
        award_race_tokens(&mut state, &mut vault, &mut player, PLAYER, example_race(), 1_700, &mut log),
        Ok(())
    );
    assert_eq!(player, 152_600_000);
    assert_eq!(vault, 1_000_000_000 - 152_600_000);
    assert_eq!(state.total_distributed, 152_600_000);
    assert_eq!(log.len(), 1);
    assert_eq!(
        log[0],
        TokenReward {
            player: PLAYER,
            amount: 152_600_000,
            reward_type: RewardType::RaceCompletion,
            race_id: 77,
            timestamp: 1_700,
        }
    );
}

#[test]
fn award_race_overflow_changes_nothing() {
    let mut state = initialized_state();
    let before = state;
    let mut vault: u64 = 1_000_000_000;
    let mut player: u64 = 0;
    let mut log: Vec<TokenReward> = Vec::new();
    let stats = RaceStats {
        obstacles_avoided: u64::MAX,
        ..example_race()
    };
    assert_eq!(
        award_race_tokens(&mut state, &mut vault, &mut player, PLAYER, stats, 1_700, &mut log),
        Err(ErrorCode::InvalidRewardAmount)
    );
    assert_eq!(state, before);
    assert_eq!(vault, 1_000_000_000);
    assert_eq!(player, 0);
    assert!(log.is_empty());
}

#[test]
fn award_from_underfunded_vault_changes_nothing() {
    let mut state = initialized_state();
    let before = state;
    let mut vault: u64 = 152_599_999;
    let mut player: u64 = 0;
    let mut log: Vec<TokenReward> = Vec::new();
    assert_eq!(
        award_race_tokens(&mut state, &mut vault, &mut player, PLAYER, example_race(), 1_700, &mut log),
        Err(ErrorCode::InsufficientVaultBalance)
    );
    assert_eq!(state, before);
    assert_eq!(vault, 152_599_999);
    assert_eq!(player, 0);
    assert!(log.is_empty());
}

#[test]
fn award_overflowing_distribution_counter_changes_nothing() {
    let mut state = initialized_state();
    state.total_distributed = u64::MAX;
    let before = state;
    let mut vault: u64 = 1_000_000_000;
    let mut player: u64 = 0;
    let mut log: Vec<TokenReward> = Vec::new();
    assert_eq!(
        award_welcome_bonus(&mut state, &mut vault, &mut player, PLAYER, 1_700, &mut log),
        Err(ErrorCode::InvalidRewardAmount)
    );
    assert_eq!(state, before);
    assert_eq!(vault, 1_000_000_000);
    assert_eq!(player, 0);
    assert!(log.is_empty());
}

#[test]
fn award_before_initialize_fails() {
    let mut state = blank_state();
    let mut vault: u64 = 1_000_000_000;
    let mut player: u64 = 0;
    let mut log: Vec<TokenReward> = Vec::new();
    assert_eq!(
        award_welcome_bonus(&mut state, &mut vault, &mut player, PLAYER, 1_700, &mut log),
        Err(ErrorCode::GameStateNotInitialized)
    );
    assert_eq!(vault, 1_000_000_000);
    assert_eq!(player, 0);
    assert!(log.is_empty());
}

#[test]
fn award_challenge_pays_difficulty_rate() {
    let mut state = initialized_state();
    let mut vault: u64 = 1_000_000_000;
    let mut player: u64 = 0;
    let mut log: Vec<TokenReward> = Vec::new();
    assert_eq!(
        award_challenge_tokens(
            &mut state,
            &mut vault,
            &mut player,
            PLAYER,
            ChallengeDifficulty::Hard,
            321,
            1_700,
            &mut log
        ),
        Ok(())
    );
    assert_eq!(player, 200_000_000);
    assert_eq!(state.total_distributed, 200_000_000);
    assert_eq!(log[0].reward_type, RewardType::DailyChallenge);
    assert_eq!(log[0].race_id, 321);
}

#[test]
fn award_tournament_pays_placement_rate() {
    let mut state = initialized_state();
    let mut vault: u64 = 2_000_000_000;
    let mut player: u64 = 0;
    let mut log: Vec<TokenReward> = Vec::new();
    assert_eq!(
        award_tournament_tokens(
            &mut state,
            &mut vault,
            &mut player,
            PLAYER,
            TournamentPlacement::Winner,
            55,
            1_700,
            &mut log
        ),
        Ok(())
    );
    assert_eq!(player, 1_000_000_000);
    assert_eq!(vault, 1_000_000_000);
    assert_eq!(log[0].reward_type, RewardType::Tournament);
}

#[test]
fn award_welcome_bonus_pays_table_rate() {
    let mut state = initialized_state();
    let mut vault: u64 = 1_000_000_000;
    let mut player: u64 = 0;
    let mut log: Vec<TokenReward> = Vec::new();
    assert_eq!(
        award_welcome_bonus(&mut state, &mut vault, &mut player, PLAYER, 1_700, &mut log),
        Ok(())
    );
    assert_eq!(player, 100_000_000);
    assert_eq!(log[0].reward_type, RewardType::WelcomeBonus);
    assert_eq!(log[0].race_id, 0);
}

#[test]
fn award_staking_example_scenario() {
    let mut state = initialized_state();
    let mut vault: u64 = 1_000_000_000;
    let mut player: u64 = 0;
    let mut log: Vec<TokenReward> = Vec::new();
    assert_eq!(
        award_staking_tokens(
            &mut state,
            &mut vault,
            &mut player,
            PLAYER,
            CarRarity::Legendary,
            10,
            888,
            1_700,
            &mut log
        ),
        Ok(())
    );
    assert_eq!(player, 250_000_000);
    assert_eq!(state.total_distributed, 250_000_000);
    assert_eq!(log[0].reward_type, RewardType::Staking);
    assert_eq!(log[0].race_id, 888);
}

#[test]
fn award_staking_max_hours_changes_nothing() {
    let mut state = initialized_state();
    let before = state;
    let mut vault: u64 = 1_000_000_000;
    let mut player: u64 = 0;
    let mut log: Vec<TokenReward> = Vec::new();
    assert_eq!(
        award_staking_tokens(
            &mut state,
            &mut vault,
            &mut player,
            PLAYER,
            CarRarity::Legendary,
            u64::MAX,
            888,
            1_700,
            &mut log
        ),
        Err(ErrorCode::InvalidRewardAmount)
    );
    assert_eq!(state, before);
    assert_eq!(vault, 1_000_000_000);
    assert_eq!(player, 0);
    assert!(log.is_empty());
}

#[test]
fn payout_counter_and_log_stay_consistent() {
    let mut state = initialized_state();
    let mut vault: u64 = 10_000;
    let mut player: u64 = 7;
    let mut log: Vec<TokenReward> = Vec::new();
    assert_eq!(
        payout(&mut state, &mut vault, &mut player, PLAYER, 4_000, RewardType::Staking, 5, 60, &mut log),
        Ok(())
    );
    assert_eq!(state.total_distributed, 4_000);
    assert_eq!(vault, 6_000);
    assert_eq!(player, 4_007);
    assert_eq!(log.len(), 1);
    assert_eq!(log[0].amount, 4_000);
    assert_eq!(
        payout(&mut state, &mut vault, &mut player, PLAYER, 6_001, RewardType::Staking, 6, 61, &mut log),
        Err(ErrorCode::InsufficientVaultBalance)
    );
    assert_eq!(state.total_distributed, 4_000);
    assert_eq!(vault, 6_000);
    assert_eq!(player, 4_007);
    assert_eq!(log.len(), 1);
}

#[test]
fn spend_burns_exact_amount_and_logs_once() {
    let state = initialized_state();
    let mut player_balance: u64 = 1_000_000;
    let mut log: Vec<TokenSpend> = Vec::new();
    assert_eq!(
        spend_tokens(&state, PLAYER, &mut player_balance, 400_000, SpendType::CarUpgrade, 1_701, &mut log),
        Ok(())
    );
    assert_eq!(player_balance, 600_000);
    assert_eq!(log.len(), 1);
    assert_eq!(
        log[0],
        TokenSpend {
            player: PLAYER,
            amount: 400_000,
            spend_type: SpendType::CarUpgrade,
            timestamp: 1_701,
        }
    );
}

#[test]
fn spend_beyond_balance_changes_nothing() {
    let state = initialized_state();
    let mut player_balance: u64 = 100;
    let mut log: Vec<TokenSpend> = Vec::new();
    assert_eq!(
        spend_tokens(&state, PLAYER, &mut player_balance, 101, SpendType::TournamentEntry, 1_701, &mut log),
        Err(ErrorCode::InsufficientBalance)
    );
    assert_eq!(player_balance, 100);
    assert!(log.is_empty());
}

#[test]
fn spend_before_initialize_fails() {
    let state = blank_state();
    let mut player_balance: u64 = 100;
    let mut log: Vec<TokenSpend> = Vec::new();
    assert_eq!(
        spend_tokens(&state, PLAYER, &mut player_balance, 1, SpendType::StakingBoost, 1_701, &mut log),
        Err(ErrorCode::GameStateNotInitialized)
    );
    assert_eq!(player_balance, 100);
    assert!(log.is_empty());
}

#[test]
fn vault_balance_tracks_funding_minus_payouts() {
    let mut state = initialized_state();
    let mut funder: u64 = 2_000_000_000;
    let mut vault: u64 = 150_000_000;
    let mut player: u64 = 0;
    let mut log: Vec<TokenReward> = Vec::new();
    assert_eq!(fund_vault(&state, ADMIN, &mut funder, &mut vault, 450_000_000), Ok(()));
    assert_eq!(
        award_welcome_bonus(&mut state, &mut vault, &mut player, PLAYER, 1, &mut log),
        Ok(())
    );
    assert_eq!(
        award_challenge_tokens(
            &mut state,
            &mut vault,
            &mut player,
            PLAYER,
            ChallengeDifficulty::Easy,
            2,
            2,
            &mut log
        ),
        Ok(())
    );
    // initial + funded - paid out, and never negative along the way
    assert_eq!(vault, 150_000_000 + 450_000_000 - 100_000_000 - 50_000_000);
    assert_eq!(state.total_distributed, 150_000_000);
    assert_eq!(player, 150_000_000);
    assert_eq!(log.len(), 2);
}
