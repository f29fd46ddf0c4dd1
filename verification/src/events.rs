use vstd::prelude::*;

use crate::spend::SpendType;

verus! {

/// The category tag a payout record carries, one per reward path.
#[derive(Clone, Copy, Debug, PartialEq, Eq, Structural)]
pub enum RewardType {
    RaceCompletion,
    DailyChallenge,
    Tournament,
    WelcomeBonus,
    Staking,
}

/// One entry of the append-only payout log: who was paid, how much, under
/// which category, the id of the triggering race, challenge, tournament or
/// staking position, and when. Written exactly once per successful payout and
/// never mutated afterwards.
#[derive(Clone, Copy, Debug, PartialEq, Eq, Structural)]
pub struct TokenReward {
    pub player: u64,
    pub amount: u64,
    pub reward_type: RewardType,
    pub race_id: u64,
    pub timestamp: i64,
}

/// One entry of the append-only spend log: who destroyed value, how much, for
/// what, and when. Written exactly once per successful spend and never
/// mutated afterwards.
#[derive(Clone, Copy, Debug, PartialEq, Eq, Structural)]
pub struct TokenSpend {
    pub player: u64,
    pub amount: u64,
    pub spend_type: SpendType,
    pub timestamp: i64,
}

} // verus!
