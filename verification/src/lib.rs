//! A deterministic reward ledger and custody engine for a fungible game
//! currency: a configurable rate table, overflow-checked reward formulas for
//! gameplay events, a solvency-checked payout path out of a custodial vault,
//! player-authorized spending that destroys value, and authority-gated
//! administration, all over a single explicitly-owned ledger record.

pub mod awards;
pub mod custody;
pub mod errors;
pub mod events;
pub mod laws;
pub mod rates;
pub mod rewards;
pub mod spend;
pub mod state;
