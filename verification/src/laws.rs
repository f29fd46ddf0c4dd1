use vstd::prelude::*;

use crate::custody::payout_applied;
use crate::events::TokenReward;
use crate::state::GameState;

verus! {

/// One movement on the custody vault, abstracted to its amount: a funding
/// credit or a solvency-checked payout debit. A successful `fund_vault` call
/// is one `Fund` step and a successful `payout` (and so any successful award)
/// is one `Payout` step, by their contracts.
pub enum VaultOp {
    Fund { amount: u64 },
    Payout { amount: u64 },
}

/// The vault balance left after a history of movements, over unbounded
/// integers.
pub open spec fn vault_after(initial: int, ops: Seq<VaultOp>) -> int
    decreases ops.len(),
{
    if ops.len() == 0 {
        initial
    } else {
        match ops.last() {
            VaultOp::Fund { amount } => vault_after(initial, ops.drop_last()) + amount,
            VaultOp::Payout { amount } => vault_after(initial, ops.drop_last()) - amount,
        }
    }
}

/// The sum of every funding credit in a history.
pub open spec fn total_funded(ops: Seq<VaultOp>) -> int
    decreases ops.len(),
{
    if ops.len() == 0 {
        0
    } else {
        total_funded(ops.drop_last()) + (match ops.last() {
            VaultOp::Fund { amount } => amount as int,
            VaultOp::Payout { .. } => 0,
        })
    }
}

/// The sum of every payout debit in a history.
pub open spec fn total_paid(ops: Seq<VaultOp>) -> int
    decreases ops.len(),
{
    if ops.len() == 0 {
        0
    } else {
        total_paid(ops.drop_last()) + (match ops.last() {
            VaultOp::Fund { .. } => 0,
            VaultOp::Payout { amount } => amount as int,
        })
    }
}

/// A history every payout of which passed the solvency check: each debit was
/// no larger than the balance standing at its point. `payout`'s contract
/// grants exactly this of every successful call.
pub open spec fn solvent_history(initial: int, ops: Seq<VaultOp>) -> bool
    decreases ops.len(),
{
    if ops.len() == 0 {
        true
    } else {
        solvent_history(initial, ops.drop_last()) && (ops.last() matches VaultOp::Payout { amount }
            ==> amount <= vault_after(initial, ops.drop_last()))
    }
}

proof fn lemma_vault_balance(initial: int, ops: Seq<VaultOp>)
    requires
        initial >= 0,
        solvent_history(initial, ops),
    ensures
        vault_after(initial, ops) == initial + total_funded(ops) - total_paid(ops),
        vault_after(initial, ops) >= 0,
    decreases ops.len(),
{
    if ops.len() > 0 {
        lemma_vault_balance(initial, ops.drop_last());
    }
}

proof fn lemma_solvent_prefix(initial: int, ops: Seq<VaultOp>, i: int)
    requires
        solvent_history(initial, ops),
        0 <= i <= ops.len(),
    ensures
        solvent_history(initial, ops.take(i)),
    decreases ops.len(),
{
    if i == ops.len() {
        assert(ops.take(i) =~= ops);
    } else {
        assert(ops.drop_last().take(i) =~= ops.take(i));
        lemma_solvent_prefix(initial, ops.drop_last(), i);
    }
}

/// The solvency law of the custody vault: over any history of funding credits
/// and solvency-checked payout debits that starts from a non-negative
/// balance, the final balance is exactly the initial balance plus everything
/// funded minus everything paid out, and the balance standing after any
/// prefix of the history — any intermediate point — is never negative.
pub proof fn lemma_vault_solvency(initial: int, ops: Seq<VaultOp>)
    requires
        initial >= 0,
        solvent_history(initial, ops),
    ensures
        vault_after(initial, ops) == initial + total_funded(ops) - total_paid(ops),
        forall|i: int| 0 <= i <= ops.len() ==> vault_after(initial, #[trigger] ops.take(i)) >= 0,
{
    lemma_vault_balance(initial, ops);
    assert forall|i: int| 0 <= i <= ops.len() implies vault_after(initial, #[trigger] ops.take(i))
        >= 0 by {
        lemma_solvent_prefix(initial, ops, i);
        lemma_vault_balance(initial, ops.take(i));
    }
}

/// The sum of every amount the payout log records, over unbounded integers.
pub open spec fn total_rewarded(log: Seq<TokenReward>) -> int
    decreases log.len(),
{
    if log.len() == 0 {
        0
    } else {
        total_rewarded(log.drop_last()) + log.last().amount
    }
}

/// The audit law of the distribution counter: a ledger whose
/// `total_distributed` equals the sum of every logged payout amount keeps
/// that equality across any successful payout — the counter and the log can
/// never drift apart, and a refused payout touches neither. Together with a
/// fresh ledger's zero counter and empty log, the counter always equals the
/// sum of all amounts ever paid out.
pub proof fn lemma_counter_matches_log(
    pre: GameState,
    post: GameState,
    vault_pre: u64,
    vault_post: u64,
    balance_pre: u64,
    balance_post: u64,
    log_pre: Seq<TokenReward>,
    log_post: Seq<TokenReward>,
    record: TokenReward,
)
    requires
        payout_applied(
            pre,
            post,
            vault_pre,
            vault_post,
            balance_pre,
            balance_post,
            log_pre,
            log_post,
            record,
        ),
        pre.total_distributed == total_rewarded(log_pre),
    ensures
        post.total_distributed == total_rewarded(log_post),
{
    assert(log_post.drop_last() =~= log_pre);
}

} // verus!
