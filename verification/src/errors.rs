use vstd::prelude::*;

verus! {

/// Every way an operation of this engine can refuse to act. Each public
/// operation returns exactly one of these for each violated precondition, and
/// a failed operation leaves every piece of state untouched.
#[derive(Clone, Copy, Debug, PartialEq, Eq, Structural)]
pub enum ErrorCode {
    /// The caller is not the authority the operation demands.
    Unauthorized,
    /// A debit asks for more than the paying account holds.
    InsufficientBalance,
    /// A checked addition or multiplication on a reward or on the
    /// distribution counter would exceed the unsigned 64-bit range.
    InvalidRewardAmount,
    /// The ledger record has not been initialized yet.
    GameStateNotInitialized,
    /// A payout asks for more than the custody vault holds.
    InsufficientVaultBalance,
    /// The ledger record was already initialized once.
    AlreadyInitialized,
}

} // verus!
