//! The data model: global configuration, bet records, and the error kinds.

use vstd::prelude::*;

verus! {

/// Largest stake the engine accepts: any larger stake could owe a payout of
/// up to twice the stake, which would not fit in a `u64` balance.
pub const MAX_STAKE: u64 = 0x7fff_ffff_ffff_ffff;

/// Sentinel `result` value of a bet whose outcome is not yet known.
pub const RESULT_UNKNOWN: u8 = 255;

/// Lifecycle state of a bet: `Pending` is initial, `Settled` is terminal.
#[derive(Clone, Copy, Debug, PartialEq, Eq, Structural)]
pub enum BetStatus {
    Pending,
    Settled,
}

/// Every way an operation of the engine can fail. No error is retryable by
/// the engine itself; every failure leaves all state unchanged.
#[derive(Clone, Copy, Debug, PartialEq, Eq, Structural)]
pub enum ErrorCode {
    /// An admin-control call came from an identity other than the stored admin.
    Unauthorized,
    /// A stake was submitted while the game is paused.
    GamePaused,
    /// The predicted outcome is not 0 or 1.
    InvalidChoice,
    /// The stake lies outside the configured `[min_bet, max_bet]` bounds.
    BetOutOfBounds,
    /// The treasury cannot cover the worst-case payout at admission time.
    InsufficientTreasury,
    /// Settlement was attempted on a bet that is no longer pending.
    AlreadySettled,
    /// The token ledger rejected a requested transfer; the whole operation
    /// aborts with no partial state change.
    TransferFailed,
}

/// The global configuration record: created once at setup, thereafter mutated
/// only through admin control.
#[derive(Clone, Copy, Debug, PartialEq, Eq, Structural)]
pub struct GlobalState {
    /// Identity of the sole principal authorized to reconfigure.
    pub admin: u64,
    /// Identifier of the fungible asset accepted as stake and payout currency.
    pub accepted_asset: u64,
    /// Fee rate in basis points of the stake.
    pub fee_bps: u16,
    /// Inclusive lower bound on an accepted stake.
    pub min_bet: u64,
    /// Inclusive upper bound on an accepted stake.
    pub max_bet: u64,
    /// When true, new bets are rejected; settlement still proceeds.
    pub paused: bool,
    /// Identifier of the pooled treasury balance.
    pub treasury: u64,
}

impl GlobalState {
    /// Configuration invariant: the fee keeps the payout nonnegative and
    /// below twice the stake, the bet bounds are ordered, and every
    /// admissible stake has a payout that fits in a `u64` balance.
    pub open spec fn wf(self) -> bool {
        &&& self.fee_bps < 20000
        &&& self.min_bet <= self.max_bet
        &&& self.max_bet <= MAX_STAKE
    }
}

/// One wager: created by placing a bet, mutated exactly once by settlement,
/// and retained afterwards as an audit record.
#[derive(Clone, Copy, Debug, PartialEq, Eq, Structural)]
pub struct Bet {
    /// Identity of the staking participant. Immutable after creation.
    pub player: u64,
    /// Stake amount. Immutable after creation.
    pub amount: u64,
    /// The participant's predicted outcome, 0 or 1. Immutable after creation.
    pub choice: u8,
    /// Lifecycle state.
    pub status: BetStatus,
    /// Outcome value, 0 or 1 once settled; `RESULT_UNKNOWN` while pending.
    pub result: u8,
    /// Timestamp of bet creation.
    pub created_at: i64,
    /// Timestamp of settlement; 0 while pending.
    pub settled_at: i64,
}

impl Bet {
    /// Record invariant: the choice is a valid outcome, the stake is within
    /// the machine bound, and the result matches the lifecycle state.
    pub open spec fn wf(self) -> bool {
        &&& self.choice <= 1
        &&& self.amount <= MAX_STAKE
        &&& (self.status == BetStatus::Pending ==> self.result == RESULT_UNKNOWN)
        &&& (self.status == BetStatus::Settled ==> self.result <= 1)
    }
}

} // verus!
