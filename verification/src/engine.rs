//! The settlement engine: bet admission, randomness fulfillment, and admin
//! control, each an atomic operation over the configuration, the bet records,
//! and the two balances it touches.

use vstd::prelude::*;
use crate::payout::{spec_payout, calc_payout, lemma_payout_at_most_double};
use crate::state::{Bet, BetStatus, ErrorCode, GlobalState, MAX_STAKE, RESULT_UNKNOWN};

verus! {

/// The first admission check that a new bet fails, or `None` when every
/// check passes. The checks run in a fixed order: pause flag, choice
/// validity, stake bounds, then treasury solvency against the worst-case
/// payout of this bet.
pub open spec fn admission_error(
    g: GlobalState,
    treasury_balance: u64,
    amount: u64,
    choice: u8,
) -> Option<ErrorCode> {
    if g.paused {
        Some(ErrorCode::GamePaused)
    } else if choice > 1 {
        Some(ErrorCode::InvalidChoice)
    } else if amount < g.min_bet || amount > g.max_bet {
        Some(ErrorCode::BetOutOfBounds)
    } else if (treasury_balance as int) < spec_payout(amount as int, g.fee_bps as int) {
        Some(ErrorCode::InsufficientTreasury)
    } else {
        None
    }
}

/// Whether the external ledger can move `amount` between the two balances:
/// the source holds enough, and the destination does not overflow.
pub open spec fn transfer_fits(from_balance: u64, to_balance: u64, amount: int) -> bool {
    &&& amount <= from_balance
    &&& to_balance + amount <= u64::MAX
}

/// The bet record created by a successful admission.
pub open spec fn new_bet(player: u64, amount: u64, choice: u8, now: i64) -> Bet {
    Bet {
        player,
        amount,
        choice,
        status: BetStatus::Pending,
        result: RESULT_UNKNOWN,
        created_at: now,
        settled_at: 0,
    }
}

/// The bet record after settlement with outcome `flip` at time `now`: the
/// immutable fields carry over, the lifecycle fields are finalized.
pub open spec fn settle(b: Bet, flip: u8, now: i64) -> Bet {
    Bet {
        player: b.player,
        amount: b.amount,
        choice: b.choice,
        status: BetStatus::Settled,
        result: flip,
        created_at: b.created_at,
        settled_at: now,
    }
}

/// The outcome extracted from delivered randomness: the least-significant
/// bit of its first byte.
pub open spec fn spec_flip(byte0: u8) -> u8 {
    byte0 & 1
}

/// The win rule: the player wins iff the outcome is 1 and the choice was 1.
/// The rule is deliberately asymmetric: a choice of 0 can never win.
pub open spec fn is_win(flip: u8, choice: u8) -> bool {
    flip == 1 && choice == 1
}

/// The settlement core. It owns the global configuration and every bet
/// record; bets are keyed by their index, a monotonic counter, so two bets
/// can never collide. The balances it settles against live in the external
/// token ledger and are passed into each operation.
pub struct Engine {
    /// The global configuration record.
    pub global: GlobalState,
    /// Every bet ever placed, pending and settled alike; never deleted.
    pub bets: Vec<Bet>,
}

impl Engine {
    /// Engine invariant: the configuration invariant holds and every bet
    /// record is well-formed.
    pub open spec fn wf(self) -> bool {
        &&& self.global.wf()
        &&& forall|i: int| 0 <= i < self.bets@.len() ==> (#[trigger] self.bets@[i]).wf()
    }

    /// Creates the engine once at setup: the given configuration, unpaused,
    /// with no bets.
    pub fn initialize(
        admin: u64,
        accepted_asset: u64,
        fee_bps: u16,
        min_bet: u64,
        max_bet: u64,
        treasury: u64,
    ) -> (e: Engine)
        requires
            fee_bps < 20000,
            min_bet <= max_bet,
            max_bet <= MAX_STAKE,
        ensures
            e.global == (GlobalState {
                admin,
                accepted_asset,
                fee_bps,
                min_bet,
                max_bet,
                paused: false,
                treasury,
            }),
            e.bets@ == Seq::<Bet>::empty(),
            e.wf(),
    {
        Engine {
            global: GlobalState {
                admin,
                accepted_asset,
                fee_bps,
                min_bet,
                max_bet,
                paused: false,
                treasury,
            },
            bets: Vec::new(),
        }
    }

    /// Admin control: overwrites the fee, the bet bounds and the pause flag,
    /// all four unconditionally — unless the caller is not the stored admin,
    /// in which case the call fails `Unauthorized` and changes nothing.
    /// No other configuration field is ever mutated after setup.
    pub fn admin_update(
        &mut self,
        caller: u64,
        fee_bps: u16,
        min_bet: u64,
        max_bet: u64,
        paused: bool,
    ) -> (r: Result<(), ErrorCode>)
        requires
            old(self).wf(),
            fee_bps < 20000,
            min_bet <= max_bet,
            max_bet <= MAX_STAKE,
        ensures
            final(self).wf(),
            final(self).bets@ == old(self).bets@,
            match r {
                Ok(()) => {
                    &&& caller == old(self).global.admin
                    &&& final(self).global == (GlobalState {
                        fee_bps,
                        min_bet,
                        max_bet,
                        paused,
                        ..old(self).global
                    })
                },
                Err(err) => {
                    &&& err == ErrorCode::Unauthorized
                    &&& caller != old(self).global.admin
                    &&& final(self).global == old(self).global
                },
            },
    {
        if caller != self.global.admin {
            return Err(ErrorCode::Unauthorized);
        }
        self.global.fee_bps = fee_bps;
        self.global.min_bet = min_bet;
        self.global.max_bet = max_bet;
        self.global.paused = paused;
        Ok(())
    }

    /// Places a bet: runs the admission checks in order, escrows the stake
    /// from the player's balance into the treasury, and records a new
    /// `Pending` bet. On any failure nothing changes: all checks precede all
    /// effects, and a rejected escrow transfer aborts the whole operation.
    /// On success the returned bet identifier is the record's index.
    pub fn place_bet(
        &mut self,
        player: u64,
        amount: u64,
        choice: u8,
        now: i64,
        player_balance: &mut u64,
        treasury_balance: &mut u64,
    ) -> (r: Result<usize, ErrorCode>)
        requires
            old(self).wf(),
        ensures
            final(self).wf(),
            final(self).global == old(self).global,
            // Escrow moves funds, it never creates or destroys them.
            *final(player_balance) + *final(treasury_balance) == *old(player_balance) + *old(
                treasury_balance,
            ),
            match r {
                Ok(bet_id) => {
                    &&& admission_error(old(self).global, *old(treasury_balance), amount, choice)
                        is None
                    &&& transfer_fits(*old(player_balance), *old(treasury_balance), amount as int)
                    &&& bet_id == old(self).bets@.len()
                    &&& final(self).bets@ == old(self).bets@.push(
                        new_bet(player, amount, choice, now),
                    )
                    &&& *final(player_balance) == *old(player_balance) - amount
                    &&& *final(treasury_balance) == *old(treasury_balance) + amount
                },
                Err(err) => {
                    &&& final(self).bets@ == old(self).bets@
                    &&& *final(player_balance) == *old(player_balance)
                    &&& *final(treasury_balance) == *old(treasury_balance)
                    &&& match admission_error(
                        old(self).global,
                        *old(treasury_balance),
                        amount,
                        choice,
                    ) {
                        Some(gate) => err == gate,
                        None => {
                            &&& err == ErrorCode::TransferFailed
                            &&& !transfer_fits(
                                *old(player_balance),
                                *old(treasury_balance),
                                amount as int,
                            )
                        },
                    }
                },
            },
    {
        if self.global.paused {
            return Err(ErrorCode::GamePaused);
        }
        if choice > 1 {
            return Err(ErrorCode::InvalidChoice);
        }
        if amount < self.global.min_bet || amount > self.global.max_bet {
            return Err(ErrorCode::BetOutOfBounds);
        }
        let max_payout = calc_payout(amount, self.global.fee_bps);
        if *treasury_balance < max_payout {
            return Err(ErrorCode::InsufficientTreasury);
        }
        // Escrow the stake: the ledger rejects the transfer when the player
        // cannot cover it or the treasury balance would overflow.
        if amount > *player_balance || *treasury_balance > u64::MAX - amount {
            return Err(ErrorCode::TransferFailed);
        }
        *player_balance = *player_balance - amount;
        *treasury_balance = *treasury_balance + amount;
        let bet_id = self.bets.len();
        self.bets.push(Bet {
            player,
            amount,
            choice,
            status: BetStatus::Pending,
            result: RESULT_UNKNOWN,
            created_at: now,
            settled_at: 0,
        });
        Ok(bet_id)
    }

    /// Settles a pending bet with delivered randomness: the outcome is the
    /// least-significant bit of the first byte. On a win the payout moves
    /// from the treasury to the player; on a loss the escrowed stake simply
    /// stays in the treasury. Settlement and payout are atomic: a rejected
    /// payout transfer leaves the bet pending and both balances untouched.
    /// A bet that is no longer pending fails `AlreadySettled`, so the
    /// transition fires at most once. The pause flag does not gate
    /// settlement.
    pub fn fulfill_randomness(
        &mut self,
        bet_id: usize,
        randomness: &[u8; 32],
        now: i64,
        player_balance: &mut u64,
        treasury_balance: &mut u64,
    ) -> (r: Result<(), ErrorCode>)
        requires
            old(self).wf(),
            bet_id < old(self).bets@.len(),
        ensures
            final(self).wf(),
            final(self).global == old(self).global,
            // A payout moves funds, it never creates or destroys them.
            *final(player_balance) + *final(treasury_balance) == *old(player_balance) + *old(
                treasury_balance,
            ),
            ({
                let b = old(self).bets@[bet_id as int];
                let flip = spec_flip(randomness@[0]);
                let p = spec_payout(b.amount as int, old(self).global.fee_bps as int);
                match r {
                    Ok(()) => {
                        &&& b.status == BetStatus::Pending
                        &&& final(self).bets@ == old(self).bets@.update(
                            bet_id as int,
                            settle(b, flip, now),
                        )
                        &&& if is_win(flip, b.choice) {
                            &&& transfer_fits(*old(treasury_balance), *old(player_balance), p)
                            &&& *final(treasury_balance) == *old(treasury_balance) - p
                            &&& *final(player_balance) == *old(player_balance) + p
                        } else {
                            &&& *final(treasury_balance) == *old(treasury_balance)
                            &&& *final(player_balance) == *old(player_balance)
                        }
                    },
                    Err(err) => {
                        &&& final(self).bets@ == old(self).bets@
                        &&& *final(player_balance) == *old(player_balance)
                        &&& *final(treasury_balance) == *old(treasury_balance)
                        &&& if b.status != BetStatus::Pending {
                            err == ErrorCode::AlreadySettled
                        } else {
                            &&& err == ErrorCode::TransferFailed
                            &&& is_win(flip, b.choice)
                            &&& !transfer_fits(*old(treasury_balance), *old(player_balance), p)
                        }
                    },
                }
            }),
    {
        let b = self.bets[bet_id];
        if b.status != BetStatus::Pending {
            return Err(ErrorCode::AlreadySettled);
        }
        let byte0: u8 = randomness[0];
        let flip: u8 = byte0 & 1;
        proof {
            assert(byte0 & 1 <= 1) by (bit_vector);
        }
        if flip == 1 && b.choice == 1 {
            let p = calc_payout(b.amount, self.global.fee_bps);
            // Pay out from the treasury: the ledger rejects the transfer when
            // the treasury cannot cover it or the player balance would
            // overflow; the bet then stays pending.
            if p > *treasury_balance || *player_balance > u64::MAX - p {
                return Err(ErrorCode::TransferFailed);
            }
            *treasury_balance = *treasury_balance - p;
            *player_balance = *player_balance + p;
        }
        self.bets[bet_id] = Bet {
            player: b.player,
            amount: b.amount,
            choice: b.choice,
            status: BetStatus::Settled,
            result: flip,
            created_at: b.created_at,
            settled_at: now,
        };
        Ok(())
    }
}

/// Settlement is terminal: whatever outcome and time a bet is settled with,
/// the settled record is no longer pending, so a second settlement of the
/// same bet can only fail `AlreadySettled`.
pub proof fn lemma_settlement_is_terminal(b: Bet, flip: u8, now: i64)
    ensures
        settle(b, flip, now).status != BetStatus::Pending,
{
}

/// Settlement never alters who staked what on which outcome.
pub proof fn lemma_settlement_preserves_wager(b: Bet, flip: u8, now: i64)
    ensures
        settle(b, flip, now).player == b.player,
        settle(b, flip, now).amount == b.amount,
        settle(b, flip, now).choice == b.choice,
{
}

/// Pause gating: while the game is paused, admission fails `GamePaused`
/// whatever the stake, the choice, or the treasury balance.
pub proof fn lemma_pause_gates_admission(
    g: GlobalState,
    treasury_balance: u64,
    amount: u64,
    choice: u8,
)
    requires
        g.paused,
    ensures
        admission_error(g, treasury_balance, amount, choice) == Some(ErrorCode::GamePaused),
{
}

/// Choice gating: an unpaused game rejects every choice outside {0, 1} with
/// `InvalidChoice`.
pub proof fn lemma_choice_gates_admission(
    g: GlobalState,
    treasury_balance: u64,
    amount: u64,
    choice: u8,
)
    requires
        !g.paused,
        choice > 1,
    ensures
        admission_error(g, treasury_balance, amount, choice) == Some(ErrorCode::InvalidChoice),
{
}

/// Bounds gating: an unpaused game rejects every stake outside
/// `[min_bet, max_bet]` with `BetOutOfBounds`.
pub proof fn lemma_bounds_gate_admission(
    g: GlobalState,
    treasury_balance: u64,
    amount: u64,
    choice: u8,
)
    requires
        !g.paused,
        choice <= 1,
        amount < g.min_bet || amount > g.max_bet,
    ensures
        admission_error(g, treasury_balance, amount, choice) == Some(ErrorCode::BetOutOfBounds),
{
}

/// Solvency gating: a bet that passes the earlier checks is admitted exactly
/// when the treasury covers its worst-case payout.
pub proof fn lemma_solvency_gates_admission(
    g: GlobalState,
    treasury_balance: u64,
    amount: u64,
    choice: u8,
)
    requires
        !g.paused,
        choice <= 1,
        g.min_bet <= amount <= g.max_bet,
    ensures
        treasury_balance < spec_payout(amount as int, g.fee_bps as int)
            <==> admission_error(g, treasury_balance, amount, choice)
                == Some(ErrorCode::InsufficientTreasury),
        treasury_balance >= spec_payout(amount as int, g.fee_bps as int)
            <==> admission_error(g, treasury_balance, amount, choice) is None,
{
}

/// Win rule exactness: of the four possible (outcome, choice) pairs, only
/// (1, 1) is a win; in particular a choice of 0 can never win.
pub proof fn lemma_win_rule_exact(flip: u8, choice: u8)
    requires
        flip <= 1,
        choice <= 1,
    ensures
        is_win(flip, choice) <==> (flip == 1 && choice == 1),
        !is_win(flip, 0),
{
}

/// A bet admitted while the treasury held `treasury_balance` stays payable
/// at settlement under the same fee: after its own stake is escrowed, the
/// treasury covers its payout.
pub proof fn lemma_admitted_bet_is_payable(
    g: GlobalState,
    treasury_balance: u64,
    amount: u64,
    choice: u8,
)
    requires
        g.wf(),
        amount <= MAX_STAKE,
        admission_error(g, treasury_balance, amount, choice) is None,
        treasury_balance + amount <= u64::MAX,
    ensures
        treasury_balance + amount >= spec_payout(amount as int, g.fee_bps as int),
{
    lemma_payout_at_most_double(amount as int, g.fee_bps as int);
}

} // verus!
