//! An escrow-based, two-outcome wager settlement engine.
//!
//! A participant stakes a fungible balance on a predicted outcome; a later
//! randomness delivery decides the actual outcome, and the engine atomically
//! moves funds between the participant's balance and a pooled treasury
//! according to a fixed-fee payout rule. The engine covers the bet lifecycle
//! state machine, the escrow/payout arithmetic, the treasury-solvency check at
//! admission time, and the authorization rules that gate every mutation.
//!
//! The underlying fungible-asset ledger is an external collaborator: the
//! operations here take the relevant balances as plain values and state, in
//! their contracts, exactly which transfers they perform on them.

pub mod payout;
pub mod state;
pub mod engine;
