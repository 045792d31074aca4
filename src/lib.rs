//! A periodic, price-indexed staking engine.
//!
//! Accounts lock their balance into recurring betting rounds. At the end of
//! each round the mean of a few price samples is compared against a target:
//! a mean below the target is a win that shares the pot among the stakers, a
//! mean at or above it is a wipeout. Each account's position is brought up to
//! date lazily, by replaying the recorded outcomes of the rounds it missed.

pub mod payout;
pub mod position;
pub mod ledger;
pub mod plan;
pub mod engine;
pub mod settlement;
pub mod laws;
