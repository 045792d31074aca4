//! One account's position and how it is brought up to date.

use vstd::prelude::*;
use crate::payout::{BetResult, replay, history_wf, calculate_new_balance};

verus! {

/// Where an account stands in the betting cycle.
#[derive(Clone, Copy, Debug, PartialEq, Eq, Structural)]
pub enum State {
    /// Not betting.
    Idle,
    /// Betting, with the stake at risk from this round on.
    BeganAt(u64),
    /// Leaving, with the stake taken out of play at this round.
    EndingAt(u64),
}

impl Default for State {
    fn default() -> (r: State)
        ensures
            r == State::Idle,
    {
        State::Idle
    }
}

/// The betting record of one account.
#[derive(Clone, Copy, Debug, PartialEq, Eq, Structural)]
pub struct Betting {
    /// Our current betting state.
    pub state: State,
    /// The round that our funds are locked until.
    pub locked_until: Option<u64>,
    /// The balance with which we are betting, as of the round that `state` implies.
    pub balance: u64,
}

/// The record of an account that has never bet.
pub open spec fn idle_betting() -> Betting {
    Betting { state: State::Idle, locked_until: None, balance: 0 }
}

impl Default for Betting {
    fn default() -> (r: Betting)
        ensures
            r == idle_betting(),
    {
        Betting { state: State::Idle, locked_until: None, balance: 0 }
    }
}

/// What a position is, once brought up to the current round.
#[derive(Clone, Copy, Debug, PartialEq, Eq, Structural)]
pub enum ConsolidatedState {
    /// Not betting (or wiped out).
    Idle,
    /// Staked, with the stake at risk from the next round on.
    AboutToBegin,
    /// Staked, with the stake at risk in the current round.
    JustBegan,
    /// Leaving when the next round starts.
    AboutToEnd,
}

/// The round before `n`, or round zero itself.
pub open spec fn prev_round(n: u64) -> u64 {
    if n == 0 {
        0
    } else {
        (n - 1) as u64
    }
}

/// `betting` brought up to round `now` by replaying the rounds it missed,
/// with the state it is then in; `None` when the replay outgrows a `u64`.
///
/// A stake at risk since an earlier round is replayed up to `now`: after wins
/// it is at risk from `now` on, after a wipeout it is idle and unlocked. An
/// exit that has come due is replayed over its last round at risk and leaves
/// the position idle. Anything else is left as it is.
pub open spec fn consolidate_spec(history: Seq<Option<(u64, u64)>>, now: u64, betting: Betting) -> Option<
    (Betting, ConsolidatedState),
> {
    match betting.state {
        State::BeganAt(n) => {
            if n < now {
                match replay(history, betting.balance, n as int, now as int) {
                    None => None,
                    Some(BetResult::Success(b)) => Some(
                        (
                            Betting {
                                state: State::BeganAt(now),
                                locked_until: betting.locked_until,
                                balance: b,
                            },
                            ConsolidatedState::JustBegan,
                        ),
                    ),
                    Some(BetResult::Wipeout(b)) => Some(
                        (
                            Betting { state: State::Idle, locked_until: None, balance: b },
                            ConsolidatedState::Idle,
                        ),
                    ),
                }
            } else if n == now {
                Some((betting, ConsolidatedState::JustBegan))
            } else {
                Some((betting, ConsolidatedState::AboutToBegin))
            }
        },
        State::EndingAt(n) => {
            if n <= now {
                match replay(history, betting.balance, prev_round(n) as int, n as int) {
                    None => None,
                    Some(BetResult::Success(b)) => Some(
                        (
                            Betting { state: State::Idle, locked_until: betting.locked_until, balance: b },
                            ConsolidatedState::Idle,
                        ),
                    ),
                    Some(BetResult::Wipeout(b)) => Some(
                        (
                            Betting { state: State::Idle, locked_until: None, balance: b },
                            ConsolidatedState::Idle,
                        ),
                    ),
                }
            } else {
                Some((betting, ConsolidatedState::AboutToEnd))
            }
        },
        State::Idle => Some((betting, ConsolidatedState::Idle)),
    }
}

/// Brings `betting` up to round `now` against the payout `history`.
pub fn consolidate(history: &[Option<(u64, u64)>], now: u64, betting: Betting) -> (r: Option<
    (Betting, ConsolidatedState),
>)
    requires
        history_wf(history@),
    ensures
        r == consolidate_spec(history@, now, betting),
{
    match betting.state {
        State::BeganAt(n) => {
            if n < now {
                match calculate_new_balance(history, betting.balance, n, now) {
                    None => None,
                    Some(BetResult::Success(b)) => Some(
                        (
                            Betting {
                                state: State::BeganAt(now),
                                locked_until: betting.locked_until,
                                balance: b,
                            },
                            ConsolidatedState::JustBegan,
                        ),
                    ),
                    Some(BetResult::Wipeout(b)) => Some(
                        (
                            Betting { state: State::Idle, locked_until: None, balance: b },
                            ConsolidatedState::Idle,
                        ),
                    ),
                }
            } else if n == now {
                Some((betting, ConsolidatedState::JustBegan))
            } else {
                Some((betting, ConsolidatedState::AboutToBegin))
            }
        },
        State::EndingAt(n) => {
            if n <= now {
                let begin: u64 = if n == 0 {
                    0
                } else {
                    n - 1
                };
                match calculate_new_balance(history, betting.balance, begin, n) {
                    None => None,
                    Some(BetResult::Success(b)) => Some(
                        (
                            Betting { state: State::Idle, locked_until: betting.locked_until, balance: b },
                            ConsolidatedState::Idle,
                        ),
                    ),
                    Some(BetResult::Wipeout(b)) => Some(
                        (
                            Betting { state: State::Idle, locked_until: None, balance: b },
                            ConsolidatedState::Idle,
                        ),
                    ),
                }
            } else {
                Some((betting, ConsolidatedState::AboutToEnd))
            }
        },
        State::Idle => Some((betting, ConsolidatedState::Idle)),
    }
}

} // verus!
