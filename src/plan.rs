//! What staking, unstaking and withdrawing do to one account's position and
//! to the stake that waits to enter or leave play.

use vstd::prelude::*;
use crate::payout::history_wf;
use crate::position::{Betting, ConsolidatedState, State, consolidate, consolidate_spec};

verus! {

/// The outcome of one action on one account.
#[derive(Clone, Copy, Debug, PartialEq, Eq, Structural)]
pub struct Step {
    /// The position the account is left with.
    pub betting: Betting,
    /// Whether the position is kept; `false` deletes it and releases its lock.
    pub keep: bool,
    /// The account's free balance once reconciled with the position.
    pub free: u64,
    /// The stake that enters play at the next round.
    pub incoming: u64,
    /// The stake that leaves play at the next round unless it is a wipeout.
    pub outgoing: u64,
}

/// The free balance `free` once the position's stake has moved from
/// `old_balance` to `new_balance`: a gain is minted to the account, a loss is
/// slashed from it as far as its funds go. `None` when a gain overflows.
pub open spec fn reconciled_free(free: u64, old_balance: u64, new_balance: u64) -> Option<u64> {
    if new_balance > old_balance {
        if free + (new_balance - old_balance) > u64::MAX {
            None
        } else {
            Some((free + (new_balance - old_balance)) as u64)
        }
    } else if old_balance - new_balance <= free {
        Some((free - (old_balance - new_balance)) as u64)
    } else {
        Some(0)
    }
}

/// Staking in round `now`, with the account's record `betting` and free
/// balance `free`. An idle account stakes all its free balance from the next
/// round on; one that is already staked is left alone; one whose exit is due
/// at the next round stays in with the stake it has. A position wiped out to
/// nothing is deleted. `None` when the arithmetic overflows.
pub open spec fn stake_spec(
    history: Seq<Option<(u64, u64)>>,
    now: u64,
    betting: Betting,
    free: u64,
    incoming: u64,
    outgoing: u64,
) -> Option<Step> {
    match consolidate_spec(history, now, betting) {
        None => None,
        Some((c, cs)) => match reconciled_free(free, betting.balance, c.balance) {
            None => None,
            Some(f) => {
                if c.balance == 0 && cs != ConsolidatedState::Idle {
                    Some(Step { betting: c, keep: false, free: f, incoming, outgoing })
                } else {
                    match cs {
                        ConsolidatedState::Idle => {
                            if incoming + f > u64::MAX {
                                None
                            } else {
                                Some(
                                    Step {
                                        betting: Betting {
                                            state: State::BeganAt((now + 1) as u64),
                                            locked_until: c.locked_until,
                                            balance: f,
                                        },
                                        keep: f != 0,
                                        free: f,
                                        incoming: (incoming + f) as u64,
                                        outgoing,
                                    },
                                )
                            }
                        },
                        ConsolidatedState::AboutToEnd => {
                            if c.balance > outgoing {
                                None
                            } else {
                                Some(
                                    Step {
                                        betting: Betting {
                                            state: State::BeganAt(now),
                                            locked_until: c.locked_until,
                                            balance: c.balance,
                                        },
                                        keep: true,
                                        free: f,
                                        incoming,
                                        outgoing: (outgoing - c.balance) as u64,
                                    },
                                )
                            }
                        },
                        _ => Some(Step { betting: c, keep: true, free: f, incoming, outgoing }),
                    }
                }
            },
        },
    }
}

/// Unstaking in round `now`. A stake at risk in this round leaves at the
/// next one and stays locked one round longer; a stake not yet at risk is
/// withdrawn from play at once; anything else is left alone. A position with
/// nothing at stake is deleted. `None` when the arithmetic overflows.
pub open spec fn unstake_spec(
    history: Seq<Option<(u64, u64)>>,
    now: u64,
    betting: Betting,
    free: u64,
    incoming: u64,
    outgoing: u64,
) -> Option<Step> {
    match consolidate_spec(history, now, betting) {
        None => None,
        Some((c, cs)) => match reconciled_free(free, betting.balance, c.balance) {
            None => None,
            Some(f) => {
                if c.balance == 0 {
                    Some(Step { betting: c, keep: false, free: f, incoming, outgoing })
                } else {
                    match cs {
                        ConsolidatedState::JustBegan => {
                            if outgoing + c.balance > u64::MAX {
                                None
                            } else {
                                Some(
                                    Step {
                                        betting: Betting {
                                            state: State::EndingAt((now + 1) as u64),
                                            locked_until: Some((now + 2) as u64),
                                            balance: c.balance,
                                        },
                                        keep: true,
                                        free: f,
                                        incoming,
                                        outgoing: (outgoing + c.balance) as u64,
                                    },
                                )
                            }
                        },
                        ConsolidatedState::AboutToBegin => {
                            if c.balance > incoming {
                                None
                            } else {
                                Some(
                                    Step {
                                        betting: Betting {
                                            state: State::Idle,
                                            locked_until: c.locked_until,
                                            balance: c.balance,
                                        },
                                        keep: true,
                                        free: f,
                                        incoming: (incoming - c.balance) as u64,
                                        outgoing,
                                    },
                                )
                            }
                        },
                        _ => Some(Step { betting: c, keep: true, free: f, incoming, outgoing }),
                    }
                }
            },
        },
    }
}

/// Whether a position, once brought up to round `now`, may be withdrawn: it
/// is idle and not locked past `now`.
pub open spec fn withdraw_permitted(now: u64, c: Betting) -> bool {
    c.state == State::Idle && match c.locked_until {
        None => true,
        Some(l) => l <= now,
    }
}

/// Withdrawing in round `now`: a permitted withdrawal deletes the position
/// and releases its lock, anything else only brings the position up to date.
/// `None` when the arithmetic overflows.
pub open spec fn withdraw_spec(
    history: Seq<Option<(u64, u64)>>,
    now: u64,
    betting: Betting,
    free: u64,
    incoming: u64,
    outgoing: u64,
) -> Option<Step> {
    match consolidate_spec(history, now, betting) {
        None => None,
        Some((c, _)) => match reconciled_free(free, betting.balance, c.balance) {
            None => None,
            Some(f) => Some(
                Step { betting: c, keep: !withdraw_permitted(now, c), free: f, incoming, outgoing },
            ),
        },
    }
}

fn reconcile(free: u64, old_balance: u64, new_balance: u64) -> (r: Option<u64>)
    ensures
        r == reconciled_free(free, old_balance, new_balance),
{
    if new_balance > old_balance {
        let gain = new_balance - old_balance;
        if gain > u64::MAX - free {
            None
        } else {
            Some(free + gain)
        }
    } else if old_balance - new_balance <= free {
        Some(free - (old_balance - new_balance))
    } else {
        Some(0)
    }
}

/// Works out what staking does; see `stake_spec`.
pub fn plan_stake(
    history: &[Option<(u64, u64)>],
    now: u64,
    betting: Betting,
    free: u64,
    incoming: u64,
    outgoing: u64,
) -> (r: Option<Step>)
    requires
        history_wf(history@),
        now < u64::MAX,
    ensures
        r == stake_spec(history@, now, betting, free, incoming, outgoing),
{
    let (c, cs) = match consolidate(history, now, betting) {
        None => return None,
        Some(x) => x,
    };
    let f = match reconcile(free, betting.balance, c.balance) {
        None => return None,
        Some(f) => f,
    };
    if c.balance == 0 && cs != ConsolidatedState::Idle {
        return Some(Step { betting: c, keep: false, free: f, incoming, outgoing });
    }
    match cs {
        ConsolidatedState::Idle => {
            if f > u64::MAX - incoming {
                None
            } else {
                Some(
                    Step {
                        betting: Betting {
                            state: State::BeganAt(now + 1),
                            locked_until: c.locked_until,
                            balance: f,
                        },
                        keep: f != 0,
                        free: f,
                        incoming: incoming + f,
                        outgoing,
                    },
                )
            }
        },
        ConsolidatedState::AboutToEnd => {
            if c.balance > outgoing {
                None
            } else {
                Some(
                    Step {
                        betting: Betting {
                            state: State::BeganAt(now),
                            locked_until: c.locked_until,
                            balance: c.balance,
                        },
                        keep: true,
                        free: f,
                        incoming,
                        outgoing: outgoing - c.balance,
                    },
                )
            }
        },
        _ => Some(Step { betting: c, keep: true, free: f, incoming, outgoing }),
    }
}

/// Works out what unstaking does; see `unstake_spec`.
pub fn plan_unstake(
    history: &[Option<(u64, u64)>],
    now: u64,
    betting: Betting,
    free: u64,
    incoming: u64,
    outgoing: u64,
) -> (r: Option<Step>)
    requires
        history_wf(history@),
        now + 2 <= u64::MAX,
    ensures
        r == unstake_spec(history@, now, betting, free, incoming, outgoing),
{
    let (c, cs) = match consolidate(history, now, betting) {
        None => return None,
        Some(x) => x,
    };
    let f = match reconcile(free, betting.balance, c.balance) {
        None => return None,
        Some(f) => f,
    };
    if c.balance == 0 {
        return Some(Step { betting: c, keep: false, free: f, incoming, outgoing });
    }
    match cs {
        ConsolidatedState::JustBegan => {
            if c.balance > u64::MAX - outgoing {
                None
            } else {
                Some(
                    Step {
                        betting: Betting {
                            state: State::EndingAt(now + 1),
                            locked_until: Some(now + 2),
                            balance: c.balance,
                        },
                        keep: true,
                        free: f,
                        incoming,
                        outgoing: outgoing + c.balance,
                    },
                )
            }
        },
        ConsolidatedState::AboutToBegin => {
            if c.balance > incoming {
                None
            } else {
                Some(
                    Step {
                        betting: Betting {
                            state: State::Idle,
                            locked_until: c.locked_until,
                            balance: c.balance,
                        },
                        keep: true,
                        free: f,
                        incoming: incoming - c.balance,
                        outgoing,
                    },
                )
            }
        },
        _ => Some(Step { betting: c, keep: true, free: f, incoming, outgoing }),
    }
}

/// Works out what withdrawing does; see `withdraw_spec`.
pub fn plan_withdraw(
    history: &[Option<(u64, u64)>],
    now: u64,
    betting: Betting,
    free: u64,
    incoming: u64,
    outgoing: u64,
) -> (r: Option<Step>)
    requires
        history_wf(history@),
    ensures
        r == withdraw_spec(history@, now, betting, free, incoming, outgoing),
{
    let (c, _) = match consolidate(history, now, betting) {
        None => return None,
        Some(x) => x,
    };
    let f = match reconcile(free, betting.balance, c.balance) {
        None => return None,
        Some(f) => f,
    };
    let unlocked = match c.locked_until {
        None => true,
        Some(l) => l <= now,
    };
    let permitted = c.state == State::Idle && unlocked;
    Some(Step { betting: c, keep: !permitted, free: f, incoming, outgoing })
}

} // verus!
