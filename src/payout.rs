//! Proportional payouts and the replay of recorded round outcomes.

use vstd::prelude::*;

verus! {

/// The scale (two to the 32nd) by which a stake is widened before it is
/// divided, so that its share of the pot keeps 32 extra bits of precision.
pub const PRECISION: u128 = 4294967296;

/// The outcome of replaying a stake over a run of rounds.
#[derive(Clone, Copy, Debug, PartialEq, Eq, Structural)]
pub enum BetResult {
    /// Every round of the run was a win; the stake grew to this amount.
    Success(u64),
    /// A wipeout round was met; the stake was cut to this amount.
    Wipeout(u64),
}

/// The share of `pot` owed to `balance` out of `total` staked: the stake is
/// scaled up by `PRECISION`, divided by the total, multiplied by the pot and
/// scaled back down, each division rounding towards zero.
pub open spec fn share(balance: int, total: int, pot: int) -> int {
    balance * (PRECISION as int) / total * pot / (PRECISION as int)
}

/// The recorded outcome of `round`: the total staked and the pot of a win,
/// `None` for a wipeout or a round that was never settled.
pub open spec fn payout_at(history: Seq<Option<(u64, u64)>>, round: int) -> Option<(u64, u64)> {
    if 0 <= round < history.len() {
        history[round]
    } else {
        None
    }
}

/// Every recorded win has a positive total at stake.
pub open spec fn history_wf(history: Seq<Option<(u64, u64)>>) -> bool {
    forall|i: int|
        0 <= i < history.len() ==> match #[trigger] history[i] {
            Some((total, _)) => total > 0,
            None => true,
        }
}

/// Replays `balance` over the rounds `[begin, end)`, one round at a time: each
/// win adds the running balance's share of that round's pot, and the first
/// wipeout halves the running balance and ends the replay. `None` when the
/// running balance outgrows a `u64`.
pub open spec fn replay_from(history: Seq<Option<(u64, u64)>>, balance: u64, begin: int, end: int)
    -> Option<BetResult>
    decreases end - begin,
{
    if begin >= end {
        Some(BetResult::Success(balance))
    } else {
        match payout_at(history, begin) {
            None => Some(BetResult::Wipeout(balance / 2)),
            Some((total, pot)) => {
                let grown = balance + share(balance as int, total as int, pot as int);
                if grown > u64::MAX {
                    None
                } else {
                    replay_from(history, grown as u64, begin + 1, end)
                }
            },
        }
    }
}

/// The balance that `balance`, staked over `[begin, end)`, comes to; a zero
/// stake counts as wiped out at once.
pub open spec fn replay(history: Seq<Option<(u64, u64)>>, balance: u64, begin: int, end: int) -> Option<
    BetResult,
> {
    if balance == 0 {
        Some(BetResult::Wipeout(0))
    } else {
        replay_from(history, balance, begin, end)
    }
}

/// The share of `pot` owed to `balance` when `total` was at stake; `None`
/// when that share does not fit in a `u64`.
pub fn payout_share(balance: u64, total: u64, pot: u64) -> (r: Option<u64>)
    requires
        total > 0,
    ensures
        match r {
            Some(s) => s == share(balance as int, total as int, pot as int),
            None => share(balance as int, total as int, pot as int) > u64::MAX,
        },
{
    let scaled: u128 = balance as u128 * PRECISION;
    let per_unit: u128 = scaled / (total as u128);
    match per_unit.checked_mul(pot as u128) {
        None => {
            assert(per_unit * pot / (PRECISION as int) > u64::MAX);
            None
        },
        Some(product) => {
            let s: u128 = product / PRECISION;
            if s > u64::MAX as u128 {
                None
            } else {
                Some(s as u64)
            }
        },
    }
}

/// Replays `balance` over the rounds `[begin, end)` of `history`; `None`
/// when the balance would outgrow a `u64` on the way.
pub fn calculate_new_balance(history: &[Option<(u64, u64)>], balance: u64, begin: u64, end: u64) -> (r:
    Option<BetResult>)
    requires
        history_wf(history@),
    ensures
        r == replay(history@, balance, begin as int, end as int),
{
    if balance == 0 {
        return Some(BetResult::Wipeout(0));
    }
    let mut round: u64 = begin;
    let mut running: u64 = balance;
    while round < end
        invariant
            history_wf(history@),
            replay_from(history@, running, round as int, end as int) == replay(
                history@,
                balance,
                begin as int,
                end as int,
            ),
        decreases end - round,
    {
        if round >= history.len() as u64 {
            return Some(BetResult::Wipeout(running / 2));
        }
        match history[round as usize] {
            None => {
                return Some(BetResult::Wipeout(running / 2));
            },
            Some((total, pot)) => {
                assert(total > 0) by {
                    assert(history@[round as int] == Some((total, pot)));
                }
                match payout_share(running, total, pot) {
                    None => {
                        return None;
                    },
                    Some(s) => {
                        if s > u64::MAX - running {
                            return None;
                        }
                        running = running + s;
                    },
                }
            },
        }
        round = round + 1;
    }
    Some(BetResult::Success(running))
}

} // verus!
