//! Laws that hold across calls: idempotent staking, the stake / unstake
//! round trip, sequential replay and the discipline of withdrawal.

use vstd::prelude::*;
use crate::payout::{BetResult, history_wf, payout_at, replay, replay_from, share};
use crate::plan::{stake_spec, unstake_spec, withdraw_spec};
use crate::position::{Betting, ConsolidatedState, State, consolidate_spec, idle_betting};

verus! {

/// Carries the outcome of a replay up to some round on over the rounds from
/// there to `end`: a stake that came through every round so far goes on, a
/// wipeout or an overflow stays as it is.
pub open spec fn continue_replay(
    history: Seq<Option<(u64, u64)>>,
    first: Option<BetResult>,
    mid: int,
    end: int,
) -> Option<BetResult> {
    match first {
        Some(BetResult::Success(b)) => replay(history, b, mid, end),
        other => other,
    }
}

proof fn lemma_replay_from_split(history: Seq<Option<(u64, u64)>>, balance: u64, begin: int, mid: int, end: int)
    requires
        history_wf(history),
        begin <= mid <= end,
    ensures
        replay_from(history, balance, begin, end) == match replay_from(history, balance, begin, mid) {
            Some(BetResult::Success(b)) => replay_from(history, b, mid, end),
            other => other,
        },
        replay_from(history, balance, begin, mid) matches Some(BetResult::Success(b)) ==> b >= balance,
    decreases mid - begin,
{
    if begin < mid {
        match payout_at(history, begin) {
            None => {},
            Some((total, pot)) => {
                let grown = balance + share(balance as int, total as int, pot as int);
                assert(history[begin] == Some((total, pot)));
                assert((balance as int) * 4294967296 / (total as int) * (pot as int) / 4294967296 >= 0)
                    by (nonlinear_arith)
                    requires
                        total > 0,
                ;
                if grown <= u64::MAX {
                    lemma_replay_from_split(history, grown as u64, begin + 1, mid, end);
                }
            },
        }
    }
}

/// Replay is sequential: replaying a stake over `[begin, end)` comes to the
/// same as replaying it over `[begin, mid)` and carrying the result on over
/// `[mid, end)`. Taking `mid = begin + 1` again and again, a run of missed
/// rounds is replayed exactly as the same rounds one at a time.
pub proof fn lemma_replay_sequential(history: Seq<Option<(u64, u64)>>, balance: u64, begin: int, mid: int, end: int)
    requires
        history_wf(history),
        begin <= mid <= end,
    ensures
        replay(history, balance, begin, end) == continue_replay(
            history,
            replay(history, balance, begin, mid),
            mid,
            end,
        ),
{
    if balance != 0 {
        lemma_replay_from_split(history, balance, begin, mid, end);
    }
}

/// Staking twice in one round: once a first stake has kept the position,
/// a second one leaves the position, the free balance and the stake waiting
/// to enter or leave play as the first left them.
pub proof fn lemma_stake_idempotent(
    history: Seq<Option<(u64, u64)>>,
    now: u64,
    betting: Betting,
    free: u64,
    incoming: u64,
    outgoing: u64,
)
    requires
        history_wf(history),
        now < u64::MAX,
        stake_spec(history, now, betting, free, incoming, outgoing) matches Some(s) && s.keep,
    ensures
        stake_spec(history, now, betting, free, incoming, outgoing) matches Some(s) && stake_spec(
            history,
            now,
            s.betting,
            s.free,
            s.incoming,
            s.outgoing,
        ) == Some(s),
{
}

/// Staking and then unstaking in one round, from a position that is idle
/// once brought up to date, leaves the account idle and the stake waiting to
/// enter or leave play as it was. (Neither action touches the stake at risk.)
pub proof fn lemma_stake_unstake_round_trip(
    history: Seq<Option<(u64, u64)>>,
    now: u64,
    betting: Betting,
    free: u64,
    incoming: u64,
    outgoing: u64,
)
    requires
        history_wf(history),
        now + 2 <= u64::MAX,
        consolidate_spec(history, now, betting) matches Some((_, cs)) && cs == ConsolidatedState::Idle,
        stake_spec(history, now, betting, free, incoming, outgoing) is Some,
    ensures
        stake_spec(history, now, betting, free, incoming, outgoing) matches Some(s) && {
            let kept = if s.keep {
                s.betting
            } else {
                idle_betting()
            };
            unstake_spec(history, now, kept, s.free, s.incoming, s.outgoing) matches Some(u) && {
                &&& u.betting.state == State::Idle
                &&& u.incoming == incoming
                &&& u.outgoing == outgoing
                &&& u.free == s.free
            }
        },
{
}

/// A withdrawal deletes a position only where that position, brought up to
/// the current round, is idle and not locked past it.
pub proof fn lemma_withdraw_only_when_unlocked(
    history: Seq<Option<(u64, u64)>>,
    now: u64,
    betting: Betting,
    free: u64,
    incoming: u64,
    outgoing: u64,
)
    requires
        withdraw_spec(history, now, betting, free, incoming, outgoing) matches Some(s) && !s.keep,
    ensures
        consolidate_spec(history, now, betting) matches Some((c, cs)) && {
            &&& cs == ConsolidatedState::Idle
            &&& c.state == State::Idle
            &&& c.locked_until matches Some(l) ==> l <= now
        },
{
}

} // verus!
