//! The betting module: configuration, the round clock, the shared stake
//! aggregates, the payout history and every account's position.

use vstd::prelude::*;
use std::collections::HashMap;
use crate::ledger::Balances;
use crate::payout::{history_wf, payout_at};
use crate::plan::{Step, plan_stake, plan_unstake, plan_withdraw, stake_spec, unstake_spec, withdraw_spec};
use crate::position::{Betting, idle_betting};

verus! {

/// Trait for getting a price.
pub trait FetchPrice<Balance> {
    /// Fetch the price.
    fn fetch_price() -> Balance;
}

/// Why an action was refused. A refused action changes nothing.
#[derive(Clone, Copy, Debug, PartialEq, Eq, Structural)]
pub enum BetError {
    /// The action was not signed by an account.
    BadOrigin,
    /// An amount or a round number would leave the range of a `u64`.
    Overflow,
}

/// Why a configuration was refused.
#[derive(Clone, Copy, Debug, PartialEq, Eq, Structural)]
pub enum ConfigError {
    /// No price samples per period.
    NoSamples,
    /// More price samples per period than there are blocks in it.
    TooManySamples,
    /// A target attenuation of one or less, which would never raise the target.
    WeakAttenuation,
}

/// Sum of the prices in `prices`.
pub open spec fn sum_prices(prices: Seq<u64>) -> int
    decreases prices.len(),
{
    if prices.len() == 0 {
        0
    } else {
        sum_prices(prices.drop_last()) + prices.last()
    }
}

/// The mean price over a period: the sum of its prices divided by the
/// number of samples that a period takes.
pub open spec fn mean_price(prices: Seq<u64>, samples: u32) -> int {
    sum_prices(prices) / (samples as int)
}

/// Whether block `n` takes a price sample: a period of `period` blocks is cut
/// into `samples` segments that end at its last block, and the last block of
/// each segment takes a sample.
pub open spec fn is_sample_block(period: u64, samples: u32, n: u64) -> bool {
    let segment: int = period as int / samples as int;
    let left: int = period as int - 1 - n as int % period as int;
    left % segment == 0 && left / segment < samples as int
}

/// Whether block `n` is the last block of its period.
pub open spec fn is_period_end(period: u64, n: u64) -> bool {
    n % period == period - 1
}

/// The stake that leaves play after a win: the outgoing stake grown by its
/// share of the pot.
pub open spec fn accrued_outgoing(outgoing: u64, total: u64, pot: u64) -> int {
    outgoing * (total + pot) / (total as int)
}

/// The target after a wipeout: raised by one part in `attenuation`, the
/// division rounding first.
pub open spec fn raised_target(target: u64, attenuation: u64) -> int {
    target / attenuation * (attenuation + 1)
}

/// The betting module's state.
pub struct Module {
    /// Period in which betting happens, measured in blocks.
    pub period: u64,
    /// The number of times to sample the spot price per period.
    pub samples: u32,
    /// Factor controlling how fast the target climbs back after a wipeout.
    pub target_attenuation: u64,
    /// The target price to beat.
    pub target: u64,
    /// Index of the current period.
    pub index: u64,
    /// Betting records of the accounts that take part.
    pub bets: HashMap<u64, Betting>,
    /// This period's prices.
    pub prices: Vec<u64>,
    /// The pot.
    pub pot: u64,
    /// The stake at risk at the end of the current period.
    pub total: u64,
    /// The stake that joins play at the next period.
    pub incoming: u64,
    /// The stake that leaves play at the next period unless it is a wipeout.
    pub outgoing: u64,
    /// Payout history by period: the total at stake and the pot of a win,
    /// `None` for a wipeout or a period with nothing at stake.
    pub payouts: Vec<Option<(u64, u64)>>,
}

impl Module {
    /// The configuration is usable, and the history has one entry for each
    /// period that has ended.
    pub open spec fn wf(&self) -> bool {
        &&& self.samples >= 1
        &&& self.samples as u64 <= self.period
        &&& self.target_attenuation > 1
        &&& self.payouts@.len() == self.index
        &&& history_wf(self.payouts@)
        &&& self.index + 2 <= u64::MAX
    }

    /// The betting record of `who`; one that was never written is idle.
    pub open spec fn bet_of(&self, who: u64) -> Betting {
        if self.bets@.contains_key(who) {
            self.bets@[who]
        } else {
            idle_betting()
        }
    }

    /// Everything but the positions and the staging aggregates is as in `pre`.
    pub open spec fn same_round(&self, pre: &Module) -> bool {
        &&& self.period == pre.period
        &&& self.samples == pre.samples
        &&& self.target_attenuation == pre.target_attenuation
        &&& self.target == pre.target
        &&& self.index == pre.index
        &&& self.prices@ == pre.prices@
        &&& self.pot == pre.pot
        &&& self.total == pre.total
        &&& self.payouts@ == pre.payouts@
    }

    /// Nothing that the module holds differs from `pre`.
    pub open spec fn unchanged(&self, pre: &Module) -> bool {
        &&& self.same_round(pre)
        &&& self.bets@ == pre.bets@
        &&& self.incoming == pre.incoming
        &&& self.outgoing == pre.outgoing
    }

    /// `self` is `pre` after `step` was taken on the account `who`.
    pub open spec fn stepped(&self, pre: &Module, who: u64, step: Step) -> bool {
        &&& self.same_round(pre)
        &&& self.bets@ == if step.keep {
            pre.bets@.insert(who, step.betting)
        } else {
            pre.bets@.remove(who)
        }
        &&& self.incoming == step.incoming
        &&& self.outgoing == step.outgoing
    }

    /// Whether a period that ends with `prices` sampled can be settled
    /// without leaving the range of a `u64`.
    pub open spec fn settles(&self, prices: Seq<u64>) -> bool {
        &&& self.index + 3 <= u64::MAX
        &&& self.total != 0 ==> if mean_price(prices, self.samples) < self.target {
            let t = self.total + self.pot + self.incoming - accrued_outgoing(
                self.outgoing,
                self.total,
                self.pot,
            );
            0 <= t <= u64::MAX
        } else {
            raised_target(self.target, self.target_attenuation) <= u64::MAX
        }
    }

    /// `self` is `pre` after the period ended with `prices` sampled. With
    /// nothing at stake no outcome is decided. Else a mean below the target
    /// is a win: the pot is shared out, the target drops to the mean, the
    /// outgoing stake leaves with its share and the incoming stake joins. A
    /// mean at or above the target is a wipeout: the target is raised, the
    /// outgoing stake is forfeited and only the incoming stake stays in play.
    pub open spec fn settled(&self, pre: &Module, prices: Seq<u64>) -> bool {
        &&& self.period == pre.period
        &&& self.samples == pre.samples
        &&& self.target_attenuation == pre.target_attenuation
        &&& self.index == pre.index + 1
        &&& self.prices@ == Seq::<u64>::empty()
        &&& self.bets@ == pre.bets@
        &&& self.incoming == 0
        &&& if pre.total == 0 {
            &&& self.total == pre.incoming
            &&& self.outgoing == pre.outgoing
            &&& self.pot == pre.pot
            &&& self.target == pre.target
            &&& self.payouts@ == pre.payouts@.push(None)
        } else if mean_price(prices, pre.samples) < pre.target {
            &&& self.total == pre.total + pre.pot + pre.incoming - accrued_outgoing(
                pre.outgoing,
                pre.total,
                pre.pot,
            )
            &&& self.outgoing == 0
            &&& self.pot == 0
            &&& self.target == mean_price(prices, pre.samples)
            &&& self.payouts@ == pre.payouts@.push(Some((pre.total, pre.pot)))
        } else {
            &&& self.total == pre.incoming
            &&& self.outgoing == 0
            &&& self.pot == pre.pot
            &&& self.target == raised_target(pre.target, pre.target_attenuation)
            &&& self.payouts@ == pre.payouts@.push(None)
        }
    }

    /// `self` is `pre` after block `n` was finalized with `price` as the
    /// spot price, with result `r`.
    pub open spec fn finalized(&self, pre: &Module, n: u64, price: u64, r: Result<(), BetError>) -> bool {
        if !is_sample_block(pre.period, pre.samples, n) {
            r == Ok::<(), BetError>(()) && self.unchanged(pre)
        } else if !is_period_end(pre.period, n) {
            &&& r == Ok::<(), BetError>(())
            &&& self.prices@ == pre.prices@.push(price)
            &&& self.bets@ == pre.bets@
            &&& self.payouts@ == pre.payouts@
            &&& self.period == pre.period
            &&& self.samples == pre.samples
            &&& self.target_attenuation == pre.target_attenuation
            &&& self.target == pre.target
            &&& self.index == pre.index
            &&& self.pot == pre.pot
            &&& self.total == pre.total
            &&& self.incoming == pre.incoming
            &&& self.outgoing == pre.outgoing
        } else {
            &&& (r is Ok <==> pre.settles(pre.prices@.push(price)))
            &&& r is Ok ==> self.settled(pre, pre.prices@.push(price))
            &&& r is Err ==> r == Err::<(), BetError>(BetError::Overflow) && self.unchanged(pre)
        }
    }

    /// A module at period zero, with no stake, an empty pot and `target` to beat.
    pub fn new(period: u64, samples: u32, target_attenuation: u64, target: u64) -> (r: Result<
        Module,
        ConfigError,
    >)
        ensures
            samples == 0 ==> r == Err::<Module, ConfigError>(ConfigError::NoSamples),
            samples != 0 && samples as u64 > period ==> r == Err::<Module, ConfigError>(
                ConfigError::TooManySamples,
            ),
            samples != 0 && samples as u64 <= period && target_attenuation <= 1 ==> r == Err::<
                Module,
                ConfigError,
            >(ConfigError::WeakAttenuation),
            r matches Ok(m) ==> {
                &&& m.wf()
                &&& m.period == period
                &&& m.samples == samples
                &&& m.target_attenuation == target_attenuation
                &&& m.target == target
                &&& m.index == 0
                &&& m.bets@ == Map::<u64, Betting>::empty()
                &&& m.prices@ == Seq::<u64>::empty()
                &&& m.pot == 0
                &&& m.total == 0
                &&& m.incoming == 0
                &&& m.outgoing == 0
                &&& m.payouts@ == Seq::<Option<(u64, u64)>>::empty()
            },
            samples != 0 && samples as u64 <= period && target_attenuation > 1 ==> r is Ok,
    {
        if samples == 0 {
            return Err(ConfigError::NoSamples);
        }
        if samples as u64 > period {
            return Err(ConfigError::TooManySamples);
        }
        if target_attenuation <= 1 {
            return Err(ConfigError::WeakAttenuation);
        }
        Ok(
            Module {
                period,
                samples,
                target_attenuation,
                target,
                index: 0,
                bets: HashMap::new(),
                prices: Vec::new(),
                pot: 0,
                total: 0,
                incoming: 0,
                outgoing: 0,
                payouts: Vec::new(),
            },
        )
    }

    /// Period in which betting happens, measured in blocks.
    pub fn period(&self) -> (r: u64)
        ensures
            r == self.period,
    {
        self.period
    }

    /// The number of times the spot price is sampled per period.
    pub fn samples(&self) -> (r: u32)
        ensures
            r == self.samples,
    {
        self.samples
    }

    /// Factor controlling how fast the target climbs back after a wipeout.
    pub fn target_attenuation(&self) -> (r: u64)
        ensures
            r == self.target_attenuation,
    {
        self.target_attenuation
    }

    /// The target price to beat.
    pub fn target(&self) -> (r: u64)
        ensures
            r == self.target,
    {
        self.target
    }

    /// Index of the current period.
    pub fn index(&self) -> (r: u64)
        ensures
            r == self.index,
    {
        self.index
    }

    /// This period's prices.
    pub fn prices(&self) -> (r: Vec<u64>)
        ensures
            r@ == self.prices@,
    {
        self.prices.clone()
    }

    /// The pot.
    pub fn pot(&self) -> (r: u64)
        ensures
            r == self.pot,
    {
        self.pot
    }

    /// The stake at risk at the end of the current period.
    pub fn total(&self) -> (r: u64)
        ensures
            r == self.total,
    {
        self.total
    }

    /// The stake that joins play at the next period.
    pub fn incoming(&self) -> (r: u64)
        ensures
            r == self.incoming,
    {
        self.incoming
    }

    /// The stake that leaves play at the next period unless it is a wipeout.
    pub fn outgoing(&self) -> (r: u64)
        ensures
            r == self.outgoing,
    {
        self.outgoing
    }

    /// The recorded outcome of period `round`: the total at stake and the
    /// pot of a win, `None` for a wipeout or a period not yet settled.
    pub fn payouts(&self, round: u64) -> (r: Option<(u64, u64)>)
        ensures
            r == payout_at(self.payouts@, round as int),
    {
        if round < self.payouts.len() as u64 {
            self.payouts[round as usize]
        } else {
            None
        }
    }

    /// The betting record of `who`.
    pub fn bets(&self, who: u64) -> (r: Betting)
        ensures
            r == self.bet_of(who),
    {
        match self.bets.get(&who) {
            Some(b) => *b,
            None => Betting::default(),
        }
    }

    /// Contribute some funds to the pot. (The funds are assumed to be burned
    /// elsewhere in the system.)
    pub fn contribute(&mut self, value: u64)
        requires
            old(self).pot + value <= u64::MAX,
        ensures
            final(self).pot == old(self).pot + value,
            final(self).period == old(self).period,
            final(self).samples == old(self).samples,
            final(self).target_attenuation == old(self).target_attenuation,
            final(self).target == old(self).target,
            final(self).index == old(self).index,
            final(self).bets@ == old(self).bets@,
            final(self).prices@ == old(self).prices@,
            final(self).total == old(self).total,
            final(self).incoming == old(self).incoming,
            final(self).outgoing == old(self).outgoing,
            final(self).payouts@ == old(self).payouts@,
    {
        self.pot = self.pot + value;
    }

    /// Writes `step` out for `who`: the position, the staging aggregates and
    /// the account's free balance; a deleted position also loses its lock,
    /// and with `lock_kept` a kept one is locked.
    fn commit(&mut self, ledger: &mut Balances, who: u64, step: Step, lock_kept: bool)
        requires
            old(self).wf(),
        ensures
            final(self).wf(),
            final(self).stepped(old(self), who, step),
            final(ledger).free_of(who) == step.free,
            forall|a: u64| a != who ==> final(ledger).free_of(a) == old(ledger).free_of(a),
            final(ledger).locks@ == if !step.keep {
                old(ledger).locks@.remove(who)
            } else if lock_kept {
                old(ledger).locks@.insert(who)
            } else {
                old(ledger).locks@
            },
    {
        let free = ledger.free_balance(who);
        if step.free > free {
            ledger.deposit_creating(who, step.free - free);
        } else {
            ledger.slash(who, free - step.free);
        }
        if step.keep {
            self.bets.insert(who, step.betting);
            if lock_kept {
                ledger.set_lock(who);
            }
        } else {
            self.bets.remove(&who);
            ledger.remove_lock(who);
        }
        self.incoming = step.incoming;
        self.outgoing = step.outgoing;
    }

    /// Add the sender to the betting system. From the next period on they bet
    /// that the price will fall below the target, and their funds are locked.
    /// A sender who has bet before first has the payouts of the periods since
    /// brought to account.
    pub fn bet(&mut self, origin: Option<u64>, ledger: &mut Balances) -> (r: Result<(), BetError>)
        requires
            old(self).wf(),
        ensures
            final(self).wf(),
            r is Err ==> *final(self) == *old(self) && *final(ledger) == *old(ledger),
            origin is None ==> r == Err::<(), BetError>(BetError::BadOrigin),
            origin matches Some(who) ==> {
                let s = stake_spec(
                    old(self).payouts@,
                    old(self).index,
                    old(self).bet_of(who),
                    old(ledger).free_of(who),
                    old(self).incoming,
                    old(self).outgoing,
                );
                &&& (r is Ok <==> s is Some)
                &&& r is Err ==> r == Err::<(), BetError>(BetError::Overflow)
                &&& s matches Some(step) ==> {
                    &&& final(self).stepped(old(self), who, step)
                    &&& final(ledger).free_of(who) == step.free
                    &&& forall|a: u64| a != who ==> final(ledger).free_of(a) == old(ledger).free_of(a)
                    &&& final(ledger).locks@ == if step.keep {
                        old(ledger).locks@.insert(who)
                    } else {
                        old(ledger).locks@.remove(who)
                    }
                }
            },
    {
        let who = match origin {
            None => return Err(BetError::BadOrigin),
            Some(w) => w,
        };
        let betting = self.bets(who);
        let free = ledger.free_balance(who);
        match plan_stake(&self.payouts, self.index, betting, free, self.incoming, self.outgoing) {
            None => Err(BetError::Overflow),
            Some(step) => {
                self.commit(ledger, who, step, true);
                Ok(())
            },
        }
    }

    /// Remove the sender from the betting system. From the next period on
    /// they no longer bet, and their funds stay locked for one further period.
    pub fn unbet(&mut self, origin: Option<u64>, ledger: &mut Balances) -> (r: Result<(), BetError>)
        requires
            old(self).wf(),
        ensures
            final(self).wf(),
            r is Err ==> *final(self) == *old(self) && *final(ledger) == *old(ledger),
            origin is None ==> r == Err::<(), BetError>(BetError::BadOrigin),
            origin matches Some(who) ==> {
                let s = unstake_spec(
                    old(self).payouts@,
                    old(self).index,
                    old(self).bet_of(who),
                    old(ledger).free_of(who),
                    old(self).incoming,
                    old(self).outgoing,
                );
                &&& (r is Ok <==> s is Some)
                &&& r is Err ==> r == Err::<(), BetError>(BetError::Overflow)
                &&& s matches Some(step) ==> {
                    &&& final(self).stepped(old(self), who, step)
                    &&& final(ledger).free_of(who) == step.free
                    &&& forall|a: u64| a != who ==> final(ledger).free_of(a) == old(ledger).free_of(a)
                    &&& final(ledger).locks@ == if step.keep {
                        old(ledger).locks@
                    } else {
                        old(ledger).locks@.remove(who)
                    }
                }
            },
    {
        let who = match origin {
            None => return Err(BetError::BadOrigin),
            Some(w) => w,
        };
        let betting = self.bets(who);
        let free = ledger.free_balance(who);
        match plan_unstake(&self.payouts, self.index, betting, free, self.incoming, self.outgoing) {
            None => Err(BetError::Overflow),
            Some(step) => {
                self.commit(ledger, who, step, false);
                Ok(())
            },
        }
    }

    /// Withdraw from the system in general. Unless the sender is idle and past
    /// the lock period this only brings their position up to date.
    pub fn collect(&mut self, origin: Option<u64>, ledger: &mut Balances) -> (r: Result<(), BetError>)
        requires
            old(self).wf(),
        ensures
            final(self).wf(),
            r is Err ==> *final(self) == *old(self) && *final(ledger) == *old(ledger),
            origin is None ==> r == Err::<(), BetError>(BetError::BadOrigin),
            origin matches Some(who) ==> {
                let s = withdraw_spec(
                    old(self).payouts@,
                    old(self).index,
                    old(self).bet_of(who),
                    old(ledger).free_of(who),
                    old(self).incoming,
                    old(self).outgoing,
                );
                &&& (r is Ok <==> s is Some)
                &&& r is Err ==> r == Err::<(), BetError>(BetError::Overflow)
                &&& s matches Some(step) ==> {
                    &&& final(self).stepped(old(self), who, step)
                    &&& final(ledger).free_of(who) == step.free
                    &&& forall|a: u64| a != who ==> final(ledger).free_of(a) == old(ledger).free_of(a)
                    &&& final(ledger).locks@ == if step.keep {
                        old(ledger).locks@
                    } else {
                        old(ledger).locks@.remove(who)
                    }
                }
            },
    {
        let who = match origin {
            None => return Err(BetError::BadOrigin),
            Some(w) => w,
        };
        let betting = self.bets(who);
        let free = ledger.free_balance(who);
        match plan_withdraw(&self.payouts, self.index, betting, free, self.incoming, self.outgoing) {
            None => Err(BetError::Overflow),
            Some(step) => {
                self.commit(ledger, who, step, false);
                Ok(())
            },
        }
    }

    /// Forgets the position of `who`, whose funds have run out elsewhere.
    pub fn on_free_balance_zero(&mut self, who: u64)
        requires
            old(self).wf(),
        ensures
            final(self).wf(),
            final(self).bets@ == old(self).bets@.remove(who),
            final(self).same_round(old(self)),
            final(self).incoming == old(self).incoming,
            final(self).outgoing == old(self).outgoing,
    {
        self.bets.remove(&who);
    }
}

} // verus!
