//! Price sampling and the settlement at the end of each period.

use vstd::prelude::*;
use vstd::arithmetic::div_mod::lemma_hoist_over_denominator;
use crate::engine::{
    BetError, FetchPrice, Module, accrued_outgoing, is_period_end, is_sample_block, mean_price,
    raised_target, sum_prices,
};

verus! {

/// Sum of `prices`, widened so that it cannot overflow.
fn price_sum(prices: &Vec<u64>) -> (r: u128)
    ensures
        r == sum_prices(prices@),
{
    let mut sum: u128 = 0;
    let mut i: usize = 0;
    while i < prices.len()
        invariant
            i <= prices@.len(),
            sum == sum_prices(prices@.subrange(0, i as int)),
            sum <= i * (u64::MAX as int),
        decreases prices.len() - i,
    {
        assert(prices@.subrange(0, i + 1).drop_last() =~= prices@.subrange(0, i as int));
        assert(sum + prices@[i as int] <= (i + 1) * (u64::MAX as int)) by (nonlinear_arith)
            requires
                sum <= i * (u64::MAX as int),
                prices@[i as int] <= u64::MAX,
        ;
        assert((i + 1) * (u64::MAX as int) <= u128::MAX) by (nonlinear_arith)
            requires
                i < usize::MAX,
        ;
        sum = sum + prices[i] as u128;
        i = i + 1;
    }
    assert(prices@.subrange(0, i as int) =~= prices@);
    sum
}

impl Module {
    /// Whether block `n` takes a price sample.
    pub fn is_sample_block(&self, n: u64) -> (r: bool)
        requires
            self.wf(),
        ensures
            r == is_sample_block(self.period, self.samples, n),
    {
        let segment: u64 = self.period / (self.samples as u64);
        assert(segment >= 1) by (nonlinear_arith)
            requires
                segment == self.period as int / (self.samples as int),
                self.period >= self.samples as int,
                self.samples >= 1,
        ;
        let left: u64 = self.period - 1 - n % self.period;
        left % segment == 0 && left / segment < self.samples as u64
    }

    /// Ends the current period with the prices sampled in it, and moves on
    /// to the next period.
    pub fn end_period(&mut self) -> (r: Result<(), BetError>)
        requires
            old(self).wf(),
        ensures
            final(self).wf(),
            r is Ok <==> old(self).settles(old(self).prices@),
            r is Ok ==> final(self).settled(old(self), old(self).prices@),
            r is Err ==> r == Err::<(), BetError>(BetError::Overflow) && *final(self) == *old(self),
    {
        if self.index > u64::MAX - 3 {
            return Err(BetError::Overflow);
        }
        let total = self.total;
        if total == 0 {
            self.prices = Vec::new();
            self.total = self.incoming;
            self.incoming = 0;
            self.payouts.push(None);
            self.index = self.index + 1;
            return Ok(());
        }
        let mean = price_sum(&self.prices) / (self.samples as u128);
        if mean < self.target as u128 {
            let pot = self.pot;
            let outgoing = self.outgoing;
            assert(outgoing * pot <= u64::MAX * u64::MAX) by (nonlinear_arith)
                requires
                    outgoing <= u64::MAX,
                    pot <= u64::MAX,
            ;
            assert((outgoing * pot) / (total as int) <= outgoing * pot) by (nonlinear_arith)
                requires
                    total >= 1,
                    outgoing * pot >= 0,
            ;
            let share: u128 = (outgoing as u128 * pot as u128) / (total as u128);
            let accrued: u128 = outgoing as u128 + share;
            let gross: u128 = total as u128 + pot as u128 + self.incoming as u128;
            proof {
                assert(outgoing * (total + pot) == outgoing * pot + outgoing * total) by (nonlinear_arith);
                lemma_hoist_over_denominator(outgoing * pot, outgoing as int, total as nat);
                assert(accrued == accrued_outgoing(outgoing, total, pot));
            }
            if accrued > gross || gross - accrued > u64::MAX as u128 {
                return Err(BetError::Overflow);
            }
            self.prices = Vec::new();
            self.pot = 0;
            self.target = mean as u64;
            self.total = (gross - accrued) as u64;
            self.incoming = 0;
            self.outgoing = 0;
            self.payouts.push(Some((total, pot)));
        } else {
            let attenuation = self.target_attenuation as u128;
            let step: u128 = self.target as u128 / attenuation;
            assert(step * (attenuation + 1) <= u128::MAX) by (nonlinear_arith)
                requires
                    step <= u64::MAX,
                    attenuation <= u64::MAX,
            ;
            let raised: u128 = step * (attenuation + 1);
            if raised > u64::MAX as u128 {
                return Err(BetError::Overflow);
            }
            self.prices = Vec::new();
            self.target = raised as u64;
            self.total = self.incoming;
            self.incoming = 0;
            self.outgoing = 0;
            self.payouts.push(None);
        }
        self.index = self.index + 1;
        Ok(())
    }

    /// Finalizes block `n` with `price` as the spot price: a sampling block
    /// records the price, and the last block of a period also settles it.
    pub fn on_finalize_with_price(&mut self, n: u64, price: u64) -> (r: Result<(), BetError>)
        requires
            old(self).wf(),
        ensures
            final(self).wf(),
            final(self).finalized(old(self), n, price, r),
    {
        if !self.is_sample_block(n) {
            return Ok(());
        }
        self.prices.push(price);
        if n % self.period == self.period - 1 {
            let r = self.end_period();
            if r.is_err() {
                self.prices.pop();
                assert(self.prices@ =~= old(self).prices@);
            }
            r
        } else {
            Ok(())
        }
    }

    /// Finalizes block `n`, fetching the spot price from `P` on the blocks
    /// that take a sample.
    pub fn on_finalize<P: FetchPrice<u64>>(&mut self, n: u64) -> (r: Result<(), BetError>)
        requires
            old(self).wf(),
        ensures
            final(self).wf(),
            exists|price: u64| final(self).finalized(old(self), n, price, r),
    {
        if !self.is_sample_block(n) {
            assert(self.finalized(old(self), n, 0, Ok(())));
            return Ok(());
        }
        let price = P::fetch_price();
        let r = self.on_finalize_with_price(n, price);
        assert(self.finalized(old(self), n, price, r));
        r
    }
}

} // verus!
