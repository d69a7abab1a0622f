//! The fee and gas model: what one round of arbitrage costs.

use vstd::prelude::*;

verus! {

/// Denominator of a rate given in basis points.
pub const BPS_DENOMINATOR: u64 = 10_000;

/// Default loan fee, in basis points of the borrowed amount.
pub const DEFAULT_LOAN_FEE_BPS: u64 = 20;

/// Default swap fee of the routed venue, in basis points.
pub const DEFAULT_ROUTED_FEE_BPS: u64 = 30;

/// Default swap fee of the constant-product venue, in basis points.
pub const DEFAULT_POOL_FEE_BPS: u64 = 25;

/// Default fee of the two conversion hops together, in basis points.
pub const DEFAULT_CONVERSION_FEE_BPS: u64 = 60;

/// Default estimate of the execution cost, in the smallest unit of the settlement asset.
pub const DEFAULT_GAS_ESTIMATE: u64 = 10_000_000;

/// A fee of `bps` basis points on `amount`, rounded down; zero where the
/// product `amount * bps` does not fit in 64 bits.
pub open spec fn spec_bps_fee(amount: u64, bps: u64) -> int {
    if amount * bps > u64::MAX {
        0
    } else {
        (amount * bps) / (BPS_DENOMINATOR as int)
    }
}

/// Computes a fee of `bps` basis points on `amount`.
///
/// An overflow of the product yields a fee of zero rather than an error, so
/// that one degenerate rate cannot abort an evaluation.
pub fn bps_fee(amount: u64, bps: u64) -> (fee: u64)
    ensures
        fee == spec_bps_fee(amount, bps),
{
    match amount.checked_mul(bps) {
        Some(product) => product / BPS_DENOMINATOR,
        None => 0,
    }
}

/// Fee rates and the fixed execution cost estimate.
#[derive(Clone, Copy, Debug, PartialEq, Eq, Structural)]
pub struct FeeModel {
    /// Fee of the loan venue, in basis points of the borrowed amount.
    pub loan_fee_bps: u64,
    /// Swap fee of venue A, in basis points.
    pub venue_a_fee_bps: u64,
    /// Swap fee of venue B, in basis points.
    pub venue_b_fee_bps: u64,
    /// Fee of entering and leaving the traded asset, in basis points.
    pub conversion_fee_bps: u64,
    /// Estimated execution cost, in the smallest unit of the settlement asset.
    pub gas_estimate: u64,
}

impl FeeModel {
    /// The loan fee on `amount`.
    pub open spec fn spec_loan_fee(self, amount: u64) -> int {
        spec_bps_fee(amount, self.loan_fee_bps)
    }

    /// The sum of both venues' rates; zero where the sum does not fit in 64 bits.
    pub open spec fn spec_swap_rate(self) -> int {
        if self.venue_a_fee_bps + self.venue_b_fee_bps > u64::MAX {
            0
        } else {
            self.venue_a_fee_bps + self.venue_b_fee_bps
        }
    }

    /// The fee of both swap hops on `amount`.
    pub open spec fn spec_swap_fee_total(self, amount: u64) -> int {
        spec_bps_fee(amount, self.spec_swap_rate() as u64)
    }

    /// The fee of the two conversion hops on `amount`.
    pub open spec fn spec_conversion_fee(self, amount: u64) -> int {
        spec_bps_fee(amount, self.conversion_fee_bps)
    }

    /// Everything one round on `amount` costs: loan fee, swap fees,
    /// conversion fee and the execution cost estimate.
    pub open spec fn spec_total_cost(self, amount: u64) -> int {
        self.spec_loan_fee(amount) + self.spec_swap_fee_total(amount) + self.spec_conversion_fee(
            amount,
        ) + self.gas_estimate
    }

    /// The model with the default rates and the default execution cost estimate.
    pub open spec fn spec_standard() -> FeeModel {
        FeeModel {
            loan_fee_bps: DEFAULT_LOAN_FEE_BPS,
            venue_a_fee_bps: DEFAULT_ROUTED_FEE_BPS,
            venue_b_fee_bps: DEFAULT_POOL_FEE_BPS,
            conversion_fee_bps: DEFAULT_CONVERSION_FEE_BPS,
            gas_estimate: DEFAULT_GAS_ESTIMATE,
        }
    }

    /// Returns the model with the default rates and the default execution cost estimate.
    pub fn standard() -> (model: FeeModel)
        ensures
            model == FeeModel::spec_standard(),
    {
        FeeModel {
            loan_fee_bps: DEFAULT_LOAN_FEE_BPS,
            venue_a_fee_bps: DEFAULT_ROUTED_FEE_BPS,
            venue_b_fee_bps: DEFAULT_POOL_FEE_BPS,
            conversion_fee_bps: DEFAULT_CONVERSION_FEE_BPS,
            gas_estimate: DEFAULT_GAS_ESTIMATE,
        }
    }

    /// The model that applies to one round: the conversion fee counts only
    /// where the loan has to be converted into the traded asset and back.
    pub open spec fn spec_for_round(self, converts: bool) -> FeeModel {
        if converts {
            self
        } else {
            FeeModel { conversion_fee_bps: 0, ..self }
        }
    }

    /// Returns the model that applies to one round, with or without conversion hops.
    pub fn for_round(&self, converts: bool) -> (model: FeeModel)
        ensures
            model == self.spec_for_round(converts),
    {
        if converts {
            *self
        } else {
            FeeModel {
                loan_fee_bps: self.loan_fee_bps,
                venue_a_fee_bps: self.venue_a_fee_bps,
                venue_b_fee_bps: self.venue_b_fee_bps,
                conversion_fee_bps: 0,
                gas_estimate: self.gas_estimate,
            }
        }
    }

    /// Computes the loan fee on `amount`.
    pub fn loan_fee(&self, amount: u64) -> (fee: u64)
        ensures
            fee == self.spec_loan_fee(amount),
    {
        bps_fee(amount, self.loan_fee_bps)
    }

    /// Computes the fee of both swap hops on `amount`.
    pub fn swap_fee_total(&self, amount: u64) -> (fee: u64)
        ensures
            fee == self.spec_swap_fee_total(amount),
    {
        let rate: u64 = match self.venue_a_fee_bps.checked_add(self.venue_b_fee_bps) {
            Some(sum) => sum,
            None => 0,
        };
        bps_fee(amount, rate)
    }

    /// Computes the fee of the two conversion hops on `amount`.
    pub fn conversion_fee(&self, amount: u64) -> (fee: u64)
        ensures
            fee == self.spec_conversion_fee(amount),
    {
        bps_fee(amount, self.conversion_fee_bps)
    }

    /// Computes everything one round on `amount` costs.
    ///
    /// The sum is formed in 128 bits, so it is exact for every model and amount.
    pub fn total_cost(&self, amount: u64) -> (cost: u128)
        ensures
            cost == self.spec_total_cost(amount),
    {
        let loan: u128 = self.loan_fee(amount) as u128;
        let swaps: u128 = self.swap_fee_total(amount) as u128;
        let conversion: u128 = self.conversion_fee(amount) as u128;
        loan + swaps + conversion + self.gas_estimate as u128
    }
}

/// A fee is never negative.
pub proof fn lemma_bps_fee_nonnegative(amount: u64, bps: u64)
    ensures
        spec_bps_fee(amount, bps) >= 0,
{
    assert((amount * bps) / 10000 >= 0) by (nonlinear_arith)
        requires
            0 <= amount,
            0 <= bps,
    ;
}

/// The total cost is never negative.
pub proof fn lemma_total_cost_nonnegative(model: FeeModel, amount: u64)
    ensures
        model.spec_total_cost(amount) >= 0,
{
    lemma_bps_fee_nonnegative(amount, model.loan_fee_bps);
    lemma_bps_fee_nonnegative(amount, model.spec_swap_rate() as u64);
    lemma_bps_fee_nonnegative(amount, model.conversion_fee_bps);
}

/// Whether the fee at rate `bps` is lost when the amount is raised to
/// `larger`: the fee on `smaller` is positive, and the product of `larger`
/// and the rate leaves 64 bits, which counts as a fee of zero.
pub open spec fn fee_is_lost(smaller: u64, larger: u64, bps: u64) -> bool {
    spec_bps_fee(smaller, bps) > 0 && larger * bps > u64::MAX
}

/// A fee at a fixed rate does not decrease when the amount grows, except
/// where the growth loses the fee to an overflow, and only there.
pub proof fn lemma_bps_fee_monotonic(smaller: u64, larger: u64, bps: u64)
    requires
        smaller <= larger,
    ensures
        spec_bps_fee(smaller, bps) <= spec_bps_fee(larger, bps) <==> !fee_is_lost(
            smaller,
            larger,
            bps,
        ),
{
    lemma_bps_fee_nonnegative(smaller, bps);
    assert(smaller * bps <= larger * bps) by (nonlinear_arith)
        requires
            smaller <= larger,
            0 <= bps,
    ;
    if larger * bps <= u64::MAX {
        assert((smaller * bps) / 10000 <= (larger * bps) / 10000) by (nonlinear_arith)
            requires
                smaller * bps <= larger * bps,
        ;
    }
}

/// For fixed rates, the total cost does not decrease when the amount grows,
/// as long as no fee component is lost to an overflow on the way.
pub proof fn lemma_total_cost_monotonic(model: FeeModel, smaller: u64, larger: u64)
    requires
        smaller <= larger,
        !fee_is_lost(smaller, larger, model.loan_fee_bps),
        !fee_is_lost(smaller, larger, model.spec_swap_rate() as u64),
        !fee_is_lost(smaller, larger, model.conversion_fee_bps),
    ensures
        model.spec_loan_fee(smaller) <= model.spec_loan_fee(larger),
        model.spec_swap_fee_total(smaller) <= model.spec_swap_fee_total(larger),
        model.spec_conversion_fee(smaller) <= model.spec_conversion_fee(larger),
        model.spec_total_cost(smaller) <= model.spec_total_cost(larger),
{
    lemma_bps_fee_monotonic(smaller, larger, model.loan_fee_bps);
    lemma_bps_fee_monotonic(smaller, larger, model.spec_swap_rate() as u64);
    lemma_bps_fee_monotonic(smaller, larger, model.conversion_fee_bps);
}

} // verus!
