//! The profitability decision: whether the spread between two venues pays
//! for a round of arbitrage, and in which order the venues are used.

use crate::asset::AssetId;
use crate::fees::{lemma_total_cost_nonnegative, FeeModel};
use crate::price::PRICE_PRECISION;
use crate::quote::{PriceQuote, VenueId};
use vstd::prelude::*;

verus! {

/// One arbitrage instrument: the asset traded, the asset it is traded
/// against, and the sizes of the trade and of the loan that funds it.
#[derive(Clone, Copy, Debug, PartialEq, Eq)]
pub struct TokenPair {
    /// The asset that the round starts from and returns to.
    pub input_asset: AssetId,
    /// The asset held between the two legs.
    pub output_asset: AssetId,
    /// The size at which prices are checked, in the smallest unit of the input asset.
    pub trade_amount: u64,
    /// The capital borrowed, which is also the notional traded.
    pub loan_amount: u64,
}

impl TokenPair {
    /// Whether both amounts are positive.
    pub open spec fn wf(self) -> bool {
        self.trade_amount > 0 && self.loan_amount > 0
    }

    /// Whether `self` and `other` trade the same two assets in the same order.
    pub open spec fn spec_same_instrument(self, other: TokenPair) -> bool {
        self.input_asset@ == other.input_asset@ && self.output_asset@ == other.output_asset@
    }

    /// Tells whether `self` and `other` trade the same two assets in the same order.
    pub fn same_instrument(&self, other: &TokenPair) -> (same: bool)
        ensures
            same == self.spec_same_instrument(*other),
    {
        self.input_asset.same(&other.input_asset) && self.output_asset.same(&other.output_asset)
    }
}

/// The order in which the two venues are used.
#[derive(Clone, Copy, Debug, PartialEq, Eq, Structural)]
pub enum Direction {
    /// First leg on venue A, second leg on venue B.
    SellOnAThenB,
    /// First leg on venue B, second leg on venue A.
    SellOnBThenA,
}

impl Direction {
    /// The venue of the first leg.
    pub open spec fn spec_first_venue(self) -> VenueId {
        match self {
            Direction::SellOnAThenB => VenueId::A,
            Direction::SellOnBThenA => VenueId::B,
        }
    }

    /// The venue of the second leg.
    pub open spec fn spec_second_venue(self) -> VenueId {
        match self {
            Direction::SellOnAThenB => VenueId::B,
            Direction::SellOnBThenA => VenueId::A,
        }
    }

    /// Returns the venue of the first leg.
    pub fn first_venue(&self) -> (venue: VenueId)
        ensures
            venue == self.spec_first_venue(),
    {
        match self {
            Direction::SellOnAThenB => VenueId::A,
            Direction::SellOnBThenA => VenueId::B,
        }
    }

    /// Returns the venue of the second leg.
    pub fn second_venue(&self) -> (venue: VenueId)
        ensures
            venue == self.spec_second_venue(),
    {
        match self {
            Direction::SellOnAThenB => VenueId::B,
            Direction::SellOnBThenA => VenueId::A,
        }
    }
}

/// The price that belongs to `venue`, of the two given.
pub open spec fn price_at(venue: VenueId, price_a: u64, price_b: u64) -> u64 {
    match venue {
        VenueId::A => price_a,
        VenueId::B => price_b,
    }
}

/// The direction for two prices: the first leg goes to the venue with the
/// lower price, the second leg to the venue with the higher one.
pub open spec fn spec_direction(price_a: u64, price_b: u64) -> Direction {
    if price_a > price_b {
        Direction::SellOnBThenA
    } else {
        Direction::SellOnAThenB
    }
}

/// Chooses the direction for two prices.
///
/// The second leg always runs on the venue whose price is at least the other's.
pub fn direction_for(price_a: u64, price_b: u64) -> (direction: Direction)
    ensures
        direction == spec_direction(price_a, price_b),
        price_at(direction.spec_second_venue(), price_a, price_b) >= price_at(
            direction.spec_first_venue(),
            price_a,
            price_b,
        ),
{
    if price_a > price_b {
        Direction::SellOnBThenA
    } else {
        Direction::SellOnAThenB
    }
}

/// The distance between two prices.
pub open spec fn spec_price_gap(price_a: u64, price_b: u64) -> int {
    if price_a >= price_b {
        price_a - price_b
    } else {
        price_b - price_a
    }
}

/// The spread on `amount`: the distance between the two scaled prices times
/// the amount, brought back to units of the asset, rounded down.
pub open spec fn spec_spread(price_a: u64, price_b: u64, amount: u64) -> int {
    (spec_price_gap(price_a, price_b) * amount) / (PRICE_PRECISION as int)
}

/// Computes the spread on `amount` between two scaled prices.
///
/// The product is formed in 128 bits, which holds it for all inputs.
pub fn spread(price_a: u64, price_b: u64, amount: u64) -> (result: u128)
    ensures
        result == spec_spread(price_a, price_b, amount),
{
    let gap: u64 = if price_a >= price_b {
        price_a - price_b
    } else {
        price_b - price_a
    };
    assert(gap * amount <= u128::MAX) by (nonlinear_arith)
        requires
            0 <= gap <= u64::MAX,
            0 <= amount <= u64::MAX,
    ;
    (gap as u128 * amount as u128) / (PRICE_PRECISION as u128)
}

/// Whether the spread on `amount` is strictly greater than everything the
/// round costs.
pub open spec fn spec_is_profitable(price_a: u64, price_b: u64, amount: u64, fees: FeeModel) -> bool {
    spec_spread(price_a, price_b, amount) > fees.spec_total_cost(amount)
}

/// Decides whether two scaled prices leave a profit on `amount` after the
/// loan fee, both swap fees, the conversion fee and the execution cost.
pub fn is_profitable(price_a: u64, price_b: u64, amount: u64, fees: &FeeModel) -> (profitable: bool)
    ensures
        profitable == spec_is_profitable(price_a, price_b, amount, *fees),
{
    spread(price_a, price_b, amount) > fees.total_cost(amount)
}

/// A positive decision. It lives for one evaluation and is never stored.
#[derive(Clone, Copy, Debug, PartialEq, Eq)]
pub struct ArbitrageOpportunity {
    /// The instrument.
    pub pair: TokenPair,
    /// The order of the venues.
    pub direction: Direction,
    /// The quote of venue A.
    pub quote_a: PriceQuote,
    /// The quote of venue B.
    pub quote_b: PriceQuote,
    /// The spread on the amount, which exceeds the total cost.
    pub expected_profit: u128,
}

/// The decision on two quotes: an opportunity where both quotes have a price
/// and the spread on `amount` is strictly greater than the total cost, and
/// nothing otherwise.
pub open spec fn spec_evaluate(
    quote_a: PriceQuote,
    quote_b: PriceQuote,
    amount: u64,
    fees: FeeModel,
) -> Option<ArbitrageOpportunity> {
    if quote_a.price_defined() && quote_b.price_defined() && spec_is_profitable(
        quote_a.spec_price() as u64,
        quote_b.spec_price() as u64,
        amount,
        fees,
    ) {
        Some(
            ArbitrageOpportunity {
                pair: TokenPair {
                    input_asset: quote_a.input_asset,
                    output_asset: quote_a.output_asset,
                    trade_amount: amount,
                    loan_amount: amount,
                },
                direction: spec_direction(quote_a.spec_price() as u64, quote_b.spec_price() as u64),
                quote_a,
                quote_b,
                expected_profit: spec_spread(
                    quote_a.spec_price() as u64,
                    quote_b.spec_price() as u64,
                    amount,
                ) as u128,
            },
        )
    } else {
        None
    }
}

/// Evaluates two quotes for a round on `amount`.
///
/// The result depends on the arguments alone. It is an opportunity exactly
/// when both quotes have a price and the spread is strictly greater than the
/// total cost; a spread equal to the cost gives nothing.
pub fn evaluate(quote_a: &PriceQuote, quote_b: &PriceQuote, amount: u64, fees: &FeeModel) -> (result:
    Option<ArbitrageOpportunity>)
    ensures
        result == spec_evaluate(*quote_a, *quote_b, amount, *fees),
        result is Some <==> quote_a.price_defined() && quote_b.price_defined() && spec_spread(
            quote_a.spec_price() as u64,
            quote_b.spec_price() as u64,
            amount,
        ) > fees.spec_total_cost(amount),
{
    let price_a: u64 = match quote_a.price() {
        Ok(scaled) => scaled,
        Err(_) => {
            return None;
        },
    };
    let price_b: u64 = match quote_b.price() {
        Ok(scaled) => scaled,
        Err(_) => {
            return None;
        },
    };
    let gross: u128 = spread(price_a, price_b, amount);
    if gross > fees.total_cost(amount) {
        Some(
            ArbitrageOpportunity {
                pair: TokenPair {
                    input_asset: quote_a.input_asset,
                    output_asset: quote_a.output_asset,
                    trade_amount: amount,
                    loan_amount: amount,
                },
                direction: direction_for(price_a, price_b),
                quote_a: *quote_a,
                quote_b: *quote_b,
                expected_profit: gross,
            },
        )
    } else {
        None
    }
}

/// A spread that only equals the total cost is no opportunity.
pub proof fn lemma_break_even_is_rejected(
    quote_a: PriceQuote,
    quote_b: PriceQuote,
    amount: u64,
    fees: FeeModel,
)
    requires
        quote_a.price_defined(),
        quote_b.price_defined(),
        spec_spread(quote_a.spec_price() as u64, quote_b.spec_price() as u64, amount)
            == fees.spec_total_cost(amount),
    ensures
        spec_evaluate(quote_a, quote_b, amount, fees) is None,
{
}

/// Every opportunity expects more than the round costs and sends the second
/// leg to the venue whose price is strictly the higher one.
pub proof fn lemma_opportunity_is_sound(
    quote_a: PriceQuote,
    quote_b: PriceQuote,
    amount: u64,
    fees: FeeModel,
)
    requires
        spec_evaluate(quote_a, quote_b, amount, fees) is Some,
    ensures
        ({
            let found = spec_evaluate(quote_a, quote_b, amount, fees).unwrap();
            let price_a = quote_a.spec_price() as u64;
            let price_b = quote_b.spec_price() as u64;
            &&& found.expected_profit > fees.spec_total_cost(amount)
            &&& price_at(found.direction.spec_second_venue(), price_a, price_b) > price_at(
                found.direction.spec_first_venue(),
                price_a,
                price_b,
            )
        }),
{
    let price_a = quote_a.spec_price() as u64;
    let price_b = quote_b.spec_price() as u64;
    let gap = spec_price_gap(price_a, price_b);
    assert(0 <= (gap * amount) / 1_000_000 <= u128::MAX) by (nonlinear_arith)
        requires
            0 <= gap <= u64::MAX,
            0 <= amount <= u64::MAX,
    ;
    if price_a == price_b {
        assert(gap * amount == 0) by (nonlinear_arith)
            requires
                gap == 0,
        ;
        lemma_total_cost_nonnegative(fees, amount);
    }
}

} // verus!
