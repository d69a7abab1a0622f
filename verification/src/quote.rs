//! Venue quotes: what a venue pays out for a trade of a given size.
//!
//! Two kinds of venue are supported. A constant-product pool is quoted from
//! its reserves; a routed venue is quoted by an outside service, whose answer
//! is taken as it comes.

use crate::asset::AssetId;
use crate::error::ErrorCode;
use crate::fees::BPS_DENOMINATOR;
use crate::price::{price, price_defined, spec_price};
use vstd::prelude::*;

verus! {

/// Default bound on the slippage of a hop through the routed venue, in basis points.
pub const DEFAULT_ROUTED_SLIPPAGE_BPS: u64 = 30;

/// Default bound on the slippage of a hop through a constant-product pool, in basis points.
pub const DEFAULT_POOL_SLIPPAGE_BPS: u64 = 50;

/// Which of the two venues of a pair is meant.
#[derive(Clone, Copy, Debug, PartialEq, Eq, Structural)]
pub enum VenueId {
    /// The first venue.
    A,
    /// The second venue.
    B,
}

/// What a venue offers for one trade. Made afresh for every evaluation.
#[derive(Clone, Copy, Debug, PartialEq, Eq)]
pub struct PriceQuote {
    /// The venue that made the offer.
    pub venue_id: VenueId,
    /// The asset given.
    pub input_asset: AssetId,
    /// The asset received.
    pub output_asset: AssetId,
    /// The amount given.
    pub input_amount: u64,
    /// The amount received, after the venue's fee.
    pub output_amount: u64,
    /// The venue's fee, in basis points.
    pub fee_bps: u64,
}

impl PriceQuote {
    /// Whether the quote has a representable price.
    pub open spec fn price_defined(self) -> bool {
        price_defined(self.output_amount, self.input_amount)
    }

    /// The scaled price of the quote.
    pub open spec fn spec_price(self) -> int {
        spec_price(self.output_amount, self.input_amount)
    }

    /// Computes the scaled price of the quote.
    pub fn price(&self) -> (result: Result<u64, ErrorCode>)
        ensures
            match result {
                Ok(scaled) => self.price_defined() && scaled == self.spec_price(),
                Err(code) => !self.price_defined() && code == ErrorCode::CalculationError,
            },
    {
        price(self.output_amount, self.input_amount)
    }
}

/// The input reserve of a pool after `amount_in` has been paid in.
pub open spec fn spec_new_reserve_in(reserve_in: u64, amount_in: u64) -> int {
    reserve_in + amount_in
}

/// The output reserve that keeps the product of the reserves at or below its
/// value before the trade: the old product divided by the new input reserve.
pub open spec fn spec_new_reserve_out(reserve_in: u64, reserve_out: u64, amount_in: u64) -> int {
    (reserve_in * reserve_out) / (reserve_in + amount_in)
}

/// What the pool gives out before its fee.
pub open spec fn spec_gross_out(reserve_in: u64, reserve_out: u64, amount_in: u64) -> int {
    reserve_out - spec_new_reserve_out(reserve_in, reserve_out, amount_in)
}

/// What is left of `gross_out` after a fee of `fee_bps` basis points, rounded down.
pub open spec fn spec_net_out(gross_out: int, fee_bps: u64) -> int {
    (gross_out * (BPS_DENOMINATOR - fee_bps)) / (BPS_DENOMINATOR as int)
}

/// Whether a trade against a pool can be computed: reserves and amount are
/// positive, the fee is at most the whole, and no step leaves 64 bits.
pub open spec fn pool_swap_defined(
    reserve_in: u64,
    reserve_out: u64,
    amount_in: u64,
    fee_bps: u64,
) -> bool {
    &&& reserve_in > 0
    &&& reserve_out > 0
    &&& amount_in > 0
    &&& reserve_in * reserve_out <= u64::MAX
    &&& reserve_in + amount_in <= u64::MAX
    &&& fee_bps <= BPS_DENOMINATOR
    &&& spec_gross_out(reserve_in, reserve_out, amount_in) * (BPS_DENOMINATOR - fee_bps)
        <= u64::MAX
}

/// The outcome of a trade against a constant-product pool.
#[derive(Clone, Copy, Debug, PartialEq, Eq, Structural)]
pub struct PoolSwap {
    /// The input reserve after the trade.
    pub new_reserve_in: u64,
    /// The output reserve that the constant product allows after the trade.
    pub new_reserve_out: u64,
    /// The amount released before the fee.
    pub gross_out: u64,
    /// The amount paid out after the fee.
    pub net_out: u64,
}

/// The new output reserve never exceeds the old one, so the gross output is
/// never negative.
pub proof fn lemma_new_reserve_out_bounded(reserve_in: u64, reserve_out: u64, amount_in: u64)
    requires
        reserve_in > 0,
    ensures
        0 <= spec_new_reserve_out(reserve_in, reserve_out, amount_in) <= reserve_out,
{
    let k = reserve_in * reserve_out;
    let d = reserve_in + amount_in;
    assert(0 <= k / d <= reserve_out) by (nonlinear_arith)
        requires
            k == reserve_in * reserve_out,
            d == reserve_in + amount_in,
            reserve_in > 0,
            amount_in >= 0,
            reserve_out >= 0,
    ;
}

/// A trade never raises the product of the reserves: the new input reserve
/// times the new output reserve is at most the old product.
pub proof fn lemma_constant_product_never_grows(reserve_in: u64, reserve_out: u64, amount_in: u64)
    requires
        reserve_in > 0,
        reserve_out > 0,
        amount_in > 0,
    ensures
        spec_new_reserve_in(reserve_in, amount_in) * spec_new_reserve_out(
            reserve_in,
            reserve_out,
            amount_in,
        ) <= reserve_in * reserve_out,
{
    let k = reserve_in * reserve_out;
    let d = reserve_in + amount_in;
    assert(d * (k / d) <= k) by (nonlinear_arith)
        requires
            d > 0,
            k >= 0,
    ;
}

/// Trades `amount_in` against a constant-product pool with the given reserves
/// and fee.
///
/// Fails with `CalculationError` on a zero reserve or amount, on a fee above
/// the whole, and wherever a step would leave 64 bits; in every other case
/// returns the new reserves, the gross output and the output after the fee.
pub fn constant_product_swap(
    reserve_in: u64,
    reserve_out: u64,
    amount_in: u64,
    fee_bps: u64,
) -> (result: Result<PoolSwap, ErrorCode>)
    ensures
        match result {
            Ok(swap) => {
                &&& pool_swap_defined(reserve_in, reserve_out, amount_in, fee_bps)
                &&& swap.new_reserve_in == spec_new_reserve_in(reserve_in, amount_in)
                &&& swap.new_reserve_out == spec_new_reserve_out(reserve_in, reserve_out, amount_in)
                &&& swap.gross_out == spec_gross_out(reserve_in, reserve_out, amount_in)
                &&& swap.net_out == spec_net_out(swap.gross_out as int, fee_bps)
                &&& swap.new_reserve_in * swap.new_reserve_out <= reserve_in * reserve_out
                &&& swap.net_out <= swap.gross_out <= reserve_out
            },
            Err(code) => {
                &&& !pool_swap_defined(reserve_in, reserve_out, amount_in, fee_bps)
                &&& code == ErrorCode::CalculationError
            },
        },
{
    if reserve_in == 0 || reserve_out == 0 || amount_in == 0 {
        return Err(ErrorCode::CalculationError);
    }
    let product: u64 = match reserve_in.checked_mul(reserve_out) {
        Some(v) => v,
        None => {
            return Err(ErrorCode::CalculationError);
        },
    };
    let new_reserve_in: u64 = match reserve_in.checked_add(amount_in) {
        Some(v) => v,
        None => {
            return Err(ErrorCode::CalculationError);
        },
    };
    let new_reserve_out: u64 = match product.checked_div(new_reserve_in) {
        Some(v) => v,
        None => {
            return Err(ErrorCode::CalculationError);
        },
    };
    proof {
        lemma_new_reserve_out_bounded(reserve_in, reserve_out, amount_in);
        lemma_constant_product_never_grows(reserve_in, reserve_out, amount_in);
    }
    let gross_out: u64 = match reserve_out.checked_sub(new_reserve_out) {
        Some(v) => v,
        None => {
            return Err(ErrorCode::CalculationError);
        },
    };
    let kept: u64 = match BPS_DENOMINATOR.checked_sub(fee_bps) {
        Some(v) => v,
        None => {
            return Err(ErrorCode::CalculationError);
        },
    };
    let scaled: u64 = match gross_out.checked_mul(kept) {
        Some(v) => v,
        None => {
            return Err(ErrorCode::CalculationError);
        },
    };
    let net_out: u64 = scaled / BPS_DENOMINATOR;
    assert(net_out <= gross_out) by (nonlinear_arith)
        requires
            net_out == (gross_out * kept) / 10000,
            0 <= kept <= 10000,
            0 <= gross_out,
    ;
    Ok(PoolSwap { new_reserve_in, new_reserve_out, gross_out, net_out })
}

/// The two kinds of venue.
#[derive(Clone, Copy, Debug, PartialEq, Eq, Structural)]
pub enum VenueKind {
    /// A pool that keeps the product of its reserves constant.
    ConstantProduct,
    /// A venue reached through the routing service.
    Routed,
}

/// The share of the amount that a slippage bound leaves, in basis points:
/// nothing is left of a bound at or above the whole.
pub open spec fn spec_kept_bps(slippage_bps: u64) -> int {
    if slippage_bps >= BPS_DENOMINATOR {
        0
    } else {
        BPS_DENOMINATOR - slippage_bps
    }
}

/// The least output that a routed hop of `amount` may return under a slippage
/// bound of `slippage_bps` basis points: the amount less the bound, rounded down.
pub open spec fn spec_routed_min_output(amount: u64, slippage_bps: u64) -> int {
    (amount * spec_kept_bps(slippage_bps)) / (BPS_DENOMINATOR as int)
}

/// Computes the least output that a routed hop of `amount` may return.
///
/// The product is formed in 128 bits, so there is a bound for every amount
/// and every rate; a rate at or above the whole gives a bound of zero.
pub fn routed_min_output(amount: u64, slippage_bps: u64) -> (least: u64)
    ensures
        least == spec_routed_min_output(amount, slippage_bps),
        least <= amount,
{
    let kept: u64 = if slippage_bps >= BPS_DENOMINATOR {
        0
    } else {
        BPS_DENOMINATOR - slippage_bps
    };
    assert(amount * kept <= u128::MAX && (amount * kept) / 10000 <= amount) by (nonlinear_arith)
        requires
            0 <= kept <= 10000,
            0 <= amount <= u64::MAX,
    ;
    let least: u128 = (amount as u128 * kept as u128) / (BPS_DENOMINATOR as u128);
    least as u64
}

/// The denominator in which a pool applies a slippage bound: thousandths for
/// a bound in whole tenths of a percent, ten-thousandths for any other.
pub open spec fn spec_pool_scale(slippage_bps: u64) -> int {
    if slippage_bps % 10 == 0 {
        1000
    } else {
        10000
    }
}

/// The share of the amount that a pool's slippage bound leaves, over
/// [`spec_pool_scale`]; negative where the bound exceeds the whole.
pub open spec fn spec_pool_kept(slippage_bps: u64) -> int {
    if slippage_bps % 10 == 0 {
        1000 - slippage_bps / 10
    } else {
        10000 - slippage_bps
    }
}

/// The least output that a hop of `amount` through a pool may return under a
/// slippage bound of `slippage_bps` basis points, or `None` where the bound
/// exceeds the whole or the product of the amount and the kept share leaves
/// 64 bits. At half a percent this is `amount * 995 / 1000`.
pub open spec fn spec_pool_min_output(amount: u64, slippage_bps: u64) -> Option<u64> {
    if spec_pool_kept(slippage_bps) >= 0 && amount * spec_pool_kept(slippage_bps) <= u64::MAX {
        Some(((amount * spec_pool_kept(slippage_bps)) / spec_pool_scale(slippage_bps)) as u64)
    } else {
        None
    }
}

/// Computes the least output that a hop of `amount` through a pool may return
/// under a slippage bound of `slippage_bps` basis points.
///
/// Multiplies first and divides second, both checked, and fails with
/// `CalculationError` exactly where the bound exceeds the whole or the
/// product leaves 64 bits.
pub fn pool_min_output(amount: u64, slippage_bps: u64) -> (result: Result<u64, ErrorCode>)
    ensures
        match result {
            Ok(least) => spec_pool_min_output(amount, slippage_bps) == Some(least) && least
                == spec_routed_min_output(amount, slippage_bps),
            Err(code) => spec_pool_min_output(amount, slippage_bps) is None && code
                == ErrorCode::CalculationError,
        },
{
    let in_thousandths: bool = slippage_bps % 10 == 0;
    let scale: u64 = if in_thousandths {
        1000
    } else {
        BPS_DENOMINATOR
    };
    let taken: u64 = if in_thousandths {
        slippage_bps / 10
    } else {
        slippage_bps
    };
    let kept: u64 = match scale.checked_sub(taken) {
        Some(v) => v,
        None => {
            return Err(ErrorCode::CalculationError);
        },
    };
    match amount.checked_mul(kept) {
        Some(scaled) => {
            proof {
                lemma_pool_bound_is_the_routed_bound(amount, slippage_bps);
            }
            Ok(scaled / scale)
        },
        None => Err(ErrorCode::CalculationError),
    }
}

/// Where a pool has a bound, it is the bound of a routed hop at the same
/// rate: the denominator in which the pool applies the rate does not change
/// the value, only the amounts for which it can be computed.
pub proof fn lemma_pool_bound_is_the_routed_bound(amount: u64, slippage_bps: u64)
    requires
        spec_pool_min_output(amount, slippage_bps) is Some,
    ensures
        spec_pool_min_output(amount, slippage_bps).unwrap() == spec_routed_min_output(
            amount,
            slippage_bps,
        ),
        spec_routed_min_output(amount, slippage_bps) <= amount,
{
    let kept = spec_kept_bps(slippage_bps);
    assert(0 <= (amount * kept) / 10000 <= amount) by (nonlinear_arith)
        requires
            0 <= kept <= 10000,
            0 <= amount,
    ;
    if slippage_bps % 10 == 0 {
        let tenths = slippage_bps / 10;
        let share = 1000 - tenths;
        assert(kept == share * 10);
        assert((amount * share) / 1000 == (amount * (share * 10)) / 10000) by (nonlinear_arith)
            requires
                0 <= share,
                0 <= amount,
        ;
    }
}

/// At the default of half a percent a pool's bound is `amount * 995 / 1000`
/// for every amount whose product with 995 fits in 64 bits, and there is no
/// bound for any larger amount.
pub proof fn lemma_pool_bound_at_half_a_percent(amount: u64)
    ensures
        amount * 995 <= u64::MAX ==> spec_pool_min_output(amount, DEFAULT_POOL_SLIPPAGE_BPS)
            == Some(((amount * 995) / 1000) as u64),
        amount * 995 > u64::MAX ==> spec_pool_min_output(amount, DEFAULT_POOL_SLIPPAGE_BPS)
            is None,
{
}

/// The least output that a hop of `amount` through a venue of the given kind
/// may return, or `None` where a pool's bound cannot be computed.
pub open spec fn spec_hop_min_output(kind: VenueKind, amount: u64, slippage_bps: u64) -> Option<
    u64,
> {
    match kind {
        VenueKind::ConstantProduct => spec_pool_min_output(amount, slippage_bps),
        VenueKind::Routed => Some(spec_routed_min_output(amount, slippage_bps) as u64),
    }
}

/// Computes the least output that a hop of `amount` through a venue of the
/// given kind may return. A routed hop always has a bound; a pool hop fails
/// with `CalculationError` as [`pool_min_output`] does.
pub fn hop_min_output(kind: VenueKind, amount: u64, slippage_bps: u64) -> (result: Result<
    u64,
    ErrorCode,
>)
    ensures
        match result {
            Ok(least) => spec_hop_min_output(kind, amount, slippage_bps) == Some(least) && least
                <= amount,
            Err(code) => spec_hop_min_output(kind, amount, slippage_bps) is None && code
                == ErrorCode::CalculationError,
        },
{
    match kind {
        VenueKind::ConstantProduct => {
            proof {
                if spec_pool_min_output(amount, slippage_bps) is Some {
                    lemma_pool_bound_is_the_routed_bound(amount, slippage_bps);
                }
            }
            pool_min_output(amount, slippage_bps)
        },
        VenueKind::Routed => Ok(routed_min_output(amount, slippage_bps)),
    }
}

/// What is asked of the routing service for one quote.
#[derive(Clone, Copy, Debug, PartialEq, Eq)]
pub struct RouteRequest {
    /// The asset given.
    pub input_asset: AssetId,
    /// The asset wanted.
    pub output_asset: AssetId,
    /// The amount given.
    pub amount: u64,
    /// The greatest slippage accepted, in basis points.
    pub max_slippage_bps: u64,
    /// Whether only direct routes are searched, which answers faster.
    pub only_direct_routes: bool,
}

impl RouteRequest {
    /// Builds the request for a quick price check of `amount`, over direct
    /// routes only. A zero amount is refused with `CalculationError`.
    pub fn price_check(
        input_asset: AssetId,
        output_asset: AssetId,
        amount: u64,
        max_slippage_bps: u64,
    ) -> (result: Result<RouteRequest, ErrorCode>)
        ensures
            amount == 0 ==> result == Err::<RouteRequest, ErrorCode>(ErrorCode::CalculationError),
            amount != 0 ==> result == Ok::<RouteRequest, ErrorCode>(
                RouteRequest {
                    input_asset,
                    output_asset,
                    amount,
                    max_slippage_bps,
                    only_direct_routes: true,
                },
            ),
    {
        if amount == 0 {
            return Err(ErrorCode::CalculationError);
        }
        Ok(RouteRequest { input_asset, output_asset, amount, max_slippage_bps, only_direct_routes: true })
    }
}

/// The state of a venue as far as a quote depends on it.
#[derive(Clone, Copy, Debug, PartialEq, Eq, Structural)]
pub enum Venue {
    /// A pool that keeps the product of its reserves constant.
    ConstantProduct {
        /// Reserve of the asset paid in.
        reserve_in: u64,
        /// Reserve of the asset paid out.
        reserve_out: u64,
        /// The pool's fee, in basis points.
        fee_bps: u64,
    },
    /// A venue quoted by the routing service.
    Routed {
        /// The output that the service returned for the requested amount.
        quoted_output: u64,
        /// The venue's fee, in basis points; the quoted output already has it taken off.
        fee_bps: u64,
    },
}

impl Venue {
    /// The venue's fee, in basis points.
    pub open spec fn spec_fee_bps(self) -> u64 {
        match self {
            Venue::ConstantProduct { fee_bps, .. } => fee_bps,
            Venue::Routed { fee_bps, .. } => fee_bps,
        }
    }

    /// The output the venue offers for `amount`, or `None` where the quote fails.
    pub open spec fn spec_output(self, amount: u64) -> Option<u64> {
        match self {
            Venue::ConstantProduct { reserve_in, reserve_out, fee_bps } => {
                if pool_swap_defined(reserve_in, reserve_out, amount, fee_bps) {
                    Some(
                        spec_net_out(spec_gross_out(reserve_in, reserve_out, amount), fee_bps) as u64,
                    )
                } else {
                    None
                }
            },
            Venue::Routed { quoted_output, .. } => {
                if amount > 0 {
                    Some(quoted_output)
                } else {
                    None
                }
            },
        }
    }

    /// The quote the venue gives for `amount`, or `None` where the quote fails.
    pub open spec fn spec_quote(
        self,
        venue_id: VenueId,
        input_asset: AssetId,
        output_asset: AssetId,
        amount: u64,
    ) -> Option<PriceQuote> {
        match self.spec_output(amount) {
            Some(output_amount) => Some(
                PriceQuote {
                    venue_id,
                    input_asset,
                    output_asset,
                    input_amount: amount,
                    output_amount,
                    fee_bps: self.spec_fee_bps(),
                },
            ),
            None => None,
        }
    }

    /// The kind of the venue.
    pub open spec fn spec_kind(self) -> VenueKind {
        match self {
            Venue::ConstantProduct { .. } => VenueKind::ConstantProduct,
            Venue::Routed { .. } => VenueKind::Routed,
        }
    }

    /// Returns the kind of the venue.
    pub fn kind(&self) -> (kind: VenueKind)
        ensures
            kind == self.spec_kind(),
    {
        match self {
            Venue::ConstantProduct { .. } => VenueKind::ConstantProduct,
            Venue::Routed { .. } => VenueKind::Routed,
        }
    }

    /// Returns the venue's fee, in basis points.
    pub fn fee_bps(&self) -> (bps: u64)
        ensures
            bps == self.spec_fee_bps(),
    {
        match self {
            Venue::ConstantProduct { fee_bps, .. } => *fee_bps,
            Venue::Routed { fee_bps, .. } => *fee_bps,
        }
    }

    /// Computes the output the venue offers for `amount`.
    ///
    /// A pool is quoted from its reserves; a routed venue with the output that
    /// the routing service returned. Degenerate inputs and arithmetic that
    /// leaves 64 bits give `CalculationError`.
    pub fn output(&self, amount: u64) -> (result: Result<u64, ErrorCode>)
        ensures
            match result {
                Ok(output_amount) => self.spec_output(amount) == Some(output_amount),
                Err(code) => self.spec_output(amount) is None && code
                    == ErrorCode::CalculationError,
            },
    {
        match self {
            Venue::ConstantProduct { reserve_in, reserve_out, fee_bps } => {
                match constant_product_swap(*reserve_in, *reserve_out, amount, *fee_bps) {
                    Ok(swap) => Ok(swap.net_out),
                    Err(code) => Err(code),
                }
            },
            Venue::Routed { quoted_output, .. } => {
                if amount == 0 {
                    Err(ErrorCode::CalculationError)
                } else {
                    Ok(*quoted_output)
                }
            },
        }
    }

    /// Quotes a trade of `amount` of `input_asset` for `output_asset`.
    pub fn quote(
        &self,
        venue_id: VenueId,
        input_asset: AssetId,
        output_asset: AssetId,
        amount: u64,
    ) -> (result: Result<PriceQuote, ErrorCode>)
        ensures
            match result {
                Ok(quote) => self.spec_quote(venue_id, input_asset, output_asset, amount) == Some(
                    quote,
                ),
                Err(code) => self.spec_quote(venue_id, input_asset, output_asset, amount) is None
                    && code == ErrorCode::CalculationError,
            },
    {
        match self.output(amount) {
            Ok(output_amount) => Ok(
                PriceQuote {
                    venue_id,
                    input_asset,
                    output_asset,
                    input_amount: amount,
                    output_amount,
                    fee_bps: self.fee_bps(),
                },
            ),
            Err(code) => Err(code),
        }
    }

    /// The scaled price the venue offers for `amount`, or `None` where the
    /// quote or the price fails.
    pub open spec fn spec_price(self, amount: u64) -> Option<u64> {
        match self.spec_output(amount) {
            Some(output_amount) => if price_defined(output_amount, amount) {
                Some(spec_price(output_amount, amount) as u64)
            } else {
                None
            },
            None => None,
        }
    }

    /// Computes the scaled price the venue offers for `amount`.
    pub fn price(&self, amount: u64) -> (result: Result<u64, ErrorCode>)
        ensures
            match result {
                Ok(scaled) => self.spec_price(amount) == Some(scaled),
                Err(code) => self.spec_price(amount) is None && code == ErrorCode::CalculationError,
            },
    {
        match self.output(amount) {
            Ok(output_amount) => price(output_amount, amount),
            Err(code) => Err(code),
        }
    }
}

} // verus!
