//! The execution program: its configuration, the price check that the
//! monitor simulates, and the entry point that starts an execution.

use crate::asset::AssetId;
use crate::error::ErrorCode;
use crate::evaluator::{
    evaluate, spec_evaluate, spec_price_gap, spec_spread, ArbitrageOpportunity, TokenPair,
};
use crate::execution::{Action, Execution, Plan, Stage};
use crate::fees::{lemma_bps_fee_nonnegative, FeeModel};
use crate::price::PRICE_PRECISION;
use crate::quote::{
    PriceQuote, Venue, VenueId, DEFAULT_POOL_SLIPPAGE_BPS, DEFAULT_ROUTED_SLIPPAGE_BPS,
};
use crate::wire::{encode_price_pair, spec_price_pair_bytes};
use vstd::prelude::*;

verus! {

/// The configuration of the execution program.
#[derive(Clone, Copy, Debug, PartialEq, Eq, Structural)]
pub struct ArbitrageContract {
    /// What a round costs.
    pub fees: FeeModel,
    /// Slippage bound of a hop through the routed venue, in basis points.
    pub routed_slippage_bps: u64,
    /// Slippage bound of a hop through a constant-product pool, in basis points.
    pub pool_slippage_bps: u64,
}

/// What one call of the program works on: the instrument, the asset of the
/// loan, and the state of both venues as it is when the call runs.
#[derive(Clone, Copy, Debug, PartialEq, Eq)]
pub struct TryArbitrage {
    /// The instrument.
    pub pair: TokenPair,
    /// The asset in which the loan is taken and paid back.
    pub settlement_asset: AssetId,
    /// Venue A, as it stands now.
    pub venue_a: Venue,
    /// Venue B, as it stands now.
    pub venue_b: Venue,
}

impl TryArbitrage {
    /// The venue with the given name.
    pub open spec fn spec_venue(self, id: VenueId) -> Venue {
        match id {
            VenueId::A => self.venue_a,
            VenueId::B => self.venue_b,
        }
    }

    /// Returns the venue with the given name.
    pub fn venue(&self, id: VenueId) -> (venue: Venue)
        ensures
            venue == self.spec_venue(id),
    {
        match id {
            VenueId::A => self.venue_a,
            VenueId::B => self.venue_b,
        }
    }

    /// Whether the loan has to be converted into the traded asset and back.
    pub open spec fn spec_converts(self) -> bool {
        self.settlement_asset@ != self.pair.input_asset@
    }

    /// The quotes of both venues for `amount`, or `None` where one of them fails.
    pub open spec fn spec_quotes(self, amount: u64) -> Option<(PriceQuote, PriceQuote)> {
        match (
            self.venue_a.spec_quote(
                VenueId::A,
                self.pair.input_asset,
                self.pair.output_asset,
                amount,
            ),
            self.venue_b.spec_quote(
                VenueId::B,
                self.pair.input_asset,
                self.pair.output_asset,
                amount,
            ),
        ) {
            (Some(quote_a), Some(quote_b)) => Some((quote_a, quote_b)),
            _ => None,
        }
    }

    /// Tells whether the loan has to be converted into the traded asset and back.
    pub fn converts(&self) -> (converts: bool)
        ensures
            converts == self.spec_converts(),
    {
        !self.settlement_asset.same(&self.pair.input_asset)
    }

    /// Quotes `amount` on both venues.
    pub fn quotes(&self, amount: u64) -> (result: Result<(PriceQuote, PriceQuote), ErrorCode>)
        ensures
            match result {
                Ok(both) => self.spec_quotes(amount) == Some(both),
                Err(code) => self.spec_quotes(amount) is None && code
                    == ErrorCode::CalculationError,
            },
    {
        let quote_a: PriceQuote = match self.venue_a.quote(
            VenueId::A,
            self.pair.input_asset,
            self.pair.output_asset,
            amount,
        ) {
            Ok(quote) => quote,
            Err(code) => {
                return Err(code);
            },
        };
        match self.venue_b.quote(VenueId::B, self.pair.input_asset, self.pair.output_asset, amount) {
            Ok(quote_b) => Ok((quote_a, quote_b)),
            Err(code) => Err(code),
        }
    }
}

impl ArbitrageContract {
    /// The program with the default fees and slippage bounds.
    pub fn standard() -> (contract: ArbitrageContract)
        ensures
            contract.fees == FeeModel::spec_standard(),
            contract.routed_slippage_bps == DEFAULT_ROUTED_SLIPPAGE_BPS,
            contract.pool_slippage_bps == DEFAULT_POOL_SLIPPAGE_BPS,
    {
        ArbitrageContract {
            fees: FeeModel::standard(),
            routed_slippage_bps: DEFAULT_ROUTED_SLIPPAGE_BPS,
            pool_slippage_bps: DEFAULT_POOL_SLIPPAGE_BPS,
        }
    }

    /// The slippage bound of a hop through `venue`.
    pub open spec fn spec_slippage_for(self, venue: Venue) -> u64 {
        match venue {
            Venue::ConstantProduct { .. } => self.pool_slippage_bps,
            Venue::Routed { .. } => self.routed_slippage_bps,
        }
    }

    /// Returns the slippage bound of a hop through `venue`.
    pub fn slippage_for(&self, venue: &Venue) -> (bps: u64)
        ensures
            bps == self.spec_slippage_for(*venue),
    {
        match venue {
            Venue::ConstantProduct { .. } => self.pool_slippage_bps,
            Venue::Routed { .. } => self.routed_slippage_bps,
        }
    }

    /// The two scaled prices at the pair's trade amount, or the failure of the check.
    pub open spec fn spec_prices(self, accounts: TryArbitrage) -> Option<(u64, u64)> {
        match (
            accounts.venue_a.spec_price(accounts.pair.trade_amount),
            accounts.venue_b.spec_price(accounts.pair.trade_amount),
        ) {
            (Some(price_a), Some(price_b)) => Some((price_a, price_b)),
            _ => None,
        }
    }

    /// The read-only price check: the scaled prices of venue A and venue B at
    /// the pair's trade amount, as the 16 bytes that the monitor decodes.
    pub fn check_prices(&self, accounts: &TryArbitrage) -> (result: Result<Vec<u8>, ErrorCode>)
        ensures
            match result {
                Ok(data) => {
                    &&& self.spec_prices(*accounts) is Some
                    &&& data@ == spec_price_pair_bytes(
                        self.spec_prices(*accounts).unwrap().0,
                        self.spec_prices(*accounts).unwrap().1,
                    )
                },
                Err(code) => self.spec_prices(*accounts) is None && code
                    == ErrorCode::CalculationError,
            },
    {
        let price_a: u64 = match accounts.venue_a.price(accounts.pair.trade_amount) {
            Ok(scaled) => scaled,
            Err(code) => {
                return Err(code);
            },
        };
        let price_b: u64 = match accounts.venue_b.price(accounts.pair.trade_amount) {
            Ok(scaled) => scaled,
            Err(code) => {
                return Err(code);
            },
        };
        Ok(encode_price_pair(price_a, price_b))
    }

    /// The fee model that applies to a call: the configured one, without the
    /// conversion fee where the loan is taken in the traded asset.
    pub open spec fn spec_fees_for(self, accounts: TryArbitrage) -> FeeModel {
        self.fees.spec_for_round(accounts.spec_converts())
    }

    /// The decision taken again at execution time, on the venues as they
    /// stand now and on the loan amount: the opportunity, or
    /// `CalculationError` where a quote or a price fails, or
    /// `InsufficientProfit` where the spread no longer exceeds the cost.
    pub open spec fn spec_reverify(self, accounts: TryArbitrage) -> Result<
        ArbitrageOpportunity,
        ErrorCode,
    > {
        match accounts.spec_quotes(accounts.pair.loan_amount) {
            Some((quote_a, quote_b)) => if !quote_a.price_defined() || !quote_b.price_defined() {
                Err(ErrorCode::CalculationError)
            } else {
                match spec_evaluate(
                    quote_a,
                    quote_b,
                    accounts.pair.loan_amount,
                    self.spec_fees_for(accounts),
                ) {
                    Some(found) => Ok(found),
                    None => Err(ErrorCode::InsufficientProfit),
                }
            },
            None => Err(ErrorCode::CalculationError),
        }
    }

    /// Takes the decision again, on the venues as they stand now.
    pub fn reverify(&self, accounts: &TryArbitrage) -> (result: Result<
        ArbitrageOpportunity,
        ErrorCode,
    >)
        ensures
            result == self.spec_reverify(*accounts),
    {
        let amount: u64 = accounts.pair.loan_amount;
        let (quote_a, quote_b) = match accounts.quotes(amount) {
            Ok(both) => both,
            Err(code) => {
                return Err(code);
            },
        };
        if quote_a.price().is_err() || quote_b.price().is_err() {
            return Err(ErrorCode::CalculationError);
        }
        let fees: FeeModel = self.fees.for_round(accounts.converts());
        match evaluate(&quote_a, &quote_b, amount, &fees) {
            Some(found) => Ok(found),
            None => Err(ErrorCode::InsufficientProfit),
        }
    }

    /// The execution that `found` starts: waiting for the loan, with nothing in hand.
    pub open spec fn spec_begin(self, accounts: TryArbitrage, found: ArbitrageOpportunity) -> Execution {
        let loan_amount = accounts.pair.loan_amount;
        let loan_fee = self.fees.spec_loan_fee(loan_amount);
        Execution {
            plan: Plan {
                pair: accounts.pair,
                settlement_asset: accounts.settlement_asset,
                direction: found.direction,
                converts: accounts.spec_converts(),
                loan_amount,
                loan_fee: loan_fee as u64,
                repayment_due: (loan_amount + loan_fee) as u64,
                first_leg_kind: accounts.spec_venue(
                    found.direction.spec_first_venue(),
                ).spec_kind(),
                first_leg_slippage_bps: self.spec_slippage_for(
                    accounts.spec_venue(found.direction.spec_first_venue()),
                ),
                second_leg_kind: accounts.spec_venue(
                    found.direction.spec_second_venue(),
                ).spec_kind(),
                second_leg_slippage_bps: self.spec_slippage_for(
                    accounts.spec_venue(found.direction.spec_second_venue()),
                ),
                conversion_slippage_bps: self.routed_slippage_bps,
            },
            stage: Stage::Loan,
            balance: 0,
            min_output: 0,
            final_balance: 0,
            repaid_amount: 0,
            realized_profit: 0,
        }
    }

    /// What a call of the program does first: nothing but fail, where the
    /// decision taken again fails; otherwise start an execution and ask for
    /// the loan.
    pub open spec fn spec_try_arbitrage(self, accounts: TryArbitrage) -> Result<
        (Execution, Action),
        ErrorCode,
    > {
        match self.spec_reverify(accounts) {
            Ok(found) => Ok(
                (
                    self.spec_begin(accounts, found),
                    Action::Borrow {
                        asset: accounts.settlement_asset,
                        amount: accounts.pair.loan_amount,
                    },
                ),
            ),
            Err(code) => Err(code),
        }
    }

    /// Starts an execution.
    ///
    /// The decision of the monitor is not trusted: both venues are quoted
    /// again and the profitability is decided again. Where that fails, the
    /// call fails before anything is borrowed and returns no action at all.
    /// Otherwise it returns the execution, waiting for the loan, and the
    /// request to borrow, which the driver answers through
    /// [`Execution::step`].
    pub fn try_arbitrage(&self, accounts: &TryArbitrage) -> (result: Result<
        (Execution, Action),
        ErrorCode,
    >)
        ensures
            result == self.spec_try_arbitrage(*accounts),
            result is Err <==> self.spec_reverify(*accounts) is Err,
            result matches Ok((execution, action)) ==> {
                &&& execution.inv()
                &&& execution.stage is Loan
                &&& execution.plan.loan_amount == accounts.pair.loan_amount
                &&& execution.plan.loan_fee == self.fees.spec_loan_fee(accounts.pair.loan_amount)
                &&& action == (Action::Borrow {
                    asset: accounts.settlement_asset,
                    amount: accounts.pair.loan_amount,
                })
            },
    {
        let found: ArbitrageOpportunity = match self.reverify(accounts) {
            Ok(found) => found,
            Err(code) => {
                return Err(code);
            },
        };
        let loan_amount: u64 = accounts.pair.loan_amount;
        let loan_fee: u64 = self.fees.loan_fee(loan_amount);
        proof {
            let (quote_a, quote_b) = accounts.spec_quotes(loan_amount).unwrap();
            lemma_profitable_loan_can_be_repaid(
                quote_a,
                quote_b,
                loan_amount,
                self.spec_fees_for(*accounts),
            );
        }
        let repayment_due: u64 = match loan_amount.checked_add(loan_fee) {
            Some(due) => due,
            None => {
                return Err(ErrorCode::CalculationError);
            },
        };
        let first: Venue = accounts.venue(found.direction.first_venue());
        let second: Venue = accounts.venue(found.direction.second_venue());
        let execution = Execution {
            plan: Plan {
                pair: accounts.pair,
                settlement_asset: accounts.settlement_asset,
                direction: found.direction,
                converts: accounts.converts(),
                loan_amount,
                loan_fee,
                repayment_due,
                first_leg_kind: first.kind(),
                first_leg_slippage_bps: self.slippage_for(&first),
                second_leg_kind: second.kind(),
                second_leg_slippage_bps: self.slippage_for(&second),
                conversion_slippage_bps: self.routed_slippage_bps,
            },
            stage: Stage::Loan,
            balance: 0,
            min_output: 0,
            final_balance: 0,
            repaid_amount: 0,
            realized_profit: 0,
        };
        Ok((execution, Action::Borrow { asset: accounts.settlement_asset, amount: loan_amount }))
    }
}

/// A loan that passes the decision can be paid back within 64 bits: where
/// two quotes for `amount` make an opportunity, the amount and its loan fee
/// together fit.
pub proof fn lemma_profitable_loan_can_be_repaid(
    quote_a: PriceQuote,
    quote_b: PriceQuote,
    amount: u64,
    fees: FeeModel,
)
    requires
        quote_a.input_amount == amount,
        quote_b.input_amount == amount,
        spec_evaluate(quote_a, quote_b, amount, fees) is Some,
    ensures
        amount + fees.spec_loan_fee(amount) <= u64::MAX,
{
    let price_a = quote_a.spec_price();
    let price_b = quote_b.spec_price();
    let scaled_a = quote_a.output_amount * PRICE_PRECISION;
    let scaled_b = quote_b.output_amount * PRICE_PRECISION;
    let gap = spec_price_gap(price_a as u64, price_b as u64);
    let fee = fees.spec_loan_fee(amount);
    assert(0 <= price_a && price_a * amount <= scaled_a) by (nonlinear_arith)
        requires
            price_a == scaled_a / (amount as int),
            amount > 0,
            scaled_a >= 0,
    ;
    assert(0 <= price_b && price_b * amount <= scaled_b) by (nonlinear_arith)
        requires
            price_b == scaled_b / (amount as int),
            amount > 0,
            scaled_b >= 0,
    ;
    assert(price_a <= u64::MAX && price_b <= u64::MAX) by (nonlinear_arith)
        requires
            0 <= price_a,
            0 <= price_b,
            price_a * amount <= u64::MAX,
            price_b * amount <= u64::MAX,
            amount >= 1,
    ;
    assert(gap * amount <= u64::MAX) by (nonlinear_arith)
        requires
            0 <= gap,
            gap <= price_a || gap <= price_b,
            price_a * amount <= u64::MAX,
            price_b * amount <= u64::MAX,
            amount >= 1,
    ;
    let spread = spec_spread(price_a as u64, price_b as u64, amount);
    assert(spread <= 18_446_744_073_709) by (nonlinear_arith)
        requires
            spread == (gap * amount) / 1_000_000,
            gap * amount <= u64::MAX,
    ;
    lemma_bps_fee_nonnegative(amount, fees.spec_swap_rate() as u64);
    lemma_bps_fee_nonnegative(amount, fees.conversion_fee_bps);
    assert(fee < spread);
    if fee > 0 {
        let bps = fees.loan_fee_bps;
        assert(amount / 10000 <= fee) by (nonlinear_arith)
            requires
                fee == (amount * bps) / 10000,
                fee > 0,
                bps >= 0,
                amount >= 0,
        ;
    }
}

/// Where the venues have moved so that the decision taken again is negative,
/// the call fails with `InsufficientProfit` and starts nothing: no execution
/// exists and no action is returned, so nothing is borrowed or swapped.
pub proof fn lemma_stale_opportunity_starts_nothing(
    contract: ArbitrageContract,
    accounts: TryArbitrage,
)
    requires
        accounts.spec_quotes(accounts.pair.loan_amount) is Some,
        ({
            let (quote_a, quote_b) = accounts.spec_quotes(accounts.pair.loan_amount).unwrap();
            spec_evaluate(
                quote_a,
                quote_b,
                accounts.pair.loan_amount,
                contract.spec_fees_for(accounts),
            ) is None
        }),
    ensures
        contract.spec_try_arbitrage(accounts) is Err,
{
}

} // verus!
