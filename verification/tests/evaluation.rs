use arbitrage_engine::asset::AssetId;
use arbitrage_engine::evaluator::{
    direction_for, evaluate, is_profitable, spread, Direction, TokenPair,
};
use arbitrage_engine::fees::FeeModel;
use arbitrage_engine::quote::{PriceQuote, VenueId};

fn asset(tag: u8) -> AssetId {
    AssetId::from_bytes([tag; 32])
}

fn quote(venue_id: VenueId, input_amount: u64, output_amount: u64) -> PriceQuote {
    PriceQuote {
        venue_id,
        input_asset: asset(1),
        output_asset: asset(2),
        input_amount,
        output_amount,
        fee_bps: 30,
    }
}

fn fees_of_600() -> FeeModel {
    // on 100_000: loan 200, swaps 300, conversion 50, gas 50
    FeeModel {
        loan_fee_bps: 20,
        venue_a_fee_bps: 15,
        venue_b_fee_bps: 15,
        conversion_fee_bps: 5,
        gas_estimate: 50,
    }
}

#[test]
fn spread_is_the_gap_times_the_amount_unscaled() {
    assert_eq!(spread(1_050_000, 1_000_000, 100_000), 5_000);
    assert_eq!(spread(1_000_000, 1_050_000, 100_000), 5_000);
    assert_eq!(spread(1_000_000, 1_000_000, 100_000), 0);
    assert_eq!(spread(3, 1, 499_999), 0);
    assert_eq!(spread(3, 1, 500_000), 1);
    assert_eq!(spread(u64::MAX, 0, u64::MAX), u64::MAX as u128 * u64::MAX as u128 / 1_000_000);
}

#[test]
fn second_leg_goes_to_the_higher_price() {
    assert_eq!(direction_for(1_050_000, 1_000_000), Direction::SellOnBThenA);
    assert_eq!(direction_for(1_000_000, 1_050_000), Direction::SellOnAThenB);
    assert_eq!(direction_for(7, 7), Direction::SellOnAThenB);
    assert_eq!(Direction::SellOnBThenA.first_venue(), VenueId::B);
    assert_eq!(Direction::SellOnBThenA.second_venue(), VenueId::A);
    assert_eq!(Direction::SellOnAThenB.first_venue(), VenueId::A);
    assert_eq!(Direction::SellOnAThenB.second_venue(), VenueId::B);
}

#[test]
fn evaluate_scenario_finds_sell_on_b_then_a() {
    let fees = fees_of_600();
    assert_eq!(fees.total_cost(100_000), 600);
    let quote_a = quote(VenueId::A, 100_000, 105_000);
    let quote_b = quote(VenueId::B, 100_000, 100_000);
    assert_eq!(quote_a.price(), Ok(1_050_000));
    assert_eq!(quote_b.price(), Ok(1_000_000));
    let found = evaluate(&quote_a, &quote_b, 100_000, &fees).unwrap();
    assert_eq!(found.direction, Direction::SellOnBThenA);
    assert_eq!(found.expected_profit, 5_000);
    assert_eq!(found.quote_a, quote_a);
    assert_eq!(found.quote_b, quote_b);
    assert_eq!(
        found.pair,
        TokenPair {
            input_asset: asset(1),
            output_asset: asset(2),
            trade_amount: 100_000,
            loan_amount: 100_000,
        }
    );
}

#[test]
fn evaluate_mirrored_scenario_finds_sell_on_a_then_b() {
    let fees = fees_of_600();
    let quote_a = quote(VenueId::A, 100_000, 100_000);
    let quote_b = quote(VenueId::B, 100_000, 105_000);
    let found = evaluate(&quote_a, &quote_b, 100_000, &fees).unwrap();
    assert_eq!(found.direction, Direction::SellOnAThenB);
    assert_eq!(found.expected_profit, 5_000);
}

#[test]
fn evaluate_needs_a_strictly_greater_spread() {
    let quote_a = quote(VenueId::A, 100_000, 105_000);
    let quote_b = quote(VenueId::B, 100_000, 100_000);
    let mut fees = fees_of_600();
    fees.gas_estimate = 50 + 4_400;
    assert_eq!(fees.total_cost(100_000), 5_000);
    assert_eq!(evaluate(&quote_a, &quote_b, 100_000, &fees), None);
    fees.gas_estimate = 50 + 4_399;
    assert_eq!(fees.total_cost(100_000), 4_999);
    assert!(evaluate(&quote_a, &quote_b, 100_000, &fees).is_some());
    fees.gas_estimate = 50 + 4_401;
    assert_eq!(evaluate(&quote_a, &quote_b, 100_000, &fees), None);
}

#[test]
fn evaluate_is_a_function_of_its_inputs() {
    let fees = fees_of_600();
    let quote_a = quote(VenueId::A, 100_000, 105_000);
    let quote_b = quote(VenueId::B, 100_000, 100_000);
    let first = evaluate(&quote_a, &quote_b, 100_000, &fees);
    let second = evaluate(&quote_a, &quote_b, 100_000, &fees);
    assert_eq!(first, second);
    let none_first = evaluate(&quote_b, &quote_b, 100_000, &fees);
    let none_second = evaluate(&quote_b, &quote_b, 100_000, &fees);
    assert_eq!(none_first, None);
    assert_eq!(none_first, none_second);
}

#[test]
fn evaluate_without_a_price_finds_nothing() {
    let fees = FeeModel {
        loan_fee_bps: 0,
        venue_a_fee_bps: 0,
        venue_b_fee_bps: 0,
        conversion_fee_bps: 0,
        gas_estimate: 0,
    };
    let good = quote(VenueId::A, 100_000, 105_000);
    let zero_input = quote(VenueId::B, 0, 100_000);
    let too_large = quote(VenueId::B, 1, u64::MAX);
    assert_eq!(evaluate(&good, &zero_input, 100_000, &fees), None);
    assert_eq!(evaluate(&zero_input, &good, 100_000, &fees), None);
    assert_eq!(evaluate(&good, &too_large, 100_000, &fees), None);
}

#[test]
fn is_profitable_compares_spread_and_total_cost() {
    let fees = fees_of_600();
    assert!(is_profitable(1_050_000, 1_000_000, 100_000, &fees));
    assert!(is_profitable(1_000_000, 1_050_000, 100_000, &fees));
    // a gap of 6_000 gives a spread of exactly 600
    assert!(!is_profitable(1_006_000, 1_000_000, 100_000, &fees));
    assert!(is_profitable(1_006_010, 1_000_000, 100_000, &fees));
    assert!(!is_profitable(1_000_000, 1_000_000, 100_000, &fees));
}

#[test]
fn same_instrument_looks_at_the_assets_only() {
    let pair = TokenPair {
        input_asset: asset(1),
        output_asset: asset(2),
        trade_amount: 10,
        loan_amount: 20,
    };
    let resized = TokenPair { trade_amount: 11, loan_amount: 21, ..pair };
    let reversed = TokenPair { input_asset: asset(2), output_asset: asset(1), ..pair };
    assert!(pair.same_instrument(&resized));
    assert!(!pair.same_instrument(&reversed));
}
