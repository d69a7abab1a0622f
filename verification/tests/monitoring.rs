use arbitrage_engine::asset::AssetId;
use arbitrage_engine::error::ErrorCode;
use arbitrage_engine::evaluator::TokenPair;
use arbitrage_engine::execution::{ExecutionOutcome, FailureKind};
use arbitrage_engine::monitor::{
    confirmed_outcome, confirmed_outcome_from_bytes, prices_from_bytes, prices_from_return_data,
    ArbitrageMonitor, MonitorError, PairStatus, WatchEntry, DEFAULT_MONITOR_GAS_ESTIMATE,
    POLL_INTERVAL_SECS,
};

const WRAPPED: &str = "So11111111111111111111111111111111111111112";
const ROUTER: &str = "JUP4Fb2cqiRUcaTHdrPC8h2gNsA2ETXiPDD33WcGuJB";
const POOLS: &str = "675kPX9MHTjS2zt1qfr1NYHuzeLXfQM9H24wFSUt1Mp8";

// base64 of the words 1_050_000 and 1_000_000
const WIDE: &str = "kAUQAAAAAABAQg8AAAAAAA==";
// base64 of the words 1_000_300 and 1_000_000
const NARROW: &str = "bEMPAAAAAABAQg8AAAAAAA==";

fn watching_one() -> ArbitrageMonitor {
    let mut monitor = ArbitrageMonitor::new();
    monitor.add_token_pair(WRAPPED, ROUTER, 500_000_000, 500_000_000);
    monitor
}

#[test]
fn new_monitor_watches_nothing() {
    let monitor = ArbitrageMonitor::new();
    assert_eq!(monitor.len(), 0);
    assert_eq!(monitor.entry(0), None);
    assert_eq!(POLL_INTERVAL_SECS, 1);
    assert_eq!(DEFAULT_MONITOR_GAS_ESTIMATE, 5_000);
    let fees = monitor.fee_model();
    assert_eq!(fees.loan_fee_bps, 20);
    assert_eq!(fees.venue_a_fee_bps, 30);
    assert_eq!(fees.venue_b_fee_bps, 25);
    assert_eq!(fees.conversion_fee_bps, 60);
    assert_eq!(fees.gas_estimate, 5_000);
}

#[test]
fn add_token_pair_parses_both_addresses() {
    let mut monitor = ArbitrageMonitor::new();
    monitor.add_token_pair(WRAPPED, ROUTER, 1_000, 2_000);
    monitor.add_token_pair(ROUTER, POOLS, 3, 4);
    assert_eq!(monitor.len(), 2);
    let first = monitor.entry(0).unwrap();
    assert_eq!(
        first,
        WatchEntry {
            pair: TokenPair {
                input_asset: AssetId::parse(WRAPPED).unwrap(),
                output_asset: AssetId::parse(ROUTER).unwrap(),
                trade_amount: 1_000,
                loan_amount: 2_000,
            },
            status: PairStatus::Ready,
            last_outcome: None,
        }
    );
    assert_eq!(first.pair.input_asset.bytes[0], 6);
    assert_eq!(first.pair.input_asset.bytes[31], 1);
    let second = monitor.entry(1).unwrap();
    assert_eq!(second.pair.trade_amount, 3);
    assert_eq!(second.pair.loan_amount, 4);
    assert_eq!(monitor.entry(2), None);
}

#[test]
fn try_add_token_pair_says_what_is_wrong() {
    let mut monitor = ArbitrageMonitor::new();
    assert_eq!(
        monitor.try_add_token_pair("Your_Program_ID", ROUTER, 1, 1),
        Err(MonitorError::InvalidTokenA)
    );
    assert_eq!(
        monitor.try_add_token_pair(WRAPPED, "not an address", 1, 1),
        Err(MonitorError::InvalidTokenB)
    );
    assert_eq!(
        monitor.try_add_token_pair("bad", "worse", 0, 0),
        Err(MonitorError::InvalidTokenA)
    );
    assert_eq!(monitor.try_add_token_pair(WRAPPED, ROUTER, 0, 1), Err(MonitorError::ZeroAmount));
    assert_eq!(monitor.try_add_token_pair(WRAPPED, ROUTER, 1, 0), Err(MonitorError::ZeroAmount));
    assert_eq!(monitor.len(), 0);
    assert_eq!(monitor.try_add_token_pair(WRAPPED, ROUTER, 1, 2), Ok(()));
    assert_eq!(monitor.len(), 1);
    assert_eq!(monitor.entry(0).unwrap().pair.loan_amount, 2);
}

#[test]
fn add_pair_takes_a_parsed_pair() {
    let mut monitor = ArbitrageMonitor::new();
    let pair = TokenPair {
        input_asset: AssetId::from_bytes([1; 32]),
        output_asset: AssetId::from_bytes([2; 32]),
        trade_amount: 5,
        loan_amount: 6,
    };
    monitor.add_pair(pair);
    assert_eq!(
        monitor.entry(0),
        Some(WatchEntry { pair, status: PairStatus::Ready, last_outcome: None })
    );
}

#[test]
fn monitor_errors_have_their_messages() {
    assert_eq!(
        MonitorError::NoReturnData.message(),
        "No return data from price check simulation"
    );
    assert_eq!(MonitorError::InvalidTokenA.message(), "Invalid token A address");
    assert_eq!(MonitorError::InvalidTokenB.message(), "Invalid token B address");
    assert_eq!(MonitorError::InvalidEncoding.message(), "Return data is not valid base64");
    assert_eq!(MonitorError::ShortResponse.message(), "Return data is shorter than two prices");
    assert_eq!(MonitorError::UnknownPair.message(), "No such token pair");
    assert_eq!(MonitorError::ZeroAmount.message(), "Amounts must be positive");
}

#[test]
fn return_data_decodes_to_two_prices() {
    assert_eq!(prices_from_return_data(Some(WIDE)), Ok((1_050_000, 1_000_000)));
    assert_eq!(prices_from_return_data(Some(NARROW)), Ok((1_000_300, 1_000_000)));
    // a seventeenth byte is not read
    assert_eq!(
        prices_from_return_data(Some("kAUQAAAAAABAQg8AAAAAAAk=")),
        Ok((1_050_000, 1_000_000))
    );
}

#[test]
fn return_data_errors() {
    assert_eq!(prices_from_return_data(None), Err(MonitorError::NoReturnData));
    assert_eq!(prices_from_return_data(Some("not base64!")), Err(MonitorError::InvalidEncoding));
    assert_eq!(
        prices_from_return_data(Some("kAUQAAAAAABAQg8AAAAAAA")),
        Err(MonitorError::InvalidEncoding)
    );
    // base64 of one word only
    assert_eq!(prices_from_return_data(Some("BwAAAAAAAAA=")), Err(MonitorError::ShortResponse));
    assert_eq!(prices_from_return_data(Some("")), Err(MonitorError::ShortResponse));
    assert_eq!(prices_from_bytes(&[0u8; 15]), Err(MonitorError::ShortResponse));
    assert_eq!(prices_from_bytes(&[0u8; 16]), Ok((0, 0)));
}

#[test]
fn price_check_data_carries_the_trade_amount() {
    let mut monitor = ArbitrageMonitor::new();
    monitor.add_token_pair(WRAPPED, ROUTER, 500_000_000, 7);
    assert_eq!(monitor.price_check_data(0), Some(vec![0, 0, 101, 205, 29, 0, 0, 0, 0]));
    assert_eq!(monitor.price_check_data(1), None);
}

#[test]
fn check_arbitrage_opportunity_decides_on_the_prices() {
    let monitor = watching_one();
    // total cost on 500_000_000: 1_000_000 + 2_750_000 + 3_000_000 + 5_000
    assert_eq!(monitor.fee_model().total_cost(500_000_000), 6_755_000);
    // spread 25_000_000
    assert_eq!(monitor.check_arbitrage_opportunity(0, Some(WIDE)), Ok(true));
    // spread 150_000
    assert_eq!(monitor.check_arbitrage_opportunity(0, Some(NARROW)), Ok(false));
    assert_eq!(monitor.assess(0, &arbitrage_engine::wire::encode_price_pair(1_050_000, 1_000_000)), Ok(true));
    assert_eq!(monitor.assess(0, &arbitrage_engine::wire::encode_price_pair(1_000_000, 1_050_000)), Ok(true));
    assert_eq!(monitor.assess(0, &arbitrage_engine::wire::encode_price_pair(1_000_000, 1_000_000)), Ok(false));
}

#[test]
fn check_arbitrage_opportunity_reports_what_it_cannot_read() {
    let monitor = watching_one();
    assert_eq!(monitor.check_arbitrage_opportunity(0, None), Err(MonitorError::NoReturnData));
    assert_eq!(
        monitor.check_arbitrage_opportunity(0, Some("***")),
        Err(MonitorError::InvalidEncoding)
    );
    assert_eq!(
        monitor.check_arbitrage_opportunity(0, Some("BwAAAAAAAAA=")),
        Err(MonitorError::ShortResponse)
    );
    assert_eq!(monitor.check_arbitrage_opportunity(1, Some(WIDE)), Err(MonitorError::UnknownPair));
    assert_eq!(monitor.assess(1, &[0u8; 16]), Err(MonitorError::UnknownPair));
    assert_eq!(monitor.assess(0, &[0u8; 3]), Err(MonitorError::ShortResponse));
}

#[test]
fn gas_estimate_moves_the_threshold() {
    let mut monitor = watching_one();
    assert_eq!(monitor.check_arbitrage_opportunity(0, Some(WIDE)), Ok(true));
    // cost without gas 6_750_000, spread 25_000_000
    monitor.set_gas_estimate(18_250_000);
    assert_eq!(monitor.fee_model().gas_estimate, 18_250_000);
    assert_eq!(monitor.fee_model().loan_fee_bps, 20);
    assert_eq!(monitor.check_arbitrage_opportunity(0, Some(WIDE)), Ok(false));
    monitor.set_gas_estimate(18_249_999);
    assert_eq!(monitor.check_arbitrage_opportunity(0, Some(WIDE)), Ok(true));
    assert_eq!(monitor.len(), 1);
}

#[test]
fn second_trigger_for_the_same_pair_is_skipped() {
    let mut monitor = watching_one();
    assert!(monitor.can_trigger(0));
    let first = monitor.trigger(0);
    assert_eq!(first, Some(vec![0, 0, 101, 205, 29, 0, 0, 0, 0]));
    assert_eq!(monitor.entry(0).unwrap().status, PairStatus::InFlight);
    assert!(!monitor.can_trigger(0));
    assert_eq!(monitor.trigger(0), None);
    assert_eq!(monitor.trigger(0), None);
    assert_eq!(monitor.entry(0).unwrap().status, PairStatus::InFlight);
    assert_eq!(monitor.price_check_data(0), None);
    assert_eq!(monitor.trigger(1), None);
    assert_eq!(monitor.len(), 1);
}

#[test]
fn single_flight_covers_every_entry_of_the_instrument() {
    let mut monitor = ArbitrageMonitor::new();
    monitor.add_token_pair(WRAPPED, ROUTER, 100, 100);
    monitor.add_token_pair(ROUTER, WRAPPED, 100, 100);
    monitor.add_token_pair(WRAPPED, ROUTER, 200, 300);
    assert!(monitor.trigger(2).is_some());
    // the same two assets in the same order, at another place
    assert_eq!(monitor.trigger(0), None);
    assert_eq!(monitor.price_check_data(0), None);
    // the reversed pair is another instrument
    assert!(monitor.trigger(1).is_some());
    let in_flight = (0..monitor.len())
        .filter(|&index| monitor.entry(index).unwrap().status == PairStatus::InFlight)
        .count();
    assert_eq!(in_flight, 2);
    assert_eq!(monitor.entry(0).unwrap().status, PairStatus::Ready);
    assert!(monitor.complete(2, ExecutionOutcome::committed(1)));
    assert!(monitor.trigger(0).is_some());
}

#[test]
fn a_settled_pair_rests_until_the_next_tick() {
    let mut monitor = watching_one();
    assert!(monitor.trigger(0).is_some());
    let failed = ExecutionOutcome::reverted(FailureKind::Program(ErrorCode::SlippageExceeded));
    assert!(monitor.complete(0, failed));
    let entry = monitor.entry(0).unwrap();
    assert_eq!(entry.status, PairStatus::Settled);
    assert_eq!(entry.last_outcome, Some(failed));
    assert_eq!(entry.last_outcome.unwrap().failure_kind, Some(FailureKind::Program(ErrorCode::SlippageExceeded)));
    // no retry within the tick
    assert_eq!(monitor.trigger(0), None);
    assert_eq!(monitor.price_check_data(0), None);
    monitor.begin_tick();
    assert_eq!(monitor.entry(0).unwrap().status, PairStatus::Ready);
    assert_eq!(monitor.entry(0).unwrap().last_outcome, Some(failed));
    assert!(monitor.trigger(0).is_some());
    let won = ExecutionOutcome::committed(4_100);
    assert!(monitor.complete(0, won));
    assert_eq!(monitor.entry(0).unwrap().last_outcome, Some(won));
    assert_eq!(monitor.entry(0).unwrap().last_outcome.unwrap().realized_profit, 4_100);
}

#[test]
fn an_execution_in_flight_outlives_the_tick() {
    let mut monitor = watching_one();
    assert!(monitor.trigger(0).is_some());
    monitor.begin_tick();
    assert_eq!(monitor.entry(0).unwrap().status, PairStatus::InFlight);
    assert_eq!(monitor.trigger(0), None);
    let timed_out = ExecutionOutcome::reverted(FailureKind::Transient);
    assert!(monitor.complete(0, timed_out));
    monitor.begin_tick();
    assert!(monitor.trigger(0).is_some());
}

#[test]
fn complete_needs_an_execution_in_flight() {
    let mut monitor = watching_one();
    assert!(!monitor.complete(0, ExecutionOutcome::committed(1)));
    assert_eq!(monitor.entry(0).unwrap().status, PairStatus::Ready);
    assert_eq!(monitor.entry(0).unwrap().last_outcome, None);
    assert!(!monitor.complete(5, ExecutionOutcome::committed(1)));
    assert!(monitor.trigger(0).is_some());
    assert!(monitor.complete(0, ExecutionOutcome::committed(1)));
    assert!(!monitor.complete(0, ExecutionOutcome::committed(2)));
    assert_eq!(monitor.entry(0).unwrap().last_outcome, Some(ExecutionOutcome::committed(1)));
}

#[test]
fn a_profitable_price_check_triggers_the_execution() {
    let mut monitor = ArbitrageMonitor::new();
    monitor.add_token_pair(WRAPPED, ROUTER, 500_000_000, 600_000_000);
    let data = monitor.on_price_check(0, Some(WIDE));
    let mut expected: Vec<u8> = vec![0];
    expected.extend_from_slice(&600_000_000u64.to_le_bytes());
    assert_eq!(data, Some(expected));
    assert_eq!(monitor.entry(0).unwrap().status, PairStatus::InFlight);
    // the pair is in flight: the next price check starts nothing
    assert_eq!(monitor.on_price_check(0, Some(WIDE)), None);
    assert_eq!(monitor.entry(0).unwrap().status, PairStatus::InFlight);
}

#[test]
fn other_price_checks_are_passed_over() {
    let mut monitor = watching_one();
    assert_eq!(monitor.on_price_check(0, Some(NARROW)), None);
    assert_eq!(monitor.on_price_check(0, None), None);
    assert_eq!(monitor.on_price_check(0, Some("???")), None);
    assert_eq!(monitor.on_price_check(0, Some("BwAAAAAAAAA=")), None);
    assert_eq!(monitor.on_price_check(1, Some(WIDE)), None);
    assert_eq!(monitor.entry(0).unwrap().status, PairStatus::Ready);
    assert_eq!(monitor.entry(0).unwrap().last_outcome, None);
    assert!(monitor.on_price_check(0, Some(WIDE)).is_some());
}

#[test]
fn a_confirmed_execution_records_the_returned_profit() {
    // base64 of the word 4_100
    assert_eq!(confirmed_outcome(Some("BBAAAAAAAAA=")), ExecutionOutcome::committed(4_100));
    // base64 of the word 7
    assert_eq!(confirmed_outcome(Some("BwAAAAAAAAA=")), ExecutionOutcome::committed(7));
    assert_eq!(
        confirmed_outcome_from_bytes(&4_100u64.to_le_bytes()),
        ExecutionOutcome { success: true, realized_profit: 4_100, failure_kind: None }
    );
    let mut monitor = watching_one();
    assert!(monitor.trigger(0).is_some());
    assert!(monitor.complete(0, confirmed_outcome(Some("BBAAAAAAAAA="))));
    assert_eq!(monitor.entry(0).unwrap().last_outcome.unwrap().realized_profit, 4_100);
}

#[test]
fn a_confirmed_execution_without_readable_profit_records_zero() {
    assert_eq!(confirmed_outcome(None), ExecutionOutcome::committed(0));
    assert_eq!(confirmed_outcome(Some("???")), ExecutionOutcome::committed(0));
    assert_eq!(confirmed_outcome(Some("")), ExecutionOutcome::committed(0));
    // base64 of seven bytes
    assert_eq!(confirmed_outcome(Some("BBAAAAAAAA==")), ExecutionOutcome::committed(0));
    assert_eq!(confirmed_outcome_from_bytes(&[1, 2, 3]), ExecutionOutcome::committed(0));
}
