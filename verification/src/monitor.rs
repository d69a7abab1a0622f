//! The opportunity monitor: the watch-list, the reading of a simulated price
//! check, and the rule that at most one execution per instrument is in flight.
//!
//! The monitor decides; its driver polls. Once per tick and pair the driver
//! simulates the price check, hands the returned text to the monitor, sends
//! the execution where the monitor triggers one, and reports how it ended.

use crate::asset::{address_bytes, AssetId};
use crate::evaluator::{is_profitable, spec_is_profitable, TokenPair};
use crate::execution::ExecutionOutcome;
use crate::fees::{
    FeeModel, DEFAULT_CONVERSION_FEE_BPS, DEFAULT_LOAN_FEE_BPS, DEFAULT_POOL_FEE_BPS,
    DEFAULT_ROUTED_FEE_BPS,
};
use crate::wire::{
    base64_decode, base64_decoded, decode_amount, decode_price_pair, instruction_data, spec_amount,
    spec_instruction_data, spec_price_pair, EXECUTE_SELECTOR, PRICE_CHECK_SELECTOR,
};
use vstd::prelude::*;

verus! {

/// Seconds between two ticks.
pub const POLL_INTERVAL_SECS: u64 = 1;

/// The monitor's default estimate of the execution cost, in the smallest unit
/// of the settlement asset.
pub const DEFAULT_MONITOR_GAS_ESTIMATE: u64 = 5000;

/// Why the monitor could not read a price check or register a pair.
#[derive(Clone, Copy, Debug, PartialEq, Eq, Structural)]
pub enum MonitorError {
    /// The watch-list has no pair at that place.
    UnknownPair,
    /// The simulation returned no data.
    NoReturnData,
    /// The returned text is not base64.
    InvalidEncoding,
    /// The returned buffer is shorter than two prices.
    ShortResponse,
    /// The first address does not parse.
    InvalidTokenA,
    /// The second address does not parse.
    InvalidTokenB,
    /// An amount is zero.
    ZeroAmount,
}

impl MonitorError {
    /// The text shown for this failure.
    pub open spec fn spec_message(self) -> Seq<char> {
        match self {
            MonitorError::UnknownPair => "No such token pair"@,
            MonitorError::NoReturnData => "No return data from price check simulation"@,
            MonitorError::InvalidEncoding => "Return data is not valid base64"@,
            MonitorError::ShortResponse => "Return data is shorter than two prices"@,
            MonitorError::InvalidTokenA => "Invalid token A address"@,
            MonitorError::InvalidTokenB => "Invalid token B address"@,
            MonitorError::ZeroAmount => "Amounts must be positive"@,
        }
    }

    /// Returns the text shown for this failure.
    pub fn message(&self) -> (text: &'static str)
        ensures
            text@ == self.spec_message(),
    {
        match self {
            MonitorError::UnknownPair => "No such token pair",
            MonitorError::NoReturnData => "No return data from price check simulation",
            MonitorError::InvalidEncoding => "Return data is not valid base64",
            MonitorError::ShortResponse => "Return data is shorter than two prices",
            MonitorError::InvalidTokenA => "Invalid token A address",
            MonitorError::InvalidTokenB => "Invalid token B address",
            MonitorError::ZeroAmount => "Amounts must be positive",
        }
    }
}

/// Where a watched pair stands within the current tick.
#[derive(Clone, Copy, Debug, PartialEq, Eq, Structural)]
pub enum PairStatus {
    /// Nothing is running and nothing ran in this tick.
    Ready,
    /// An execution is in flight.
    InFlight,
    /// An execution ended in this tick; the next tick may try again.
    Settled,
}

/// One entry of the watch-list.
#[derive(Clone, Copy, Debug, PartialEq, Eq)]
pub struct WatchEntry {
    /// The instrument. It does not change once registered.
    pub pair: TokenPair,
    /// Where the pair stands within the current tick.
    pub status: PairStatus,
    /// How the last execution of the pair ended, if one ended.
    pub last_outcome: Option<ExecutionOutcome>,
}

/// The prices that a decoded return buffer holds.
pub open spec fn spec_prices_of(decoded: Option<Seq<u8>>) -> Result<(u64, u64), MonitorError> {
    match decoded {
        None => Err(MonitorError::InvalidEncoding),
        Some(data) => match spec_price_pair(data) {
            Some(prices) => Ok(prices),
            None => Err(MonitorError::ShortResponse),
        },
    }
}

/// Reads the prices of venue A and venue B from a returned buffer.
pub fn prices_from_bytes(data: &[u8]) -> (result: Result<(u64, u64), MonitorError>)
    ensures
        result == spec_prices_of(Some(data@)),
{
    match decode_price_pair(data) {
        Some(prices) => Ok(prices),
        None => Err(MonitorError::ShortResponse),
    }
}

/// Reads the prices of venue A and venue B from the text that a simulated
/// price check returned: base64 of 16 bytes, two little-endian words.
pub fn prices_from_return_data(return_data: Option<&str>) -> (result: Result<
    (u64, u64),
    MonitorError,
>)
    ensures
        result == match return_data {
            None => Err(MonitorError::NoReturnData),
            Some(text) => spec_prices_of(base64_decoded(text@)),
        },
{
    let text: &str = match return_data {
        Some(text) => text,
        None => {
            return Err(MonitorError::NoReturnData);
        },
    };
    match base64_decode(text) {
        Ok(data) => prices_from_bytes(data.as_slice()),
        Err(_) => Err(MonitorError::InvalidEncoding),
    }
}

/// The outcome of an execution that the ledger confirmed: a success with the
/// profit that the program returned, and with a profit of zero where it
/// returned nothing that can be read.
pub open spec fn spec_confirmed_outcome(decoded: Option<Seq<u8>>) -> ExecutionOutcome {
    ExecutionOutcome {
        success: true,
        realized_profit: match decoded {
            Some(data) => match spec_amount(data) {
                Some(profit) => profit,
                None => 0,
            },
            None => 0,
        },
        failure_kind: None,
    }
}

/// Reads the outcome of a confirmed execution from the buffer that it returned.
pub fn confirmed_outcome_from_bytes(data: &[u8]) -> (outcome: ExecutionOutcome)
    ensures
        outcome == spec_confirmed_outcome(Some(data@)),
{
    match decode_amount(data) {
        Some(profit) => ExecutionOutcome::committed(profit),
        None => ExecutionOutcome::committed(0),
    }
}

/// Reads the outcome of a confirmed execution from the text that it
/// returned: base64 of one little-endian word, the realized profit.
pub fn confirmed_outcome(return_data: Option<&str>) -> (outcome: ExecutionOutcome)
    ensures
        outcome == spec_confirmed_outcome(
            match return_data {
                Some(text) => base64_decoded(text@),
                None => None,
            },
        ),
{
    let text: &str = match return_data {
        Some(text) => text,
        None => {
            return ExecutionOutcome::committed(0);
        },
    };
    match base64_decode(text) {
        Ok(data) => confirmed_outcome_from_bytes(data.as_slice()),
        Err(_) => ExecutionOutcome::committed(0),
    }
}

/// Whether no two entries of the same instrument are in flight together.
pub open spec fn single_flight(entries: Seq<WatchEntry>) -> bool {
    forall|i: int, j: int|
        0 <= i < entries.len() && 0 <= j < entries.len() && i != j
            && (#[trigger] entries[i]).status is InFlight && (#[trigger] entries[j]).status
            is InFlight ==> !entries[i].pair.spec_same_instrument(entries[j].pair)
}

/// Whether an execution of `pair` is in flight.
pub open spec fn instrument_in_flight(entries: Seq<WatchEntry>, pair: TokenPair) -> bool {
    exists|k: int|
        0 <= k < entries.len() && (#[trigger] entries[k]).status is InFlight
            && entries[k].pair.spec_same_instrument(pair)
}

/// Whether an execution of the entry at `index` may be triggered: the entry
/// exists, is ready, and nothing of its instrument is in flight.
pub open spec fn spec_can_trigger(entries: Seq<WatchEntry>, index: int) -> bool {
    &&& 0 <= index < entries.len()
    &&& entries[index].status is Ready
    &&& !instrument_in_flight(entries, entries[index].pair)
}

/// The watch-list after a trigger at `index`: that entry in flight where it
/// may be triggered, nothing changed where it may not.
pub open spec fn spec_trigger(entries: Seq<WatchEntry>, index: int) -> Seq<WatchEntry> {
    if spec_can_trigger(entries, index) {
        entries.update(index, WatchEntry { status: PairStatus::InFlight, ..entries[index] })
    } else {
        entries
    }
}

/// The watch-list after the execution at `index` has ended with `outcome`.
pub open spec fn spec_complete(
    entries: Seq<WatchEntry>,
    index: int,
    outcome: ExecutionOutcome,
) -> Seq<WatchEntry> {
    if 0 <= index < entries.len() && entries[index].status is InFlight {
        entries.update(
            index,
            WatchEntry {
                status: PairStatus::Settled,
                last_outcome: Some(outcome),
                ..entries[index]
            },
        )
    } else {
        entries
    }
}

/// An entry at the start of a tick: what had settled is ready again.
pub open spec fn spec_refreshed(entry: WatchEntry) -> WatchEntry {
    if entry.status is Settled {
        WatchEntry { status: PairStatus::Ready, ..entry }
    } else {
        entry
    }
}

/// The watch-list at the start of a tick.
pub open spec fn spec_begin_tick(entries: Seq<WatchEntry>) -> Seq<WatchEntry> {
    entries.map_values(|entry: WatchEntry| spec_refreshed(entry))
}

/// Whether `after` is `before` with one entry more: the pair of the two
/// addresses as the ledger's parser reads them, with the given amounts, ready
/// and without an outcome.
pub open spec fn spec_registered(
    before: Seq<WatchEntry>,
    after: Seq<WatchEntry>,
    token_a: Seq<char>,
    token_b: Seq<char>,
    amount: u64,
    loan_amount: u64,
) -> bool {
    &&& after.len() == before.len() + 1
    &&& after.drop_last() == before
    &&& address_bytes(token_a) == Some(after.last().pair.input_asset@)
    &&& address_bytes(token_b) == Some(after.last().pair.output_asset@)
    &&& after.last().pair.trade_amount == amount
    &&& after.last().pair.loan_amount == loan_amount
    &&& after.last().status is Ready
    &&& after.last().last_outcome is None
}

/// The polling monitor's state: the watch-list and the fee model by which it decides.
pub struct ArbitrageMonitor {
    entries: Vec<WatchEntry>,
    fees: FeeModel,
}

impl ArbitrageMonitor {
    /// The watch-list.
    pub closed spec fn entries(&self) -> Seq<WatchEntry> {
        self.entries@
    }

    /// The fee model by which the monitor decides.
    pub closed spec fn fees(&self) -> FeeModel {
        self.fees
    }

    /// What holds of every monitor: no instrument is in flight twice, and all
    /// registered amounts are positive.
    pub open spec fn wf(&self) -> bool {
        &&& single_flight(self.entries())
        &&& forall|i: int|
            0 <= i < self.entries().len() ==> (#[trigger] self.entries()[i]).pair.wf()
    }

    /// The fee model of a new monitor: the default rates, with the monitor's
    /// own estimate of the execution cost.
    pub open spec fn spec_default_fees() -> FeeModel {
        FeeModel {
            loan_fee_bps: DEFAULT_LOAN_FEE_BPS,
            venue_a_fee_bps: DEFAULT_ROUTED_FEE_BPS,
            venue_b_fee_bps: DEFAULT_POOL_FEE_BPS,
            conversion_fee_bps: DEFAULT_CONVERSION_FEE_BPS,
            gas_estimate: DEFAULT_MONITOR_GAS_ESTIMATE,
        }
    }

    /// Creates a monitor with an empty watch-list and the default fee model.
    pub fn new() -> (monitor: ArbitrageMonitor)
        ensures
            monitor.wf(),
            monitor.entries() == Seq::<WatchEntry>::empty(),
            monitor.fees() == ArbitrageMonitor::spec_default_fees(),
    {
        ArbitrageMonitor {
            entries: Vec::new(),
            fees: FeeModel {
                loan_fee_bps: DEFAULT_LOAN_FEE_BPS,
                venue_a_fee_bps: DEFAULT_ROUTED_FEE_BPS,
                venue_b_fee_bps: DEFAULT_POOL_FEE_BPS,
                conversion_fee_bps: DEFAULT_CONVERSION_FEE_BPS,
                gas_estimate: DEFAULT_MONITOR_GAS_ESTIMATE,
            },
        }
    }

    /// Returns the number of watched pairs.
    pub fn len(&self) -> (count: usize)
        ensures
            count == self.entries().len(),
    {
        self.entries.len()
    }

    /// Returns the entry at `index`, if there is one.
    pub fn entry(&self, index: usize) -> (entry: Option<WatchEntry>)
        ensures
            entry == if index < self.entries().len() {
                Some(self.entries()[index as int])
            } else {
                None
            },
    {
        if index < self.entries.len() {
            Some(self.entries[index])
        } else {
            None
        }
    }

    /// Returns the fee model by which the monitor decides.
    pub fn fee_model(&self) -> (fees: FeeModel)
        ensures
            fees == self.fees(),
    {
        self.fees
    }

    /// Replaces the estimate of the execution cost. The estimate is added to
    /// fees taken on the traded amount, so it is given in the unit of that amount.
    pub fn set_gas_estimate(&mut self, gas_estimate: u64)
        requires
            old(self).wf(),
        ensures
            final(self).wf(),
            final(self).entries() == old(self).entries(),
            final(self).fees() == (FeeModel { gas_estimate, ..old(self).fees() }),
    {
        self.fees.gas_estimate = gas_estimate;
    }

    /// Appends a pair to the watch-list, ready to be triggered.
    pub fn add_pair(&mut self, pair: TokenPair)
        requires
            old(self).wf(),
            pair.wf(),
        ensures
            final(self).wf(),
            final(self).fees() == old(self).fees(),
            final(self).entries() == old(self).entries().push(
                WatchEntry { pair, status: PairStatus::Ready, last_outcome: None },
            ),
    {
        self.entries.push(WatchEntry { pair, status: PairStatus::Ready, last_outcome: None });
    }

    /// Registers the pair of the two addresses with its trade and loan amounts.
    ///
    /// Both addresses must parse and both amounts must be positive;
    /// [`ArbitrageMonitor::try_add_token_pair`] tests that first.
    pub fn add_token_pair(&mut self, token_a: &str, token_b: &str, amount: u64, loan_amount: u64)
        requires
            old(self).wf(),
            address_bytes(token_a@) is Some,
            address_bytes(token_b@) is Some,
            amount > 0,
            loan_amount > 0,
        ensures
            final(self).wf(),
            final(self).fees() == old(self).fees(),
            spec_registered(
                old(self).entries(),
                final(self).entries(),
                token_a@,
                token_b@,
                amount,
                loan_amount,
            ),
    {
        let input_asset: AssetId = AssetId::parse(token_a).unwrap();
        let output_asset: AssetId = AssetId::parse(token_b).unwrap();
        self.add_pair(TokenPair { input_asset, output_asset, trade_amount: amount, loan_amount });
        assert(self.entries().drop_last() =~= old(self).entries());
    }

    /// Registers the pair of the two addresses if both parse and both amounts
    /// are positive, and says why not otherwise, leaving the watch-list as it was.
    pub fn try_add_token_pair(
        &mut self,
        token_a: &str,
        token_b: &str,
        amount: u64,
        loan_amount: u64,
    ) -> (result: Result<(), MonitorError>)
        requires
            old(self).wf(),
        ensures
            final(self).wf(),
            final(self).fees() == old(self).fees(),
            result == if address_bytes(token_a@) is None {
                Err::<(), MonitorError>(MonitorError::InvalidTokenA)
            } else if address_bytes(token_b@) is None {
                Err(MonitorError::InvalidTokenB)
            } else if amount == 0 || loan_amount == 0 {
                Err(MonitorError::ZeroAmount)
            } else {
                Ok(())
            },
            result is Err ==> final(self).entries() == old(self).entries(),
            result is Ok ==> spec_registered(
                old(self).entries(),
                final(self).entries(),
                token_a@,
                token_b@,
                amount,
                loan_amount,
            ),
    {
        if AssetId::parse(token_a).is_none() {
            return Err(MonitorError::InvalidTokenA);
        }
        if AssetId::parse(token_b).is_none() {
            return Err(MonitorError::InvalidTokenB);
        }
        if amount == 0 || loan_amount == 0 {
            return Err(MonitorError::ZeroAmount);
        }
        self.add_token_pair(token_a, token_b, amount, loan_amount);
        Ok(())
    }

    /// Tells whether an execution of the entry at `index` may be triggered.
    pub fn can_trigger(&self, index: usize) -> (allowed: bool)
        ensures
            allowed == spec_can_trigger(self.entries(), index as int),
    {
        if index >= self.entries.len() {
            return false;
        }
        let wanted: WatchEntry = self.entries[index];
        match wanted.status {
            PairStatus::Ready => {},
            _ => {
                return false;
            },
        }
        let mut at: usize = 0;
        while at < self.entries.len()
            invariant
                at <= self.entries@.len(),
                index < self.entries@.len(),
                wanted == self.entries@[index as int],
                forall|k: int|
                    0 <= k < at ==> !((#[trigger] self.entries@[k]).status is InFlight
                        && self.entries@[k].pair.spec_same_instrument(wanted.pair)),
            decreases self.entries@.len() - at,
        {
            let other: WatchEntry = self.entries[at];
            let flying: bool = match other.status {
                PairStatus::InFlight => true,
                _ => false,
            };
            if flying && other.pair.same_instrument(&wanted.pair) {
                return false;
            }
            at += 1;
        }
        true
    }

    /// The data of the price check for the entry at `index`, or `None` where
    /// the entry is skipped in this tick: it does not exist, is in flight or
    /// has settled, or its instrument is in flight elsewhere.
    pub fn price_check_data(&self, index: usize) -> (data: Option<Vec<u8>>)
        ensures
            match data {
                Some(bytes) => spec_can_trigger(self.entries(), index as int) && bytes@
                    == spec_instruction_data(
                    PRICE_CHECK_SELECTOR,
                    self.entries()[index as int].pair.trade_amount,
                ),
                None => !spec_can_trigger(self.entries(), index as int),
            },
    {
        if self.can_trigger(index) {
            Some(instruction_data(PRICE_CHECK_SELECTOR, self.entries[index].pair.trade_amount))
        } else {
            None
        }
    }

    /// The decision on the entry at `index` for two prices that a price check returned.
    pub open spec fn spec_assess(&self, index: int, prices: Result<(u64, u64), MonitorError>) -> Result<
        bool,
        MonitorError,
    > {
        if !(0 <= index < self.entries().len()) {
            Err(MonitorError::UnknownPair)
        } else {
            match prices {
                Ok((price_a, price_b)) => Ok(
                    spec_is_profitable(
                        price_a,
                        price_b,
                        self.entries()[index].pair.trade_amount,
                        self.fees(),
                    ),
                ),
                Err(error) => Err(error),
            }
        }
    }

    /// Decides on the entry at `index` from the buffer that its price check returned.
    pub fn assess(&self, index: usize, data: &[u8]) -> (result: Result<bool, MonitorError>)
        ensures
            result == self.spec_assess(index as int, spec_prices_of(Some(data@))),
    {
        if index >= self.entries.len() {
            return Err(MonitorError::UnknownPair);
        }
        match prices_from_bytes(data) {
            Ok((price_a, price_b)) => Ok(
                is_profitable(price_a, price_b, self.entries[index].pair.trade_amount, &self.fees),
            ),
            Err(error) => Err(error),
        }
    }

    /// Decides on the entry at `index` from the text that the simulation of
    /// its price check returned.
    pub fn check_arbitrage_opportunity(&self, index: usize, return_data: Option<&str>) -> (result:
        Result<bool, MonitorError>)
        ensures
            result == self.spec_assess(
                index as int,
                match return_data {
                    None => Err(MonitorError::NoReturnData),
                    Some(text) => spec_prices_of(base64_decoded(text@)),
                },
            ),
    {
        if index >= self.entries.len() {
            return Err(MonitorError::UnknownPair);
        }
        let text: &str = match return_data {
            Some(text) => text,
            None => {
                return Err(MonitorError::NoReturnData);
            },
        };
        match base64_decode(text) {
            Ok(data) => self.assess(index, data.as_slice()),
            Err(_) => Err(MonitorError::InvalidEncoding),
        }
    }

    /// Triggers an execution of the entry at `index`, unless one of its
    /// instrument is in flight or the entry has settled in this tick.
    ///
    /// Returns the data of the execution instruction where the execution is
    /// triggered, and `None`, with nothing changed, where it is not.
    pub fn trigger(&mut self, index: usize) -> (data: Option<Vec<u8>>)
        requires
            old(self).wf(),
        ensures
            final(self).wf(),
            final(self).fees() == old(self).fees(),
            final(self).entries() == spec_trigger(old(self).entries(), index as int),
            match data {
                Some(bytes) => spec_can_trigger(old(self).entries(), index as int) && bytes@
                    == spec_instruction_data(
                    EXECUTE_SELECTOR,
                    old(self).entries()[index as int].pair.loan_amount,
                ),
                None => !spec_can_trigger(old(self).entries(), index as int),
            },
    {
        if !self.can_trigger(index) {
            return None;
        }
        proof {
            lemma_trigger_keeps_single_flight(self.entries@, index as int);
        }
        let entry: WatchEntry = self.entries[index];
        self.entries.set(index, WatchEntry { status: PairStatus::InFlight, ..entry });
        Some(instruction_data(EXECUTE_SELECTOR, entry.pair.loan_amount))
    }

    /// The monitor's move after a price check: an execution of the entry at
    /// `index` is triggered where the returned prices make the round
    /// profitable and the entry may be triggered; in every other case,
    /// unreadable data included, the entry is passed over and nothing changes.
    pub fn on_price_check(&mut self, index: usize, return_data: Option<&str>) -> (data: Option<
        Vec<u8>,
    >)
        requires
            old(self).wf(),
        ensures
            final(self).wf(),
            final(self).fees() == old(self).fees(),
            ({
                let decision = old(self).spec_assess(
                    index as int,
                    match return_data {
                        None => Err(MonitorError::NoReturnData),
                        Some(text) => spec_prices_of(base64_decoded(text@)),
                    },
                );
                let go = decision == Ok::<bool, MonitorError>(true) && spec_can_trigger(
                    old(self).entries(),
                    index as int,
                );
                &&& data is Some <==> go
                &&& go ==> final(self).entries() == spec_trigger(old(self).entries(), index as int)
                &&& go ==> data.unwrap()@ == spec_instruction_data(
                    EXECUTE_SELECTOR,
                    old(self).entries()[index as int].pair.loan_amount,
                )
                &&& !go ==> final(self).entries() == old(self).entries()
            }),
    {
        match self.check_arbitrage_opportunity(index, return_data) {
            Ok(true) => self.trigger(index),
            _ => None,
        }
    }

    /// Records how the execution of the entry at `index` ended and lets the
    /// entry rest until the next tick. Returns whether an execution was in
    /// flight there; where none was, nothing changes.
    pub fn complete(&mut self, index: usize, outcome: ExecutionOutcome) -> (recorded: bool)
        requires
            old(self).wf(),
        ensures
            final(self).wf(),
            final(self).fees() == old(self).fees(),
            final(self).entries() == spec_complete(old(self).entries(), index as int, outcome),
            recorded == (index < old(self).entries().len() && old(self).entries()[index as int].status
                is InFlight),
    {
        if index >= self.entries.len() {
            return false;
        }
        let entry: WatchEntry = self.entries[index];
        match entry.status {
            PairStatus::InFlight => {},
            _ => {
                return false;
            },
        }
        self.entries.set(
            index,
            WatchEntry { status: PairStatus::Settled, last_outcome: Some(outcome), ..entry },
        );
        true
    }

    /// Starts a tick: every entry that had settled is ready again; entries in
    /// flight stay in flight.
    pub fn begin_tick(&mut self)
        requires
            old(self).wf(),
        ensures
            final(self).wf(),
            final(self).fees() == old(self).fees(),
            final(self).entries() == spec_begin_tick(old(self).entries()),
    {
        let ghost before = self.entries@;
        let mut at: usize = 0;
        while at < self.entries.len()
            invariant
                at <= self.entries@.len(),
                self.entries@.len() == before.len(),
                self.fees == old(self).fees,
                forall|k: int| 0 <= k < at ==> self.entries@[k] == spec_refreshed(before[k]),
                forall|k: int| at <= k < before.len() ==> self.entries@[k] == before[k],
                single_flight(before),
                forall|i: int| 0 <= i < before.len() ==> (#[trigger] before[i]).pair.wf(),
            decreases self.entries@.len() - at,
        {
            let entry: WatchEntry = self.entries[at];
            let settled: bool = match entry.status {
                PairStatus::Settled => true,
                _ => false,
            };
            if settled {
                self.entries.set(at, WatchEntry { status: PairStatus::Ready, ..entry });
            }
            at += 1;
        }
        assert(self.entries@ =~= spec_begin_tick(before));
    }
}

/// A trigger keeps the rule that no instrument is in flight twice.
pub proof fn lemma_trigger_keeps_single_flight(entries: Seq<WatchEntry>, index: int)
    requires
        single_flight(entries),
    ensures
        single_flight(spec_trigger(entries, index)),
{
    if spec_can_trigger(entries, index) {
        let after = spec_trigger(entries, index);
        assert forall|i: int, j: int|
            0 <= i < after.len() && 0 <= j < after.len() && i != j && (#[trigger] after[i]).status
                is InFlight && (#[trigger] after[j]).status is InFlight implies !after[i].pair.spec_same_instrument(
            after[j].pair,
        ) by {
            if i == index {
                assert(entries[j].status is InFlight);
            } else if j == index {
                assert(entries[i].status is InFlight);
            } else {
                assert(entries[i].status is InFlight && entries[j].status is InFlight);
            }
        }
    }
}

/// No retry within a tick: an entry whose execution has ended cannot be
/// triggered again until the next tick begins, and can be then unless its
/// instrument is in flight at another place.
pub proof fn lemma_settled_rests_until_next_tick(
    entries: Seq<WatchEntry>,
    index: int,
    outcome: ExecutionOutcome,
)
    requires
        0 <= index < entries.len(),
        entries[index].status is InFlight,
    ensures
        ({
            let settled = spec_complete(entries, index, outcome);
            &&& settled[index].last_outcome == Some(outcome)
            &&& !spec_can_trigger(settled, index)
            &&& spec_begin_tick(settled)[index].status is Ready
            &&& spec_begin_tick(settled)[index].last_outcome == Some(outcome)
        }),
{
}

/// Single flight: once an execution of an instrument has been triggered, a
/// second trigger for the same instrument, at the same or at another place of
/// the watch-list, is refused and changes nothing, and exactly one entry of
/// that instrument is in flight.
pub proof fn lemma_second_trigger_is_refused(entries: Seq<WatchEntry>, first: int, second: int)
    requires
        single_flight(entries),
        spec_can_trigger(entries, first),
        0 <= second < entries.len(),
        entries[second].pair.spec_same_instrument(entries[first].pair),
    ensures
        ({
            let after = spec_trigger(entries, first);
            &&& after[first].status is InFlight
            &&& !spec_can_trigger(after, second)
            &&& spec_trigger(after, second) == after
            &&& forall|k: int|
                0 <= k < after.len() && (#[trigger] after[k]).status is InFlight
                    && after[k].pair.spec_same_instrument(entries[first].pair) ==> k == first
        }),
{
    let after = spec_trigger(entries, first);
    assert(after[first].status is InFlight && after[first].pair.spec_same_instrument(
        after[second].pair,
    ));
    assert forall|k: int|
        0 <= k < after.len() && (#[trigger] after[k]).status is InFlight
            && after[k].pair.spec_same_instrument(entries[first].pair) implies k == first by {
        if k != first {
            assert(entries[k].status is InFlight);
        }
    }
}

} // verus!
