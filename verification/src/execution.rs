//! The atomic execution as a state machine: borrow, convert, swap, swap,
//! convert back, repay, hand over the profit.
//!
//! The machine decides; its driver acts. Each [`Action`] names one request to
//! the outside (the loan venue, a liquidity venue, the token program), and the
//! driver answers it with one [`Event`]. The ledger commits the whole sequence
//! or none of it, so a reverted execution leaves nothing behind.

use crate::asset::AssetId;
use crate::error::ErrorCode;
use crate::evaluator::{Direction, TokenPair};
use crate::quote::{
    hop_min_output, spec_hop_min_output, spec_kept_bps, spec_routed_min_output, VenueId, VenueKind,
};
use vstd::prelude::*;

verus! {

/// Why an execution did not commit.
#[derive(Clone, Copy, Debug, PartialEq, Eq, Structural)]
pub enum FailureKind {
    /// The program abandoned the execution with this code.
    Program(ErrorCode),
    /// The network or the ledger could not be reached in time; the next tick may try again.
    Transient,
}

/// How one triggered execution ended.
#[derive(Clone, Copy, Debug, PartialEq, Eq, Structural)]
pub struct ExecutionOutcome {
    /// Whether the sequence committed.
    pub success: bool,
    /// What was left after the repayment; zero for a failure.
    pub realized_profit: u64,
    /// Why the sequence reverted; `None` for a success.
    pub failure_kind: Option<FailureKind>,
}

impl ExecutionOutcome {
    /// The outcome of a sequence that committed with `realized_profit` left.
    pub fn committed(realized_profit: u64) -> (outcome: ExecutionOutcome)
        ensures
            outcome == (ExecutionOutcome { success: true, realized_profit, failure_kind: None }),
    {
        ExecutionOutcome { success: true, realized_profit, failure_kind: None }
    }

    /// The outcome of a sequence that reverted for `reason`.
    pub fn reverted(reason: FailureKind) -> (outcome: ExecutionOutcome)
        ensures
            outcome == (ExecutionOutcome {
                success: false,
                realized_profit: 0,
                failure_kind: Some(reason),
            }),
    {
        ExecutionOutcome { success: false, realized_profit: 0, failure_kind: Some(reason) }
    }
}

/// How far an execution has come.
#[derive(Clone, Copy, Debug, PartialEq, Eq, Structural)]
pub enum ExecutionState {
    /// Nothing has been borrowed yet.
    Idle,
    /// The loan has arrived.
    Borrowed,
    /// The traded asset is in hand.
    FirstSwapped,
    /// Both legs are done.
    SecondSwapped,
    /// The loan and its fee are paid back.
    Repaid,
    /// The sequence has committed.
    ProfitTransferred,
    /// The sequence has been abandoned; nothing of it persists.
    Reverted,
}

/// The request whose answer the execution is waiting for, or how it ended.
#[derive(Clone, Copy, Debug, PartialEq, Eq, Structural)]
pub enum Stage {
    /// Waiting for the loan.
    Loan,
    /// Waiting for the conversion of the loan into the traded asset.
    ConversionIn,
    /// Waiting for the first leg.
    FirstLeg,
    /// Waiting for the second leg.
    SecondLeg,
    /// Waiting for the conversion of the proceeds into the settlement asset.
    ConversionOut,
    /// Waiting for the repayment to be acknowledged.
    Repayment,
    /// Waiting for the profit transfer to be acknowledged.
    ProfitTransfer,
    /// Committed.
    Committed,
    /// Abandoned.
    Reverted {
        /// Why.
        reason: FailureKind,
    },
}

impl Stage {
    /// The state that the stage belongs to.
    pub open spec fn spec_state(self) -> ExecutionState {
        match self {
            Stage::Loan => ExecutionState::Idle,
            Stage::ConversionIn => ExecutionState::Borrowed,
            Stage::FirstLeg => ExecutionState::FirstSwapped,
            Stage::SecondLeg => ExecutionState::FirstSwapped,
            Stage::ConversionOut => ExecutionState::SecondSwapped,
            Stage::Repayment => ExecutionState::SecondSwapped,
            Stage::ProfitTransfer => ExecutionState::Repaid,
            Stage::Committed => ExecutionState::ProfitTransferred,
            Stage::Reverted { .. } => ExecutionState::Reverted,
        }
    }

    /// Whether the execution has ended.
    pub open spec fn spec_is_terminal(self) -> bool {
        self is Committed || self is Reverted
    }

    /// Returns the state that the stage belongs to.
    pub fn state(&self) -> (state: ExecutionState)
        ensures
            state == self.spec_state(),
    {
        match self {
            Stage::Loan => ExecutionState::Idle,
            Stage::ConversionIn => ExecutionState::Borrowed,
            Stage::FirstLeg => ExecutionState::FirstSwapped,
            Stage::SecondLeg => ExecutionState::FirstSwapped,
            Stage::ConversionOut => ExecutionState::SecondSwapped,
            Stage::Repayment => ExecutionState::SecondSwapped,
            Stage::ProfitTransfer => ExecutionState::Repaid,
            Stage::Committed => ExecutionState::ProfitTransferred,
            Stage::Reverted { .. } => ExecutionState::Reverted,
        }
    }

    /// Tells whether the execution has ended.
    pub fn is_terminal(&self) -> (terminal: bool)
        ensures
            terminal == self.spec_is_terminal(),
    {
        match self {
            Stage::Committed => true,
            Stage::Reverted { .. } => true,
            _ => false,
        }
    }
}

/// One request to the outside, or the end of the sequence.
#[derive(Clone, Copy, Debug, PartialEq, Eq)]
pub enum Action {
    /// Borrow `amount` of `asset` from the loan venue.
    Borrow { asset: AssetId, amount: u64 },
    /// Convert `amount` through the routing service, which is told the
    /// slippage it may accept; less than `min_output` coming back reverts.
    Convert {
        input_asset: AssetId,
        output_asset: AssetId,
        amount: u64,
        min_output: u64,
        slippage_bps: u64,
    },
    /// Swap `amount` on one of the pair's venues. A pool is told `min_output`,
    /// a routed venue the slippage it may accept; less than `min_output`
    /// coming back reverts.
    Swap {
        venue: VenueId,
        input_asset: AssetId,
        output_asset: AssetId,
        amount: u64,
        min_output: u64,
        slippage_bps: u64,
    },
    /// Pay `amount` of `asset` back to the loan venue.
    Repay { asset: AssetId, amount: u64 },
    /// Move `amount` of `asset` to the profit destination.
    TransferProfit { asset: AssetId, amount: u64 },
    /// Let the ledger commit the sequence.
    Commit { realized_profit: u64 },
    /// Let the ledger drop the sequence.
    Abort { reason: FailureKind },
}

impl Action {
    /// Whether the action asks anything of the loan venue, a liquidity venue
    /// or the token program.
    pub open spec fn spec_is_outside_call(self) -> bool {
        !(self is Commit || self is Abort)
    }

    /// Tells whether the action asks anything of the outside.
    pub fn is_outside_call(&self) -> (outside: bool)
        ensures
            outside == self.spec_is_outside_call(),
    {
        match self {
            Action::Commit { .. } => false,
            Action::Abort { .. } => false,
            _ => true,
        }
    }
}

/// The answer to the outstanding request.
#[derive(Clone, Copy, Debug, PartialEq, Eq, Structural)]
pub enum Event {
    /// The request was served. For a loan the amount is what was lent, for a
    /// conversion or a swap what came out; for an acknowledgement it is not read.
    Completed { amount: u64 },
    /// The request failed.
    Failed { reason: FailureKind },
}

/// What is fixed when an execution starts.
#[derive(Clone, Copy, Debug, PartialEq, Eq)]
pub struct Plan {
    /// The instrument.
    pub pair: TokenPair,
    /// The asset in which the loan is taken and paid back.
    pub settlement_asset: AssetId,
    /// The order of the venues.
    pub direction: Direction,
    /// Whether the loan has to be converted into the traded asset and back.
    pub converts: bool,
    /// The capital borrowed.
    pub loan_amount: u64,
    /// The fee of the loan.
    pub loan_fee: u64,
    /// What has to be paid back: the loan and its fee.
    pub repayment_due: u64,
    /// The kind of the venue of the first leg.
    pub first_leg_kind: VenueKind,
    /// Slippage bound of the first leg, in basis points.
    pub first_leg_slippage_bps: u64,
    /// The kind of the venue of the second leg.
    pub second_leg_kind: VenueKind,
    /// Slippage bound of the second leg, in basis points.
    pub second_leg_slippage_bps: u64,
    /// Slippage bound of a conversion hop, in basis points.
    pub conversion_slippage_bps: u64,
}

impl Plan {
    /// Whether what is due is the loan and its fee.
    pub open spec fn wf(self) -> bool {
        self.repayment_due == self.loan_amount + self.loan_fee
    }
}

/// One execution under way.
#[derive(Clone, Copy, Debug, PartialEq, Eq)]
pub struct Execution {
    /// What was fixed at the start.
    pub plan: Plan,
    /// What the execution is waiting for.
    pub stage: Stage,
    /// The amount in hand, of whichever asset is held.
    pub balance: u64,
    /// The least output that the outstanding conversion or swap may return.
    pub min_output: u64,
    /// The amount in hand when the repayment was requested.
    pub final_balance: u64,
    /// What was paid back.
    pub repaid_amount: u64,
    /// What was left after the repayment.
    pub realized_profit: u64,
}

impl Execution {
    /// The execution abandoned for `reason`, and the action that tells the ledger so.
    pub open spec fn spec_revert(self, reason: FailureKind) -> (Execution, Action) {
        (
            Execution {
                stage: Stage::Reverted { reason },
                repaid_amount: 0,
                realized_profit: 0,
                ..self
            },
            Action::Abort { reason },
        )
    }

    /// The request for a hop of `amount` under `slippage_bps` through a venue
    /// of the given kind, which puts the execution into `stage`. A conversion
    /// names no venue. A routed hop always has a bound; a pool hop whose
    /// bound cannot be computed reverts with `CalculationError`.
    pub open spec fn spec_request_hop(
        self,
        stage: Stage,
        amount: u64,
        kind: VenueKind,
        slippage_bps: u64,
        venue: Option<VenueId>,
        input_asset: AssetId,
        output_asset: AssetId,
    ) -> (Execution, Action) {
        match spec_hop_min_output(kind, amount, slippage_bps) {
            Some(least) => (
                Execution { stage, balance: amount, min_output: least, ..self },
                match venue {
                    Some(id) => Action::Swap {
                        venue: id,
                        input_asset,
                        output_asset,
                        amount,
                        min_output: least,
                        slippage_bps,
                    },
                    None => Action::Convert {
                        input_asset,
                        output_asset,
                        amount,
                        min_output: least,
                        slippage_bps,
                    },
                },
            ),
            None => self.spec_revert(FailureKind::Program(ErrorCode::CalculationError)),
        }
    }

    /// The conversion of `amount` of the settlement asset into the traded asset.
    pub open spec fn spec_enter_conversion_in(self, amount: u64) -> (Execution, Action) {
        self.spec_request_hop(
            Stage::ConversionIn,
            amount,
            VenueKind::Routed,
            self.plan.conversion_slippage_bps,
            None,
            self.plan.settlement_asset,
            self.plan.pair.input_asset,
        )
    }

    /// The first leg on the venue with the lower price.
    pub open spec fn spec_enter_first_leg(self, amount: u64) -> (Execution, Action) {
        self.spec_request_hop(
            Stage::FirstLeg,
            amount,
            self.plan.first_leg_kind,
            self.plan.first_leg_slippage_bps,
            Some(self.plan.direction.spec_first_venue()),
            self.plan.pair.input_asset,
            self.plan.pair.output_asset,
        )
    }

    /// The second leg on the venue with the higher price, back to the traded asset.
    pub open spec fn spec_enter_second_leg(self, amount: u64) -> (Execution, Action) {
        self.spec_request_hop(
            Stage::SecondLeg,
            amount,
            self.plan.second_leg_kind,
            self.plan.second_leg_slippage_bps,
            Some(self.plan.direction.spec_second_venue()),
            self.plan.pair.output_asset,
            self.plan.pair.input_asset,
        )
    }

    /// The conversion of the proceeds back into the settlement asset.
    pub open spec fn spec_enter_conversion_out(self, amount: u64) -> (Execution, Action) {
        self.spec_request_hop(
            Stage::ConversionOut,
            amount,
            VenueKind::Routed,
            self.plan.conversion_slippage_bps,
            None,
            self.plan.pair.input_asset,
            self.plan.settlement_asset,
        )
    }

    /// The repayment out of `amount` in hand: requested where the amount
    /// covers what is due, reverted for want of profit where it does not.
    pub open spec fn spec_enter_repayment(self, amount: u64) -> (Execution, Action) {
        if amount < self.plan.repayment_due {
            self.spec_revert(FailureKind::Program(ErrorCode::InsufficientProfit))
        } else {
            (
                Execution {
                    stage: Stage::Repayment,
                    balance: amount,
                    final_balance: amount,
                    ..self
                },
                Action::Repay {
                    asset: self.plan.settlement_asset,
                    amount: self.plan.repayment_due,
                },
            )
        }
    }

    /// What follows the repayment: the rest is the profit; a positive profit
    /// is handed over, a zero profit commits at once.
    pub open spec fn spec_settle(self) -> (Execution, Action) {
        if self.final_balance < self.plan.repayment_due {
            self.spec_revert(FailureKind::Program(ErrorCode::CalculationError))
        } else {
            let profit = (self.final_balance - self.plan.repayment_due) as u64;
            if profit > 0 {
                (
                    Execution {
                        stage: Stage::ProfitTransfer,
                        balance: profit,
                        repaid_amount: self.plan.repayment_due,
                        realized_profit: profit,
                        ..self
                    },
                    Action::TransferProfit { asset: self.plan.settlement_asset, amount: profit },
                )
            } else {
                (
                    Execution {
                        stage: Stage::Committed,
                        balance: 0,
                        repaid_amount: self.plan.repayment_due,
                        realized_profit: 0,
                        ..self
                    },
                    Action::Commit { realized_profit: 0 },
                )
            }
        }
    }

    /// What follows a conversion or a swap that returned `amount`.
    pub open spec fn spec_after_hop(self, amount: u64) -> (Execution, Action) {
        if amount < self.min_output {
            self.spec_revert(FailureKind::Program(ErrorCode::SlippageExceeded))
        } else {
            match self.stage {
                Stage::ConversionIn => self.spec_enter_first_leg(amount),
                Stage::FirstLeg => self.spec_enter_second_leg(amount),
                Stage::SecondLeg => if self.plan.converts {
                    self.spec_enter_conversion_out(amount)
                } else {
                    self.spec_enter_repayment(amount)
                },
                _ => self.spec_enter_repayment(amount),
            }
        }
    }

    /// The transition: the execution after `event`, and the next action.
    ///
    /// An ended execution stays as it is and repeats its last word. A failed
    /// repayment reverts with `InsufficientProfit`, any other failed request
    /// with the reason given. A loan that is not the amount asked for reverts
    /// with `InvalidTokenAccount`; a hop that returns less than its bound
    /// reverts with `SlippageExceeded`; proceeds below what is due revert
    /// with `InsufficientProfit` before any repayment is asked for.
    pub open spec fn spec_step(self, event: Event) -> (Execution, Action) {
        match self.stage {
            Stage::Committed => (self, Action::Commit { realized_profit: self.realized_profit }),
            Stage::Reverted { reason } => (self, Action::Abort { reason }),
            _ => match event {
                Event::Failed { reason } => if self.stage is Repayment {
                    self.spec_revert(FailureKind::Program(ErrorCode::InsufficientProfit))
                } else {
                    self.spec_revert(reason)
                },
                Event::Completed { amount } => match self.stage {
                    Stage::Loan => if amount != self.plan.loan_amount {
                        self.spec_revert(FailureKind::Program(ErrorCode::InvalidTokenAccount))
                    } else if self.plan.converts {
                        self.spec_enter_conversion_in(amount)
                    } else {
                        self.spec_enter_first_leg(amount)
                    },
                    Stage::Repayment => self.spec_settle(),
                    Stage::ProfitTransfer => (
                        Execution { stage: Stage::Committed, balance: 0, ..self },
                        Action::Commit { realized_profit: self.realized_profit },
                    ),
                    _ => self.spec_after_hop(amount),
                },
            },
        }
    }

    /// What holds of every execution that was started and stepped: what is
    /// due is the loan and its fee; nothing counts as repaid before the
    /// repayment is acknowledged, and then exactly what is due; the profit is
    /// what the final balance leaves after the repayment.
    pub open spec fn inv(self) -> bool {
        &&& self.plan.wf()
        &&& match self.stage {
            Stage::Repayment => {
                &&& self.final_balance >= self.plan.repayment_due
                &&& self.repaid_amount == 0
                &&& self.realized_profit == 0
            },
            Stage::ProfitTransfer => {
                &&& self.repaid_amount == self.plan.repayment_due
                &&& self.final_balance >= self.repaid_amount
                &&& self.realized_profit == self.final_balance - self.repaid_amount
                &&& self.realized_profit > 0
            },
            Stage::Committed => {
                &&& self.repaid_amount == self.plan.repayment_due
                &&& self.final_balance >= self.repaid_amount
                &&& self.realized_profit == self.final_balance - self.repaid_amount
            },
            _ => self.repaid_amount == 0 && self.realized_profit == 0,
        }
    }

    /// The outcome of an ended execution; `None` while it is under way.
    pub open spec fn spec_outcome(self) -> Option<ExecutionOutcome> {
        match self.stage {
            Stage::Committed => Some(
                ExecutionOutcome {
                    success: true,
                    realized_profit: self.realized_profit,
                    failure_kind: None,
                },
            ),
            Stage::Reverted { reason } => Some(
                ExecutionOutcome { success: false, realized_profit: 0, failure_kind: Some(reason) },
            ),
            _ => None,
        }
    }

    /// Returns the state of the execution.
    pub fn state(&self) -> (state: ExecutionState)
        ensures
            state == self.stage.spec_state(),
    {
        self.stage.state()
    }

    /// Returns the outcome of an ended execution, and `None` while it is under way.
    pub fn outcome(&self) -> (outcome: Option<ExecutionOutcome>)
        ensures
            outcome == self.spec_outcome(),
    {
        match self.stage {
            Stage::Committed => Some(ExecutionOutcome::committed(self.realized_profit)),
            Stage::Reverted { reason } => Some(ExecutionOutcome::reverted(reason)),
            _ => None,
        }
    }

    fn revert(&mut self, reason: FailureKind) -> (action: Action)
        ensures
            (*final(self), action) == old(self).spec_revert(reason),
    {
        self.stage = Stage::Reverted { reason };
        self.repaid_amount = 0;
        self.realized_profit = 0;
        Action::Abort { reason }
    }

    fn request_hop(
        &mut self,
        stage: Stage,
        amount: u64,
        kind: VenueKind,
        slippage_bps: u64,
        venue: Option<VenueId>,
        input_asset: AssetId,
        output_asset: AssetId,
    ) -> (action: Action)
        ensures
            (*final(self), action) == old(self).spec_request_hop(
                stage,
                amount,
                kind,
                slippage_bps,
                venue,
                input_asset,
                output_asset,
            ),
    {
        match hop_min_output(kind, amount, slippage_bps) {
            Ok(least) => {
                self.stage = stage;
                self.balance = amount;
                self.min_output = least;
                match venue {
                    Some(id) => Action::Swap {
                        venue: id,
                        input_asset,
                        output_asset,
                        amount,
                        min_output: least,
                        slippage_bps,
                    },
                    None => Action::Convert {
                        input_asset,
                        output_asset,
                        amount,
                        min_output: least,
                        slippage_bps,
                    },
                }
            },
            Err(_) => self.revert(FailureKind::Program(ErrorCode::CalculationError)),
        }
    }

    fn enter_first_leg(&mut self, amount: u64) -> (action: Action)
        ensures
            (*final(self), action) == old(self).spec_enter_first_leg(amount),
    {
        let venue: VenueId = self.plan.direction.first_venue();
        let kind: VenueKind = self.plan.first_leg_kind;
        let slippage_bps: u64 = self.plan.first_leg_slippage_bps;
        let input_asset: AssetId = self.plan.pair.input_asset;
        let output_asset: AssetId = self.plan.pair.output_asset;
        self.request_hop(
            Stage::FirstLeg,
            amount,
            kind,
            slippage_bps,
            Some(venue),
            input_asset,
            output_asset,
        )
    }

    fn enter_repayment(&mut self, amount: u64) -> (action: Action)
        ensures
            (*final(self), action) == old(self).spec_enter_repayment(amount),
    {
        if amount < self.plan.repayment_due {
            self.revert(FailureKind::Program(ErrorCode::InsufficientProfit))
        } else {
            self.stage = Stage::Repayment;
            self.balance = amount;
            self.final_balance = amount;
            Action::Repay { asset: self.plan.settlement_asset, amount: self.plan.repayment_due }
        }
    }

    fn settle(&mut self) -> (action: Action)
        ensures
            (*final(self), action) == old(self).spec_settle(),
    {
        match self.final_balance.checked_sub(self.plan.repayment_due) {
            Some(profit) => {
                self.repaid_amount = self.plan.repayment_due;
                self.realized_profit = profit;
                self.balance = profit;
                if profit > 0 {
                    self.stage = Stage::ProfitTransfer;
                    Action::TransferProfit { asset: self.plan.settlement_asset, amount: profit }
                } else {
                    self.stage = Stage::Committed;
                    Action::Commit { realized_profit: 0 }
                }
            },
            None => self.revert(FailureKind::Program(ErrorCode::CalculationError)),
        }
    }

    fn after_hop(&mut self, amount: u64) -> (action: Action)
        ensures
            (*final(self), action) == old(self).spec_after_hop(amount),
    {
        if amount < self.min_output {
            return self.revert(FailureKind::Program(ErrorCode::SlippageExceeded));
        }
        let slippage_bps: u64 = self.plan.conversion_slippage_bps;
        let traded: AssetId = self.plan.pair.input_asset;
        let held: AssetId = self.plan.pair.output_asset;
        let settlement: AssetId = self.plan.settlement_asset;
        match self.stage {
            Stage::ConversionIn => self.enter_first_leg(amount),
            Stage::FirstLeg => {
                let venue: VenueId = self.plan.direction.second_venue();
                let kind: VenueKind = self.plan.second_leg_kind;
                let bound: u64 = self.plan.second_leg_slippage_bps;
                self.request_hop(Stage::SecondLeg, amount, kind, bound, Some(venue), held, traded)
            },
            Stage::SecondLeg => {
                if self.plan.converts {
                    self.request_hop(
                        Stage::ConversionOut,
                        amount,
                        VenueKind::Routed,
                        slippage_bps,
                        None,
                        traded,
                        settlement,
                    )
                } else {
                    self.enter_repayment(amount)
                }
            },
            _ => self.enter_repayment(amount),
        }
    }

    /// Takes the answer to the outstanding request and returns the next action.
    ///
    /// The driver performs the action and calls again with its answer, until
    /// the action is `Commit` or `Abort`.
    pub fn step(&mut self, event: Event) -> (action: Action)
        ensures
            (*final(self), action) == old(self).spec_step(event),
            old(self).inv() ==> final(self).inv(),
            old(self).stage.spec_is_terminal() ==> *final(self) == *old(self)
                && !action.spec_is_outside_call(),
    {
        proof {
            if self.inv() {
                lemma_step_keeps_inv(*self, event);
            }
        }
        match self.stage {
            Stage::Committed => {
                return Action::Commit { realized_profit: self.realized_profit };
            },
            Stage::Reverted { reason } => {
                return Action::Abort { reason };
            },
            _ => {},
        }
        let amount: u64 = match event {
            Event::Failed { reason } => {
                let repaying: bool = match self.stage {
                    Stage::Repayment => true,
                    _ => false,
                };
                if repaying {
                    return self.revert(FailureKind::Program(ErrorCode::InsufficientProfit));
                }
                return self.revert(reason);
            },
            Event::Completed { amount } => amount,
        };
        match self.stage {
            Stage::Loan => {
                if amount != self.plan.loan_amount {
                    self.revert(FailureKind::Program(ErrorCode::InvalidTokenAccount))
                } else if self.plan.converts {
                    let slippage_bps: u64 = self.plan.conversion_slippage_bps;
                    let settlement: AssetId = self.plan.settlement_asset;
                    let traded: AssetId = self.plan.pair.input_asset;
                    self.request_hop(
                        Stage::ConversionIn,
                        amount,
                        VenueKind::Routed,
                        slippage_bps,
                        None,
                        settlement,
                        traded,
                    )
                } else {
                    self.enter_first_leg(amount)
                }
            },
            Stage::Repayment => self.settle(),
            Stage::ProfitTransfer => {
                self.stage = Stage::Committed;
                self.balance = 0;
                Action::Commit { realized_profit: self.realized_profit }
            },
            _ => self.after_hop(amount),
        }
    }
}

/// A step keeps the invariant of executions.
pub proof fn lemma_step_keeps_inv(execution: Execution, event: Event)
    requires
        execution.inv(),
    ensures
        execution.spec_step(event).0.inv(),
        execution.spec_step(event).0.plan == execution.plan,
{
}

/// A conversion and a hop through a routed venue are requested for every
/// amount and every rate: the request never reverts, names the amount and the
/// rate, and bounds the output by at most the amount.
pub proof fn lemma_routed_hop_is_always_requested(
    execution: Execution,
    stage: Stage,
    amount: u64,
    slippage_bps: u64,
    venue: Option<VenueId>,
    input_asset: AssetId,
    output_asset: AssetId,
)
    ensures
        ({
            let (after, action) = execution.spec_request_hop(
                stage,
                amount,
                VenueKind::Routed,
                slippage_bps,
                venue,
                input_asset,
                output_asset,
            );
            &&& after.stage == stage
            &&& after.balance == amount
            &&& after.min_output == spec_routed_min_output(amount, slippage_bps)
            &&& after.min_output <= amount
            &&& venue matches Some(id) ==> action == (Action::Swap {
                venue: id,
                input_asset,
                output_asset,
                amount,
                min_output: after.min_output,
                slippage_bps,
            })
            &&& venue is None ==> action == (Action::Convert {
                input_asset,
                output_asset,
                amount,
                min_output: after.min_output,
                slippage_bps,
            })
        }),
{
    let kept = spec_kept_bps(slippage_bps);
    assert(0 <= (amount * kept) / 10000 <= amount) by (nonlinear_arith)
        requires
            0 <= kept <= 10000,
            0 <= amount,
    ;
}

/// The place of a state in the order of the sequence.
pub open spec fn state_rank(state: ExecutionState) -> nat {
    match state {
        ExecutionState::Idle => 0,
        ExecutionState::Borrowed => 1,
        ExecutionState::FirstSwapped => 2,
        ExecutionState::SecondSwapped => 3,
        ExecutionState::Repaid => 4,
        ExecutionState::ProfitTransferred => 5,
        ExecutionState::Reverted => 6,
    }
}

/// A step never goes back: the state after it comes no earlier in the
/// sequence than the state before it, and an execution leaves its state only
/// forward or by reverting.
pub proof fn lemma_step_moves_forward(execution: Execution, event: Event)
    ensures
        state_rank(execution.spec_step(event).0.stage.spec_state()) >= state_rank(
            execution.stage.spec_state(),
        ),
{
}

/// The execution after a sequence of answers, and the actions that the
/// answers were given, in order.
pub open spec fn spec_run(start: Execution, events: Seq<Event>) -> (Execution, Seq<Action>)
    decreases events.len(),
{
    if events.len() == 0 {
        (start, Seq::<Action>::empty())
    } else {
        let (before, actions) = spec_run(start, events.drop_last());
        let (after, action) = before.spec_step(events.last());
        (after, actions.push(action))
    }
}

/// Steps an execution through a recorded sequence of answers and returns
/// where it stands, with the action that followed each answer.
pub fn replay(start: Execution, events: &[Event]) -> (result: (Execution, Vec<Action>))
    ensures
        (result.0, result.1@) == spec_run(start, events@),
        start.inv() ==> result.0.inv(),
{
    let mut execution: Execution = start;
    let mut actions: Vec<Action> = Vec::new();
    let mut index: usize = 0;
    while index < events.len()
        invariant
            index <= events@.len(),
            (execution, actions@) == spec_run(start, events@.take(index as int)),
            start.inv() ==> execution.inv(),
        decreases events@.len() - index,
    {
        let event: Event = events[index];
        let action: Action = execution.step(event);
        actions.push(action);
        proof {
            let longer = events@.take(index + 1);
            assert(longer.drop_last() =~= events@.take(index as int));
            assert(longer.last() == event);
        }
        index += 1;
    }
    assert(events@.take(index as int) =~= events@);
    (execution, actions)
}

/// Every run keeps the plan and the invariant, and answers each event with
/// one action.
pub proof fn lemma_run_keeps_inv(start: Execution, events: Seq<Event>)
    requires
        start.inv(),
    ensures
        spec_run(start, events).0.inv(),
        spec_run(start, events).0.plan == start.plan,
        spec_run(start, events).1.len() == events.len(),
    decreases events.len(),
{
    if events.len() > 0 {
        lemma_run_keeps_inv(start, events.drop_last());
        lemma_step_keeps_inv(spec_run(start, events.drop_last()).0, events.last());
    }
}

/// An execution that has ended stays as it is, whatever is fed to it, and
/// asks nothing more of the outside.
pub proof fn lemma_ended_stays_ended(start: Execution, events: Seq<Event>)
    requires
        start.stage.spec_is_terminal(),
    ensures
        spec_run(start, events).0 == start,
        forall|i: int|
            0 <= i < spec_run(start, events).1.len() ==> !(#[trigger] spec_run(
                start,
                events,
            ).1[i]).spec_is_outside_call(),
    decreases events.len(),
{
    if events.len() > 0 {
        lemma_ended_stays_ended(start, events.drop_last());
    }
}

/// The repayment that a plan asks for.
pub open spec fn repayment_of(plan: Plan) -> Action {
    Action::Repay { asset: plan.settlement_asset, amount: plan.repayment_due }
}

/// Whether the stage lies after the request for repayment.
pub open spec fn repayment_requested(stage: Stage) -> bool {
    stage is Repayment || stage is ProfitTransfer || stage is Committed
}

/// In a run that starts before the repayment, the repayment has been asked
/// for, with exactly what is due, as soon as the execution stands at or after it.
pub proof fn lemma_repayment_is_requested(start: Execution, events: Seq<Event>)
    requires
        start.inv(),
        !repayment_requested(start.stage),
    ensures
        repayment_requested(spec_run(start, events).0.stage) ==> spec_run(
            start,
            events,
        ).1.contains(repayment_of(start.plan)),
    decreases events.len(),
{
    if events.len() > 0 {
        let shorter = events.drop_last();
        let (before, actions) = spec_run(start, shorter);
        let (after, action) = before.spec_step(events.last());
        lemma_repayment_is_requested(start, shorter);
        lemma_run_keeps_inv(start, shorter);
        if repayment_requested(after.stage) {
            if repayment_requested(before.stage) {
                let at = choose|i: int| 0 <= i < actions.len() && actions[i] == repayment_of(start.plan);
                assert(actions.push(action)[at] == repayment_of(start.plan));
            } else {
                assert(action == repayment_of(start.plan));
                assert(actions.push(action)[actions.len() as int] == action);
            }
        }
    }
}

/// On the success path the loan is paid back exactly: whenever a run that
/// started at the loan has committed, the repayment was asked for with the
/// loan and its fee, that amount counts as repaid, and the realized profit is
/// what the final balance left after it, which is not negative.
pub proof fn lemma_commit_repays_exactly(start: Execution, events: Seq<Event>)
    requires
        start.inv(),
        start.stage is Loan,
        spec_run(start, events).0.stage is Committed,
    ensures
        ({
            let (end, actions) = spec_run(start, events);
            &&& end.repaid_amount == start.plan.loan_amount + start.plan.loan_fee
            &&& end.final_balance >= end.repaid_amount
            &&& end.realized_profit == end.final_balance - end.repaid_amount
            &&& end.spec_outcome() == Some(
                ExecutionOutcome {
                    success: true,
                    realized_profit: end.realized_profit,
                    failure_kind: None,
                },
            )
            &&& actions.contains(
                Action::Repay {
                    asset: start.plan.settlement_asset,
                    amount: (start.plan.loan_amount + start.plan.loan_fee) as u64,
                },
            )
        }),
{
    lemma_run_keeps_inv(start, events);
    lemma_repayment_is_requested(start, events);
}

} // verus!
