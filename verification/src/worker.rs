//! The settlement worker: one long-lived control loop per escrow
//! contract.
//!
//! The worker is a state machine `Verifying -> Running -> ShuttingDown
//! -> Terminated`.  Each observed event — the verification outcome, a
//! usage update, a fee tick, a periodic balance check, or the
//! termination signal — is fed to [`Worker::step`], which moves the
//! machine and names the one action the surrounding loop must perform:
//! submit a spend, request a funding top-up, submit the final refund, or
//! report a fatal error.  The loop itself (waiting, fetching, sending)
//! stays outside the library.

use vstd::prelude::*;

use crate::accumulator::{spec_record_usage, Accumulator};
use crate::contract::CheckError;
use crate::data::ContractData;
use crate::pubkey::Pubkey;

verus! {

/// Immutable configuration for one worker, created once at worker start.
pub struct ConnectionParams {
    /// The escrow contract this worker settles.
    pub contract_pubkey: Pubkey,
    /// Where measured traffic is forwarded; opaque to settlement.
    pub destination: String,
    /// The cadence at which accumulated usage is converted into a spend.
    pub fee_interval: u64,
}

/// The worker's lifecycle states.
#[derive(Copy, Clone, PartialEq, Eq, Structural, Debug)]
pub enum WorkerState {
    /// Waiting for the one-time contract verification.
    Verifying,
    /// Steady state: consuming usage updates and flushing charges.
    Running,
    /// Termination observed; the final refund is being issued.
    ShuttingDown,
    /// The loop exits; only the summary remains.
    Terminated,
}

/// One event observed by the worker's loop.
pub enum WorkerEvent {
    /// The contract verifier succeeded with the contract's balance and
    /// decoded state.
    Verified(u64, ContractData),
    /// The contract verifier failed; fatal, no retry.
    VerifyFailed(CheckError),
    /// A usage update worth this many units.
    Usage(u64),
    /// A fee interval's worth of usage has elapsed.
    FeeTick,
    /// The periodic funding check ran and observed this contract balance.
    BalanceCheck(u64),
    /// The termination signal.
    Terminate,
}

/// The action the surrounding loop must perform after a step.
#[derive(Copy, Clone, PartialEq, Eq, Structural, Debug)]
pub enum WorkerAction {
    /// Nothing to do.
    NoAction,
    /// Hand the submitter a spend for this amount.
    SubmitSpend(u64),
    /// Ask the configured funding source for a top-up.
    RequestTopUp,
    /// Submit the final refund for the contract.
    SubmitRefund,
    /// Surface a fatal verification error to the operator.
    ReportError(CheckError),
}

/// One settlement worker: configuration, lifecycle state, its usage
/// accumulator, and the verified contract state once it is known.
pub struct Worker {
    pub params: ConnectionParams,
    pub state: WorkerState,
    pub accumulator: Accumulator,
    /// The decoded escrow state, set once verification succeeds.
    pub contract_state: Option<ContractData>,
    /// The price charged per usage unit.
    pub price_per_unit: u64,
    /// Balance below which the funding check requests a top-up.
    pub funding_threshold: u64,
}

impl Worker {
    /// A fresh worker: verifying, with an empty accumulator and no
    /// verified contract state.
    pub fn new(params: ConnectionParams, price_per_unit: u64, funding_threshold: u64) -> (r:
        Worker)
        ensures
            r.params == params,
            r.state == WorkerState::Verifying,
            r.accumulator.initiator_fund == 0,
            r.accumulator.total_data_amount == 0,
            r.accumulator.owed_amount == 0,
            r.contract_state is None,
            r.price_per_unit == price_per_unit,
            r.funding_threshold == funding_threshold,
    {
        Worker {
            params,
            state: WorkerState::Verifying,
            accumulator: Accumulator { initiator_fund: 0, total_data_amount: 0, owed_amount: 0 },
            contract_state: None,
            price_per_unit,
            funding_threshold,
        }
    }

    /// The intended outcome of one step: the worker after the event and
    /// the action the loop must perform.
    pub open spec fn spec_step(self, event: WorkerEvent) -> (Worker, WorkerAction) {
        match self.state {
            WorkerState::Verifying => match event {
                WorkerEvent::Verified(balance, contract_data) => (
                    Worker {
                        state: WorkerState::Running,
                        accumulator: Accumulator { initiator_fund: balance, ..self.accumulator },
                        contract_state: Some(contract_data),
                        ..self
                    },
                    WorkerAction::NoAction,
                ),
                WorkerEvent::VerifyFailed(e) => (
                    Worker { state: WorkerState::Terminated, ..self },
                    WorkerAction::ReportError(e),
                ),
                WorkerEvent::Terminate => (
                    Worker { state: WorkerState::Terminated, ..self },
                    WorkerAction::NoAction,
                ),
                _ => (self, WorkerAction::NoAction),
            },
            WorkerState::Running => match event {
                WorkerEvent::Usage(units) => (
                    Worker {
                        accumulator: spec_record_usage(
                            self.accumulator,
                            units,
                            self.price_per_unit,
                        ),
                        ..self
                    },
                    WorkerAction::NoAction,
                ),
                WorkerEvent::FeeTick => (
                    Worker {
                        accumulator: Accumulator { owed_amount: 0u64, ..self.accumulator },
                        ..self
                    },
                    if self.accumulator.owed_amount == 0 {
                        WorkerAction::NoAction
                    } else {
                        WorkerAction::SubmitSpend(self.accumulator.owed_amount)
                    },
                ),
                WorkerEvent::BalanceCheck(balance) => (
                    self,
                    if balance < self.funding_threshold {
                        WorkerAction::RequestTopUp
                    } else {
                        WorkerAction::NoAction
                    },
                ),
                WorkerEvent::Terminate => (
                    Worker { state: WorkerState::ShuttingDown, ..self },
                    WorkerAction::SubmitRefund,
                ),
                _ => (self, WorkerAction::NoAction),
            },
            WorkerState::ShuttingDown => (
                Worker { state: WorkerState::Terminated, ..self },
                WorkerAction::NoAction,
            ),
            WorkerState::Terminated => (self, WorkerAction::NoAction),
        }
    }

    /// Feeds one event to the worker and returns the action the loop
    /// must perform.  The usage bounds are machine limits on the
    /// accumulator's counters.
    pub fn step(&mut self, event: WorkerEvent) -> (action: WorkerAction)
        requires
            match event {
                WorkerEvent::Usage(units) => old(self).state == WorkerState::Running ==> {
                    &&& old(self).accumulator.total_data_amount + units <= u64::MAX
                    &&& old(self).accumulator.owed_amount + units * old(self).price_per_unit
                        <= u64::MAX
                },
                _ => true,
            },
        ensures
            (*final(self), action) == old(self).spec_step(event),
    {
        match self.state {
            WorkerState::Verifying => match event {
                WorkerEvent::Verified(balance, contract_data) => {
                    self.state = WorkerState::Running;
                    self.accumulator.initiator_fund = balance;
                    self.contract_state = Some(contract_data);
                    WorkerAction::NoAction
                },
                WorkerEvent::VerifyFailed(e) => {
                    self.state = WorkerState::Terminated;
                    WorkerAction::ReportError(e)
                },
                WorkerEvent::Terminate => {
                    self.state = WorkerState::Terminated;
                    WorkerAction::NoAction
                },
                _ => WorkerAction::NoAction,
            },
            WorkerState::Running => match event {
                WorkerEvent::Usage(units) => {
                    let price_per_unit = self.price_per_unit;
                    self.accumulator.record_usage(units, price_per_unit);
                    WorkerAction::NoAction
                },
                WorkerEvent::FeeTick => {
                    let amount = self.accumulator.flush();
                    if amount == 0 {
                        WorkerAction::NoAction
                    } else {
                        WorkerAction::SubmitSpend(amount)
                    }
                },
                WorkerEvent::BalanceCheck(balance) => {
                    if balance < self.funding_threshold {
                        WorkerAction::RequestTopUp
                    } else {
                        WorkerAction::NoAction
                    }
                },
                WorkerEvent::Terminate => {
                    self.state = WorkerState::ShuttingDown;
                    WorkerAction::SubmitRefund
                },
                _ => WorkerAction::NoAction,
            },
            WorkerState::ShuttingDown => {
                self.state = WorkerState::Terminated;
                WorkerAction::NoAction
            },
            WorkerState::Terminated => WorkerAction::NoAction,
        }
    }

    /// The worker's summary result: the cumulative usage units observed.
    pub fn summary(&self) -> (r: u64)
        ensures
            r == self.accumulator.total_data_amount,
    {
        self.accumulator.total_data_amount
    }
}

} // verus!
