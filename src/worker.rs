//! The worker's side of the protocol: what to do with each command, and the
//! bookkeeping of a running series computation.
//!
//! The worker keeps the floating-point running sum itself; this module decides
//! which iterations run, which of them report progress, and what the final
//! report carries.
use vstd::prelude::*;
use crate::protocol::{decode_command, parse_command, Approximation, WorkerCommand, WorkerResponse, WorkerResult};
use crate::scheduler::{checkpoint_modulus, is_checkpoint, is_checkpoint_spec, modulus_spec, total_iterations, total_spec};
use crate::types::{ConfigurationError, TPrecision};

verus! {

/// A computation in progress: `next` of `total` iterations are done.
#[derive(Debug, Clone, Copy, PartialEq, Eq, Structural)]
pub struct PiRun {
    total: u64,
    modulus: u64,
    next: u64,
}

impl PiRun {
    pub closed spec fn spec_total(&self) -> nat {
        self.total as nat
    }

    pub closed spec fn spec_modulus(&self) -> nat {
        self.modulus as nat
    }

    /// Iterations done so far; the next one to run has this index.
    pub closed spec fn spec_next(&self) -> nat {
        self.next as nat
    }

    pub closed spec fn wf(&self) -> bool {
        self.modulus >= 1 && self.next <= self.total
    }

    /// Starts a run at `precision`; refused when `precision^10` does not fit in a `u64`.
    pub fn start(precision: TPrecision) -> (r: Result<PiRun, ConfigurationError>)
        ensures
            match r {
                Ok(run) => total_spec(precision as nat) <= u64::MAX && run.wf()
                    && run.spec_total() == total_spec(precision as nat)
                    && run.spec_modulus() == modulus_spec(precision as nat)
                    && run.spec_next() == 0,
                Err(e) => total_spec(precision as nat) > u64::MAX
                    && e == ConfigurationError::IterationCountOverflow,
            },
    {
        match total_iterations(precision) {
            Ok(total) => {
                let modulus = checkpoint_modulus(precision);
                Ok(PiRun { total, modulus, next: 0 })
            },
            Err(e) => Err(e),
        }
    }

    pub fn total(&self) -> (r: u64)
        ensures
            r == self.spec_total(),
    {
        self.total
    }

    pub fn modulus(&self) -> (r: u64)
        ensures
            r == self.spec_modulus(),
    {
        self.modulus
    }

    pub fn next_iteration(&self) -> (r: u64)
        ensures
            r == self.spec_next(),
    {
        self.next
    }

    /// Whether every iteration has run.
    pub fn is_finished(&self) -> (r: bool)
        requires
            self.wf(),
        ensures
            r == (self.spec_next() == self.spec_total()),
    {
        self.next == self.total
    }

    /// Marks the next iteration as run; returns whether it reports progress.
    pub fn advance(&mut self) -> (report: bool)
        requires
            old(self).wf(),
            old(self).spec_next() < old(self).spec_total(),
        ensures
            final(self).wf(),
            final(self).spec_total() == old(self).spec_total(),
            final(self).spec_modulus() == old(self).spec_modulus(),
            final(self).spec_next() == old(self).spec_next() + 1,
            report == is_checkpoint_spec(old(self).spec_next(), old(self).spec_modulus()),
    {
        let report = is_checkpoint(self.next, self.modulus);
        self.next = self.next + 1;
        report
    }

    /// The final report of a finished run: the value and the total iteration count.
    pub fn finish(&self, value: Approximation) -> (r: WorkerResponse)
        requires
            self.wf(),
            self.spec_next() == self.spec_total(),
        ensures
            r == WorkerResponse::Result(WorkerResult { result: value, iteration: self.spec_total() as u64 }),
    {
        WorkerResponse::Result(WorkerResult::new(value, self.total))
    }
}

/// A progress report: the scaled running sum after iteration `n`.
pub fn progress(value: Approximation, n: u64) -> (r: WorkerResponse)
    ensures
        r == WorkerResponse::Result(WorkerResult { result: value, iteration: n }),
{
    WorkerResponse::Result(WorkerResult::new(value, n))
}

/// What the worker does with one command.
#[derive(Debug, PartialEq, Eq, Structural)]
pub enum WorkerAction {
    /// Send this response.
    Respond(WorkerResponse),
    /// Send a result holding this integer, converted to a double, at iteration 0.
    RespondInteger(i64),
    /// Run the series computation, reporting progress as the run says.
    Compute(PiRun),
    /// Refuse the computation: its precision is unusable.
    Reject(ConfigurationError),
}

/// Why an inbound message was not acted on.
#[derive(Debug, Clone, Copy, PartialEq, Eq, Structural)]
pub enum MessageError {
    /// The bytes encode no command.
    Serialization,
}

/// The action that `c` calls for, described over its fields.
pub open spec fn action_matches(c: WorkerCommand, a: WorkerAction) -> bool {
    match c {
        WorkerCommand::Initialize => a == WorkerAction::Respond(WorkerResponse::Ready),
        WorkerCommand::Ping => a == WorkerAction::Respond(WorkerResponse::Pong),
        WorkerCommand::Add(x, y) => a == WorkerAction::RespondInteger((x + y) as i64),
        WorkerCommand::Multiply(x, y) => a == WorkerAction::RespondInteger((x * y) as i64),
        WorkerCommand::CalculatePi(p) => match a {
            WorkerAction::Compute(run) => total_spec(p as nat) <= u64::MAX && run.wf()
                && run.spec_total() == total_spec(p as nat)
                && run.spec_modulus() == modulus_spec(p as nat) && run.spec_next() == 0,
            WorkerAction::Reject(e) => total_spec(p as nat) > u64::MAX
                && e == ConfigurationError::IterationCountOverflow,
            _ => false,
        },
    }
}

/// Decides what the worker does with `command`.
pub fn dispatch(command: WorkerCommand) -> (a: WorkerAction)
    ensures
        action_matches(command, a),
{
    match command {
        WorkerCommand::Initialize => WorkerAction::Respond(WorkerResponse::Ready),
        WorkerCommand::Ping => WorkerAction::Respond(WorkerResponse::Pong),
        WorkerCommand::Add(x, y) => WorkerAction::RespondInteger(x as i64 + y as i64),
        WorkerCommand::Multiply(x, y) => {
            assert(-2147483648 * 2147483647 <= x * y <= 2147483648 * 2147483648) by (nonlinear_arith)
                requires -2147483648 <= x <= 2147483647, -2147483648 <= y <= 2147483647;
            WorkerAction::RespondInteger(x as i64 * y as i64)
        },
        WorkerCommand::CalculatePi(p) => match PiRun::start(p) {
            Ok(run) => WorkerAction::Compute(run),
            Err(e) => WorkerAction::Reject(e),
        },
    }
}

/// Decodes an inbound message and decides what to do with it; undecodable bytes are an error.
pub fn handle_message(bytes: &[u8]) -> (r: Result<WorkerAction, MessageError>)
    ensures
        match r {
            Ok(a) => parse_command(bytes@) matches Some(c) && action_matches(c, a),
            Err(e) => parse_command(bytes@) is None && e == MessageError::Serialization,
        },
{
    match decode_command(bytes) {
        Some(c) => Ok(dispatch(c)),
        None => Err(MessageError::Serialization),
    }
}

} // verus!
