//! The controller's handle on the worker: its lifecycle state, the encoding of
//! outgoing commands, and the decoding of incoming responses.
//!
//! The handle is `Unknown` until the worker's first `Ready` arrives. Only then
//! is a computation sent: a `CalculatePi` is refused with
//! `DispatchError::NotReady` before that, and with `DispatchError::Busy` while
//! another one is in flight, instead of being queued behind it. Once a `Ready`
//! has arrived, later `Ready` responses change nothing.
//!
//! Results of `Add` and `Multiply` carry iteration 0, as the first progress
//! report of a computation does. Messages come back in the order the commands
//! went out, so the handle counts the integer answers it still awaits; those
//! sent before a computation arrive before any of its results, and are not
//! mistaken for its final one.
use vstd::prelude::*;
use crate::protocol::{
    command_bytes, decode_response, encode_command, lemma_command_round_trip, parse_command,
    parse_response, WorkerCommand, WorkerResponse, WorkerResult,
};
use crate::scheduler::{total_iterations, total_spec};
use crate::types::ConfigurationError;

verus! {

/// Lifecycle of the worker as the controller sees it.
#[derive(Debug, Clone, Copy, PartialEq, Eq, Structural)]
pub enum WorkerState {
    Ready,
    Unknown,
    Busy,
}

/// Why a command was not sent.
#[derive(Debug, Clone, Copy, PartialEq, Eq, Structural)]
pub enum DispatchError {
    /// The worker has not yet said it is ready.
    NotReady,
    /// A computation is already in flight.
    Busy,
    /// The precision of a computation is unusable.
    Configuration(ConfigurationError),
}

/// Appends one entry to a diagnostics log.
pub fn logger(log: &mut Vec<String>, s: &str)
    ensures
        final(log)@.len() == old(log)@.len() + 1,
        forall|i: int| 0 <= i < old(log)@.len() ==> final(log)@[i] == old(log)@[i],
        final(log)@[old(log)@.len() as int]@ == s@,
{
    log.push(s.to_owned());
}

/// What the handle knows of the worker.
pub struct HandleModel {
    pub state: WorkerState,
    /// The iteration count whose result ends the computation in flight.
    pub in_flight: Option<u64>,
    /// `Add` and `Multiply` commands sent whose answers have not arrived.
    pub unanswered: u64,
    /// Of those, the ones sent before the computation in flight.
    pub ahead: u64,
}

/// The model is consistent: `Busy` exactly while a computation is in flight,
/// and answers ahead of it only then.
pub open spec fn model_wf(m: HandleModel) -> bool {
    &&& (m.state == WorkerState::Busy) == m.in_flight is Some
    &&& m.ahead <= m.unanswered
    &&& m.state != WorkerState::Busy ==> m.ahead == 0
}

/// The model after a response arrives.
pub open spec fn after_response(m: HandleModel, r: WorkerResponse) -> HandleModel {
    match r {
        WorkerResponse::Ready => if m.state == WorkerState::Unknown {
            HandleModel { state: WorkerState::Ready, ..m }
        } else {
            m
        },
        WorkerResponse::Pong => m,
        WorkerResponse::Result(w) => if m.state == WorkerState::Busy && m.ahead > 0 {
            HandleModel { ahead: (m.ahead - 1) as u64, unanswered: (m.unanswered - 1) as u64, ..m }
        } else if m.state == WorkerState::Busy && m.in_flight == Some(w.iteration) {
            HandleModel { state: WorkerState::Ready, in_flight: None, ..m }
        } else if m.state != WorkerState::Busy && m.unanswered > 0 {
            HandleModel { unanswered: (m.unanswered - 1) as u64, ..m }
        } else {
            m
        },
    }
}

/// The outcome of sending `c` from `state`: the bytes to send or the refusal.
pub open spec fn send_outcome(state: WorkerState, c: WorkerCommand) -> Result<Seq<u8>, DispatchError> {
    match c {
        WorkerCommand::CalculatePi(p) => if total_spec(p as nat) > u64::MAX {
            Err(DispatchError::Configuration(ConfigurationError::IterationCountOverflow))
        } else if state == WorkerState::Unknown {
            Err(DispatchError::NotReady)
        } else if state == WorkerState::Busy {
            Err(DispatchError::Busy)
        } else {
            Ok(command_bytes(c))
        },
        _ => Ok(command_bytes(c)),
    }
}

/// The model after `c` was sent.
pub open spec fn after_send(m: HandleModel, c: WorkerCommand) -> HandleModel {
    match c {
        WorkerCommand::CalculatePi(p) => HandleModel {
            state: WorkerState::Busy,
            in_flight: Some(total_spec(p as nat) as u64),
            ahead: m.unanswered,
            ..m
        },
        WorkerCommand::Add(_, _) | WorkerCommand::Multiply(_, _) => if m.unanswered < u64::MAX {
            HandleModel { unanswered: (m.unanswered + 1) as u64, ..m }
        } else {
            m
        },
        _ => m,
    }
}

/// The controller's handle: what it knows of the worker, and the diagnostics
/// reported so far.
pub struct Laborer {
    state: WorkerState,
    in_flight: Option<u64>,
    unanswered: u64,
    ahead: u64,
    diagnostics: Vec<String>,
}

impl Laborer {
    pub closed spec fn model(&self) -> HandleModel {
        HandleModel {
            state: self.state,
            in_flight: self.in_flight,
            unanswered: self.unanswered,
            ahead: self.ahead,
        }
    }

    pub open spec fn spec_state(&self) -> WorkerState {
        self.model().state
    }

    pub closed spec fn spec_diagnostics(&self) -> Seq<String> {
        self.diagnostics@
    }

    pub open spec fn wf(&self) -> bool {
        model_wf(self.model())
    }

    /// A handle whose worker has not yet said it is ready.
    pub fn new() -> (r: Laborer)
        ensures
            r.wf(),
            r.model() == (HandleModel { state: WorkerState::Unknown, in_flight: None, unanswered: 0, ahead: 0 }),
            r.spec_diagnostics() == Seq::<String>::empty(),
    {
        Laborer { state: WorkerState::Unknown, in_flight: None, unanswered: 0, ahead: 0, diagnostics: Vec::new() }
    }

    pub fn is_ready(&self) -> (r: bool)
        ensures
            r == (self.spec_state() == WorkerState::Ready),
    {
        self.state == WorkerState::Ready
    }

    pub fn state(&self) -> (r: WorkerState)
        ensures
            r == self.spec_state(),
    {
        self.state
    }

    pub fn diagnostics(&self) -> (r: &Vec<String>)
        ensures
            r@ == self.spec_diagnostics(),
    {
        &self.diagnostics
    }

    /// Encodes `command` for the worker. A computation needs a ready handle and
    /// makes it `Busy` until its final result arrives.
    pub fn send_command(&mut self, command: WorkerCommand) -> (r: Result<Vec<u8>, DispatchError>)
        requires
            old(self).wf(),
        ensures
            final(self).wf(),
            final(self).spec_diagnostics() == old(self).spec_diagnostics(),
            match (r, send_outcome(old(self).spec_state(), command)) {
                (Ok(b), Ok(s)) => b@ == s && final(self).model() == after_send(old(self).model(), command),
                (Err(e), Err(f)) => e == f && final(self).model() == old(self).model(),
                _ => false,
            },
            r matches Ok(b) ==> parse_command(b@) == Some(command),
    {
        proof {
            lemma_command_round_trip(command);
        }
        match command {
            WorkerCommand::CalculatePi(p) => {
                let total = match total_iterations(p) {
                    Ok(t) => t,
                    Err(e) => {
                        return Err(DispatchError::Configuration(e));
                    },
                };
                if self.state == WorkerState::Unknown {
                    return Err(DispatchError::NotReady);
                }
                if self.state == WorkerState::Busy {
                    return Err(DispatchError::Busy);
                }
                self.state = WorkerState::Busy;
                self.in_flight = Some(total);
                self.ahead = self.unanswered;
            },
            WorkerCommand::Add(_, _) | WorkerCommand::Multiply(_, _) => {
                if self.unanswered < u64::MAX {
                    self.unanswered = self.unanswered + 1;
                }
            },
            _ => {},
        }
        Ok(encode_command(command))
    }

    /// Takes one message from the worker. A response updates what the handle
    /// knows and is handed back; undecodable bytes are logged once and change
    /// nothing else.
    pub fn receive(&mut self, bytes: &[u8]) -> (r: Option<WorkerResponse>)
        requires
            old(self).wf(),
        ensures
            final(self).wf(),
            r == parse_response(bytes@),
            match r {
                Some(resp) => final(self).model() == after_response(old(self).model(), resp)
                    && final(self).spec_diagnostics() == old(self).spec_diagnostics(),
                None => final(self).model() == old(self).model()
                    && final(self).spec_diagnostics().len() == old(self).spec_diagnostics().len() + 1
                    && final(self).spec_diagnostics().subrange(0, old(self).spec_diagnostics().len() as int)
                        == old(self).spec_diagnostics(),
            },
    {
        match decode_response(bytes) {
            Some(resp) => {
                match resp {
                    WorkerResponse::Ready => {
                        if self.state == WorkerState::Unknown {
                            self.state = WorkerState::Ready;
                        }
                    },
                    WorkerResponse::Pong => {},
                    WorkerResponse::Result(w) => {
                        if self.state == WorkerState::Busy && self.ahead > 0 {
                            self.ahead = self.ahead - 1;
                            self.unanswered = self.unanswered - 1;
                        } else if self.state == WorkerState::Busy && self.in_flight == Some(w.iteration) {
                            self.state = WorkerState::Ready;
                            self.in_flight = None;
                        } else if self.state != WorkerState::Busy && self.unanswered > 0 {
                            self.unanswered = self.unanswered - 1;
                        }
                    },
                }
                Some(resp)
            },
            None => {
                let ghost before = self.diagnostics@;
                logger(&mut self.diagnostics, "undecodable message from the worker");
                assert(self.diagnostics@.subrange(0, before.len() as int) =~= before);
                None
            },
        }
    }
}

/// The handle leaves `Unknown` only on a `Ready` response: no command sent and
/// no other response moves it.
pub proof fn lemma_ready_only_after_ready(m: HandleModel, c: WorkerCommand, r: WorkerResponse)
    requires
        model_wf(m),
        m.state == WorkerState::Unknown,
    ensures
        send_outcome(m.state, c) is Ok ==> after_send(m, c).state == WorkerState::Unknown,
        r != WorkerResponse::Ready ==> after_response(m, r).state == WorkerState::Unknown,
        r == WorkerResponse::Ready ==> after_response(m, r).state == WorkerState::Ready,
{
}

/// Lifecycle of one computation. It is refused before the worker is ready and
/// while another is in flight; once sent from a ready handle, the handle is
/// busy; a `Ready`, a `Pong`, answers sent ahead of it and results before the
/// last iteration all leave it busy; its final result makes it ready again.
pub proof fn lemma_computation_lifecycle(m: HandleModel, p: u64, w: WorkerResult)
    requires
        model_wf(m),
        total_spec(p as nat) <= u64::MAX,
    ensures
        send_outcome(WorkerState::Unknown, WorkerCommand::CalculatePi(p)) == Err::<Seq<u8>, DispatchError>(
            DispatchError::NotReady,
        ),
        send_outcome(WorkerState::Busy, WorkerCommand::CalculatePi(p)) == Err::<Seq<u8>, DispatchError>(
            DispatchError::Busy,
        ),
        send_outcome(WorkerState::Ready, WorkerCommand::CalculatePi(p)) == Ok::<Seq<u8>, DispatchError>(
            command_bytes(WorkerCommand::CalculatePi(p)),
        ),
        m.state == WorkerState::Ready ==> {
            let b = after_send(m, WorkerCommand::CalculatePi(p));
            &&& model_wf(b)
            &&& b.state == WorkerState::Busy
            &&& after_response(b, WorkerResponse::Ready).state == WorkerState::Busy
            &&& after_response(b, WorkerResponse::Pong).state == WorkerState::Busy
            &&& b.ahead > 0 ==> after_response(b, WorkerResponse::Result(w)).state == WorkerState::Busy
            &&& w.iteration != total_spec(p as nat) ==> after_response(b, WorkerResponse::Result(w)).state
                == WorkerState::Busy
            &&& b.ahead == 0 && w.iteration == total_spec(p as nat) ==> after_response(
                b,
                WorkerResponse::Result(w),
            ).state == WorkerState::Ready
        },
{
}

/// Every state the handle reaches is consistent.
pub proof fn lemma_model_stays_consistent(m: HandleModel, c: WorkerCommand, r: WorkerResponse)
    requires
        model_wf(m),
    ensures
        send_outcome(m.state, c) is Ok ==> model_wf(after_send(m, c)),
        model_wf(after_response(m, r)),
{
}

} // verus!
