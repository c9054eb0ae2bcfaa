//! Failure taxonomy of a feed-update run.

use vstd::prelude::*;

verus! {

/// Terminal failure of one feed-update run.
#[derive(Clone, Debug, PartialEq)]
pub enum CrankError {
    /// The queue address held no account.
    QueueNotFound,
    /// The queue account data could not be decoded into a queue layout.
    QueueMalformed,
    /// The queue resolved to zero gateway members.
    EmptyQueue,
    /// The selected gateway could not be reached before the deadline.
    GatewayUnreachable { detail: String },
    /// Fewer successful attestations than the quorum threshold.
    NoQuorum { got: u64, need: u64 },
    /// The ledger did not return a recent blockhash; nothing was sent.
    BlockhashUnavailable { detail: String },
    /// The instruction set could not be compiled into a single message.
    Compile { detail: String },
    /// The payer identity could not sign the compiled message.
    Signing { detail: String },
    /// The simulation endpoint could not be reached; nothing was sent.
    SimulationUnavailable { detail: String },
    /// Simulation reported an execution error; nothing was submitted.
    SimulationRejected { err: String, logs: Vec<String> },
    /// Submission or confirmation failed; the transaction may or may not
    /// have landed, so the caller must re-check chain state before
    /// retrying.
    Submission { detail: String },
}

/// Coarse class of a failure, deciding how a caller may react.
#[derive(Clone, Copy, Debug, PartialEq, Eq, Structural)]
pub enum ErrorClass {
    /// Bad or missing configuration; fatal, not retried.
    Configuration,
    /// Gateway unreachable, malformed reply or below quorum; a fresh run
    /// is safe to try.
    Gateway,
    /// Message construction failed; indicates a logic or limit violation.
    Compile,
    /// A ledger endpoint could not be reached before anything was sent;
    /// fatal to this run, safe to retry a new one.
    Transport,
    /// The simulation gate rejected the update; a caller may rebuild and
    /// retry.
    SimulationRejected,
    /// Ambiguous submission outcome; the caller must re-check chain state.
    Submission,
}

/// The class each failure belongs to.
pub open spec fn class_spec(e: CrankError) -> ErrorClass {
    match e {
        CrankError::QueueNotFound => ErrorClass::Configuration,
        CrankError::QueueMalformed => ErrorClass::Configuration,
        CrankError::EmptyQueue => ErrorClass::Configuration,
        CrankError::GatewayUnreachable { .. } => ErrorClass::Gateway,
        CrankError::NoQuorum { .. } => ErrorClass::Gateway,
        CrankError::BlockhashUnavailable { .. } => ErrorClass::Transport,
        CrankError::Compile { .. } => ErrorClass::Compile,
        CrankError::Signing { .. } => ErrorClass::Compile,
        CrankError::SimulationUnavailable { .. } => ErrorClass::Transport,
        CrankError::SimulationRejected { .. } => ErrorClass::SimulationRejected,
        CrankError::Submission { .. } => ErrorClass::Submission,
    }
}

impl CrankError {
    /// Classify this failure for the caller's retry decision.
    pub fn class(&self) -> (c: ErrorClass)
        ensures
            c == class_spec(*self),
    {
        match self {
            CrankError::QueueNotFound => ErrorClass::Configuration,
            CrankError::QueueMalformed => ErrorClass::Configuration,
            CrankError::EmptyQueue => ErrorClass::Configuration,
            CrankError::GatewayUnreachable { .. } => ErrorClass::Gateway,
            CrankError::NoQuorum { .. } => ErrorClass::Gateway,
            CrankError::BlockhashUnavailable { .. } => ErrorClass::Transport,
            CrankError::Compile { .. } => ErrorClass::Compile,
            CrankError::Signing { .. } => ErrorClass::Compile,
            CrankError::SimulationUnavailable { .. } => ErrorClass::Transport,
            CrankError::SimulationRejected { .. } => ErrorClass::SimulationRejected,
            CrankError::Submission { .. } => ErrorClass::Submission,
        }
    }
}

} // verus!
