//! Verified core of an oracle feed cranker.
//!
//! The library holds the decision logic of a single feed-update run:
//! resolving the gateway that will serve the run, counting successful
//! oracle attestations against a quorum threshold, assembling the
//! instruction list with its fee directives, and driving the
//! simulate-then-submit pipeline as a state machine. The surrounding
//! binary performs the network calls and hands their outcomes back as
//! events.

pub mod aggregate;
pub mod chain;
pub mod errors;
pub mod laws;
pub mod model;
pub mod pipeline;
pub mod registry;
