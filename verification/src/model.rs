//! Plain data carried through one feed-update run.

use vstd::prelude::*;

verus! {

/// A fixed-point numeric value attested by an oracle, read as
/// `mantissa * 10^(-(scale))`.
#[derive(Clone, Copy, Debug, PartialEq, Eq, Structural)]
pub struct FeedValue {
    pub mantissa: i128,
    pub scale: u32,
}

/// An off-chain gateway node: the endpoint that serves attestation
/// requests for the queue's feeds.
#[derive(Clone, Debug, PartialEq)]
pub struct Gateway {
    /// The gateway's network endpoint.
    pub url: String,
}

/// One oracle attestation: the oracle's identity, the attested value
/// (absent when the oracle reported an error), the signature bytes, and
/// the gateway the attestation came through.
#[derive(Clone, Debug, PartialEq)]
pub struct OracleResponse {
    /// Identity key of the oracle that produced this attestation.
    pub oracle: Vec<u8>,
    /// The attested value, or `None` when the oracle returned an error.
    pub value: Option<FeedValue>,
    /// Signature over the attested value.
    pub signature: Vec<u8>,
    /// Endpoint of the gateway that served this attestation.
    pub gateway: String,
}

} // verus!
