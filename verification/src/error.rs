use vstd::prelude::*;

verus! {

/// The failure taxonomy of the client. Every operation surfaces exactly one
/// of these, with enough context for the caller to act on; none is silently
/// swallowed or downgraded to a default.
#[derive(Debug, Clone, PartialEq, Eq)]
pub enum Error {
    /// Network- or HTTP-level failure; the carried text is surfaced verbatim.
    Transport(String),
    /// Malformed response framing: the body is not valid base64, or the
    /// decoded envelope is under the 36-byte minimum.
    Decode,
    /// A response's height differs from the height the session pinned on its
    /// first response. Fatal to the session.
    Consistency { expected: u32, observed: u32 },
    /// The external proof verifier rejected the proof against the claimed
    /// root; carries the verifier's diagnostic.
    Proof(String),
    /// The write endpoint rejected or failed to accept the signed envelope;
    /// carries the endpoint's response text.
    Broadcast(String),
    /// A relayer answered an announcement with a status other than 200.
    Relayer { status: u16 },
    /// The endpoint configuration is missing.
    Config,
}

} // verus!
