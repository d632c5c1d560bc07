//! A client-side session for talking to a remote state-machine node over a
//! REST gateway: verified response framing, height pinning, signed-envelope
//! assembly, and a fail-fast relayer announcement protocol.
//!
//! The surrounding I/O (HTTP requests, signing, proof verification) is done
//! by the caller; this crate holds the decisions and the byte- and
//! string-level computations, each with a proved contract.

pub mod error;
pub mod text;
pub mod codec;
pub mod envelope;
pub mod session;
pub mod store;
pub mod submit;
pub mod relay;
pub mod wallet;
