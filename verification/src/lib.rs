//! Connection lifecycle and single-slot connection sharing for a bridge
//! between a local management API and one mutually-authenticated TLS peer.
//!
//! The crate holds the verified core: the shared connection slot (at most one
//! live outbound handle), the timeout-bounded forwarding decisions, the
//! per-connection supervision state machine, the credential loader that builds
//! a client-certificate-verifying TLS server configuration, and the
//! aggregation of streamed response bodies. The asynchronous I/O that drives
//! these decisions lives outside the library and hands in plain values.

pub mod error;
pub mod forward;
pub mod state;
pub mod tls;
