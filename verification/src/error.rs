//! Classified failures of the connection core.

use vstd::prelude::*;
use vstd::string::StringExecFns;

verus! {

/// Which artifact or build step of the credential loader failed.
#[derive(Clone, Copy, Debug, PartialEq, Eq, Structural)]
pub enum CredentialStage {
    /// The server certificate PEM held no decodable certificate section.
    ServerCertificate,
    /// The server key PEM held no decodable private-key section.
    PrivateKey,
    /// The CA certificate PEM held no decodable certificate section.
    CaCertificate,
    /// The CA certificate could not be used as a trust anchor.
    TrustAnchor,
    /// The client-certificate verifier could not be built.
    ClientVerifier,
    /// The server configuration rejected the certificate/key pair.
    ServerConfig,
}

/// Application errors: every failure the connection core reports upward.
///
/// Credential and handshake failures are contained within connection setup
/// and reported as values, never as process aborts. Forwarding failures are
/// returned to the immediate caller.
#[derive(Clone, Copy, Debug, PartialEq, Eq, Structural)]
pub enum AppError {
    /// Certificate or key material could not be loaded into a configuration;
    /// fatal to the connection-acceptance attempt, not to the process.
    CredentialError(CredentialStage),
    /// TLS negotiation failed; the acceptance attempt may be retried.
    HandshakeError,
    /// A forward was attempted while the connection slot was empty.
    NoConnection,
    /// The peer did not answer within the send time budget; the slot has
    /// been invalidated as a side effect.
    Timeout,
    /// The transport reported an I/O failure during send or receive.
    TransportError,
    /// The peer certificate's subject could not be read; logged only.
    IdentityExtractionFailure,
}

impl AppError {
    /// A human-readable description of the failure.
    pub fn message(&self) -> (m: String)
        ensures
            self is CredentialError ==> m@ == "credential material was rejected"@,
            self is HandshakeError ==> m@ == "TLS handshake failed"@,
            self is NoConnection ==> m@ == "no sender available"@,
            self is Timeout ==> m@ == "timeout while sending request"@,
            self is TransportError ==> m@ == "failed to send request"@,
            self is IdentityExtractionFailure ==> m@ == "could not extract peer identity"@,
    {
        match self {
            AppError::CredentialError(_) => String::from_str("credential material was rejected"),
            AppError::HandshakeError => String::from_str("TLS handshake failed"),
            AppError::NoConnection => String::from_str("no sender available"),
            AppError::Timeout => String::from_str("timeout while sending request"),
            AppError::TransportError => String::from_str("failed to send request"),
            AppError::IdentityExtractionFailure => {
                String::from_str("could not extract peer identity")
            },
        }
    }
}

} // verus!
