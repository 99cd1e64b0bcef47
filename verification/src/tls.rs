//! The credential loader, peer-identity extraction, and the per-connection
//! handshake & supervision state machine.
//!
//! The loader takes the three PEM-encoded artifacts (server certificate,
//! server private key, CA certificate) as plain bytes — reading them from
//! disk is the caller's business — and builds a TLS server configuration
//! that requires a client certificate chaining to the loaded CA. Identity
//! extraction takes the verified peer chain as plain DER bytes and yields
//! the subject's common name. The supervision machine tracks one accepted
//! connection from handshake to the termination of its background driver
//! and keeps the shared connection slot honest throughout.

use vstd::prelude::*;
use crate::error::{AppError, CredentialStage};
use crate::state::{clear_for_model, AppState};

verus! {

/// rustls's DER-encoded certificate, carried opaquely between the decode of
/// a PEM artifact and the configuration build.
#[verifier::external_type_specification]
#[verifier::external_body]
pub struct ExCertificateDer<'a>(rustls::pki_types::CertificateDer<'a>);

/// rustls's DER-encoded private key, carried opaquely between the decode of
/// a PEM artifact and the configuration build.
#[verifier::external_type_specification]
#[verifier::external_body]
pub struct ExPrivateKeyDer<'a>(rustls::pki_types::PrivateKeyDer<'a>);

/// rustls's server-side TLS configuration, opaque to the library; the
/// caller turns it into an acceptor.
#[verifier::external_type_specification]
#[verifier::external_body]
pub struct ExServerConfig(rustls::ServerConfig);

/// Whether the PEM bytes hold a decodable certificate section; what
/// `CertificateDer::from_pem_slice` decides on them.
pub uninterp spec fn pem_has_certificate(pem: Seq<u8>) -> bool;

/// Whether the PEM bytes hold a decodable private-key section; what
/// `PrivateKeyDer::from_pem_slice` decides on them.
pub uninterp spec fn pem_has_private_key(pem: Seq<u8>) -> bool;

/// Relies on rustls_pki_types::CertificateDer::from_pem_slice: decodes the
/// first CERTIFICATE section of the PEM bytes; whether one decodes is a
/// function of the bytes alone.
#[verifier::external_body]
fn parse_certificate_pem(pem: &[u8]) -> (r: Result<
    rustls::pki_types::CertificateDer<'static>,
    (),
>)
    ensures
        r is Ok <==> pem_has_certificate(pem@),
{
    match rustls::pki_types::pem::PemObject::from_pem_slice(pem) {
        Ok(c) => Ok(c),
        Err(_) => Err(()),
    }
}

/// Relies on rustls_pki_types::PrivateKeyDer::from_pem_slice: decodes the
/// first private-key section (PKCS#1, PKCS#8 or SEC1) of the PEM bytes;
/// whether one decodes is a function of the bytes alone.
#[verifier::external_body]
fn parse_private_key_pem(pem: &[u8]) -> (r: Result<
    rustls::pki_types::PrivateKeyDer<'static>,
    (),
>)
    ensures
        r is Ok <==> pem_has_private_key(pem@),
{
    match rustls::pki_types::pem::PemObject::from_pem_slice(pem) {
        Ok(k) => Ok(k),
        Err(_) => Err(()),
    }
}

/// Relies on rustls: RootCertStore::add turns the CA certificate into a
/// trust anchor, WebPkiClientVerifier::builder(..).build() makes a verifier
/// over that single anchor, and ServerConfig::builder() with that verifier
/// and with_single_cert(chain, key) yields the configuration. Each error arm
/// names the call that failed; whether each call fails is decided by the
/// outside crate on the opaque certificate and key values.
#[verifier::external_body]
fn build_client_auth_config(
    ca: rustls::pki_types::CertificateDer<'static>,
    cert: rustls::pki_types::CertificateDer<'static>,
    key: rustls::pki_types::PrivateKeyDer<'static>,
) -> (r: Result<rustls::ServerConfig, CredentialStage>)
    ensures
        r matches Err(s) ==> s is TrustAnchor || s is ClientVerifier || s is ServerConfig,
{
    let mut roots = rustls::RootCertStore::empty();
    roots.add(ca).map_err(|_| CredentialStage::TrustAnchor)?;
    let verifier = rustls::server::WebPkiClientVerifier::builder(std::sync::Arc::new(roots))
        .build()
        .map_err(|_| CredentialStage::ClientVerifier)?;
    rustls::ServerConfig::builder()
        .with_client_cert_verifier(verifier)
        .with_single_cert(vec![cert], key)
        .map_err(|_| CredentialStage::ServerConfig)
}

/// Builds the TLS server configuration with client-certificate verification
/// from the three PEM artifacts. Fails with a classified credential error
/// naming the first artifact or build step that was rejected; no partial
/// configuration is ever returned. The PEM decoding stages are pinned
/// exactly; the later build steps are decided by the TLS implementation on
/// the decoded material, and any of their failures likewise yields a
/// classified credential error.
pub fn setup_tls_with_client_auth(
    server_cert_pem: &[u8],
    server_key_pem: &[u8],
    ca_cert_pem: &[u8],
) -> (r: Result<rustls::ServerConfig, AppError>)
    ensures
        r == Err::<rustls::ServerConfig, AppError>(
            AppError::CredentialError(CredentialStage::ServerCertificate),
        ) <==> !pem_has_certificate(server_cert_pem@),
        r == Err::<rustls::ServerConfig, AppError>(
            AppError::CredentialError(CredentialStage::PrivateKey),
        ) <==> pem_has_certificate(server_cert_pem@) && !pem_has_private_key(server_key_pem@),
        r == Err::<rustls::ServerConfig, AppError>(
            AppError::CredentialError(CredentialStage::CaCertificate),
        ) <==> pem_has_certificate(server_cert_pem@) && pem_has_private_key(server_key_pem@)
            && !pem_has_certificate(ca_cert_pem@),
        r is Err ==> (exists|s: CredentialStage|
            r == Err::<rustls::ServerConfig, AppError>(AppError::CredentialError(s))),
        forall|s: CredentialStage|
            r == Err::<rustls::ServerConfig, AppError>(AppError::CredentialError(s)) && (
            s is TrustAnchor || s is ClientVerifier || s is ServerConfig)
                ==> pem_has_certificate(server_cert_pem@) && pem_has_private_key(server_key_pem@)
                && pem_has_certificate(ca_cert_pem@),
        r is Ok ==> pem_has_certificate(server_cert_pem@) && pem_has_private_key(server_key_pem@)
            && pem_has_certificate(ca_cert_pem@),
{
    let cert = match parse_certificate_pem(server_cert_pem) {
        Ok(c) => c,
        Err(_) => {
            return Err(AppError::CredentialError(CredentialStage::ServerCertificate));
        },
    };
    let key = match parse_private_key_pem(server_key_pem) {
        Ok(k) => k,
        Err(_) => {
            return Err(AppError::CredentialError(CredentialStage::PrivateKey));
        },
    };
    let ca = match parse_certificate_pem(ca_cert_pem) {
        Ok(c) => c,
        Err(_) => {
            return Err(AppError::CredentialError(CredentialStage::CaCertificate));
        },
    };
    match build_client_auth_config(ca, cert, key) {
        Ok(config) => Ok(config),
        Err(stage) => Err(AppError::CredentialError(stage)),
    }
}

/// The common name of the subject of the DER-encoded certificate, if the
/// certificate parses and its subject carries one with a readable string
/// value; a function of the DER bytes alone.
pub uninterp spec fn cert_common_name(der: Seq<u8>) -> Option<Seq<char>>;

/// Relies on x509_parser::parse_x509_certificate and, on the parsed
/// certificate, subject.iter_common_name() and AttributeTypeAndValue::as_str:
/// yields the first common-name attribute of the subject as a string, and
/// nothing when the certificate does not parse, has no common name, or the
/// attribute's value is not a string.
#[verifier::external_body]
fn extract_common_name(der: &[u8]) -> (r: Option<String>)
    ensures
        r is Some <==> cert_common_name(der@) is Some,
        r matches Some(s) ==> cert_common_name(der@) == Some(s@),
{
    let parsed = match x509_parser::parse_x509_certificate(der) {
        Ok((_, c)) => c,
        Err(_) => return None,
    };
    let attr = parsed.tbs_certificate.subject.iter_common_name().next()?;
    match attr.as_str() {
        Ok(s) => Some(s.to_string()),
        Err(_) => None,
    }
}

/// Extracts the peer's human-readable subject identity from its verified
/// certificate chain, given as DER bytes, leaf first. Best effort: an empty
/// chain or a certificate without a readable common name yields nothing,
/// which must not block connection establishment.
pub fn get_cn_from_cert(chain: &Vec<Vec<u8>>) -> (r: Option<String>)
    ensures
        chain@.len() == 0 ==> r is None,
        chain@.len() > 0 ==> (r is Some <==> cert_common_name(chain@[0]@) is Some),
        chain@.len() > 0 ==> (r matches Some(s) ==> cert_common_name(chain@[0]@) == Some(s@)),
{
    if chain.len() == 0 {
        return None;
    }
    extract_common_name(chain[0].as_slice())
}

/// Where one accepted connection stands, from the TCP accept to the
/// termination of its background I/O driver. While supervising, the phase
/// carries the generation of the handle this session installed into the
/// connection slot.
#[derive(Clone, Copy, Debug, PartialEq, Eq, Structural)]
pub enum SessionPhase {
    Handshaking,
    Establishing,
    Supervising(u64),
    Closed,
}

/// The handshake & supervision state machine for one accepted connection.
///
/// One session runs per accepted TCP peer: it performs the TLS handshake,
/// establishes the request channel, publishes the sending handle into the
/// connection slot, and supervises the channel's background driver until it
/// terminates, at which point it clears the slot — but only if the slot
/// still holds the handle this session installed.
pub struct Session {
    phase: SessionPhase,
}

impl Session {
    /// The session's current phase.
    pub closed spec fn phase(&self) -> SessionPhase {
        self.phase
    }

    /// A session for a freshly accepted TCP connection, about to perform
    /// the TLS handshake.
    pub fn new() -> (s: Self)
        ensures
            s.phase() == SessionPhase::Handshaking,
    {
        Session { phase: SessionPhase::Handshaking }
    }

    /// Records the outcome of the TLS handshake. A failed handshake closes
    /// the session and is reported as a recoverable `HandshakeError` value —
    /// it never terminates the process — while a successful one moves on to
    /// establishing the request channel.
    pub fn handshake_completed(&mut self, accepted: bool) -> (r: Result<(), AppError>)
        requires
            old(self).phase() == SessionPhase::Handshaking,
        ensures
            accepted ==> final(self).phase() == SessionPhase::Establishing && r == Ok::<
                (),
                AppError,
            >(()),
            !accepted ==> final(self).phase() == SessionPhase::Closed && r == Err::<
                (),
                AppError,
            >(AppError::HandshakeError),
    {
        if accepted {
            self.phase = SessionPhase::Establishing;
            Ok(())
        } else {
            self.phase = SessionPhase::Closed;
            Err(AppError::HandshakeError)
        }
    }

    /// Publishes the established channel's sending handle: installs a fresh
    /// generation into the connection slot, replacing any handle already
    /// present, and begins supervising under that generation.
    pub fn channel_established(&mut self, slot: &mut AppState) -> (g: u64)
        requires
            old(self).phase() == SessionPhase::Establishing,
            old(slot).wf(),
            old(slot).generations() < u64::MAX,
        ensures
            final(self).phase() == SessionPhase::Supervising(g),
            final(slot).wf(),
            final(slot).sender_generation() == Some(g),
            g == old(slot).generations(),
            final(slot).generations() == old(slot).generations() + 1,
            forall|h: u64| old(slot).sender_generation() == Some(h) ==> h < g,
    {
        let g = slot.set_sender();
        self.phase = SessionPhase::Supervising(g);
        g
    }

    /// Records the termination of the background I/O driver (peer close,
    /// protocol error, or local shutdown) and closes the session, clearing
    /// the connection slot — but only if it still holds the handle this
    /// session installed; a newer session's handle is left intact. The
    /// session cannot observe the termination twice, so the slot transitions
    /// to empty at most once on this session's account.
    pub fn driver_terminated(&mut self, slot: &mut AppState)
        requires
            old(self).phase() matches SessionPhase::Supervising(_),
            old(slot).wf(),
        ensures
            final(self).phase() == SessionPhase::Closed,
            final(slot).wf(),
            final(slot).generations() == old(slot).generations(),
            forall|g: u64|
                old(self).phase() == SessionPhase::Supervising(g)
                    ==> final(slot).sender_generation() == clear_for_model(
                    old(slot).sender_generation(),
                    g,
                ),
    {
        let g = match self.phase {
            SessionPhase::Supervising(g) => g,
            _ => 0,  // excluded by the precondition
        };
        slot.clear_sender_for(g);
        self.phase = SessionPhase::Closed;
    }
}

} // verus!
