//! Error taxonomy: fatal startup errors and per-connection forwarding errors.
use vstd::prelude::*;

verus! {

/// A failure while loading the TLS context. Every variant is fatal to
/// startup: the process must not listen with an invalid TLS configuration.
#[derive(Clone, Copy, Debug, PartialEq, Eq, Structural)]
pub enum TlsError {
    /// The certificate PEM material could not be parsed.
    CertParse,
    /// The private-key PEM material could not be parsed.
    KeyParse,
    /// The key material parsed but held no PKCS#8 private key.
    NoPrivateKey,
    /// The handshake layer rejected the certificate chain or key.
    BadCertOrKey,
}

/// A fatal startup error: the process must abort before binding the
/// listening socket.
#[derive(Clone, Copy, Debug, PartialEq, Eq, Structural)]
pub enum StartupError {
    /// The configured upstream list holds no upstream.
    EmptyUpstreamList,
    /// The configured listen port is not a decimal port number.
    InvalidPort,
    /// TLS is enabled but no certificate path was configured.
    MissingCertPath,
    /// TLS is enabled but no private-key path was configured.
    MissingKeyPath,
}

/// A per-connection forwarding failure. Both failure classes — a target that
/// is not a well-formed URI, and a transport failure on the outbound call —
/// are reported to the caller as one opaque failure.
#[derive(Clone, Copy, Debug, PartialEq, Eq, Structural)]
pub enum ForwardError {
    /// The concatenated forward target does not parse as a URI.
    TargetNotAUri,
}

} // verus!
