//! TLS context loading: parse PEM certificate and key material and assemble
//! the server-side handshake configuration, once, before the listener binds.
use vstd::prelude::*;
use crate::errors::TlsError;

verus! {

#[verifier::external_type_specification]
#[verifier::external_body]
pub struct ExServerConfig(tokio_rustls::rustls::ServerConfig);

/// What the PEM certificate parser extracts from `pem`: the DER contents of
/// every certificate section, in order, or nothing when a section is
/// malformed. A function of the bytes alone.
pub uninterp spec fn pem_certs(pem: Seq<u8>) -> Option<Seq<Seq<u8>>>;

/// What the PEM key parser extracts from `pem`: the DER contents of every
/// PKCS#8 private-key section, in order, or nothing when a section is
/// malformed. A function of the bytes alone.
pub uninterp spec fn pem_pkcs8_keys(pem: Seq<u8>) -> Option<Seq<Seq<u8>>>;

/// Whether the handshake layer accepts certificate chain `certs` with
/// private key `key`. A function of the DER bytes alone.
pub uninterp spec fn single_cert_ok(certs: Seq<Seq<u8>>, key: Seq<u8>) -> bool;

/// Relies on `rustls_pemfile::certs`: reading from an in-memory slice, it
/// returns the DER bytes of the certificate sections of `pem`, or an error
/// for malformed section data; both depend on the bytes alone.
#[verifier::external_body]
fn parse_pem_certs(pem: &[u8]) -> (r: Option<Vec<Vec<u8>>>)
    ensures
        r is Some <==> pem_certs(pem@) is Some,
        r matches Some(v) ==> Some(v.deep_view()) == pem_certs(pem@),
{
    let mut rd: &[u8] = pem;
    rustls_pemfile::certs(&mut rd).ok()
}

/// Relies on `rustls_pemfile::pkcs8_private_keys`: reading from an in-memory
/// slice, it returns the DER bytes of the PKCS#8 private-key sections of
/// `pem`, or an error for malformed section data; both depend on the bytes
/// alone.
#[verifier::external_body]
fn parse_pem_pkcs8_keys(pem: &[u8]) -> (r: Option<Vec<Vec<u8>>>)
    ensures
        r is Some <==> pem_pkcs8_keys(pem@) is Some,
        r matches Some(v) ==> Some(v.deep_view()) == pem_pkcs8_keys(pem@),
{
    let mut rd: &[u8] = pem;
    rustls_pemfile::pkcs8_private_keys(&mut rd).ok()
}

/// Relies on `rustls::ConfigBuilder::with_single_cert` (reached through the
/// `ServerConfig` builder with its default cipher suites and no client
/// authentication, as `tokio_rustls` re-exports it): it accepts or rejects a
/// chain-and-key pair as a function of the DER bytes alone.
#[verifier::external_body]
fn assemble_server_config(certs: Vec<Vec<u8>>, key: Vec<u8>) -> (r: Option<
    tokio_rustls::rustls::ServerConfig,
>)
    ensures
        r is Some <==> single_cert_ok(certs.deep_view(), key@),
{
    let chain: Vec<tokio_rustls::rustls::Certificate> = certs.into_iter().map(
        tokio_rustls::rustls::Certificate,
    ).collect();
    tokio_rustls::rustls::ServerConfig::builder().with_safe_defaults().with_no_client_auth()
        .with_single_cert(chain, tokio_rustls::rustls::PrivateKey(key))
        .ok()
}

/// The server-side TLS handshake configuration: built once at startup,
/// immutable afterwards, shared by every accepted connection.
#[derive(Debug)]
pub struct TlsContext {
    /// The assembled handshake configuration.
    pub config: tokio_rustls::rustls::ServerConfig,
}

/// Build the TLS context from certificate and private-key PEM material, as
/// read from the configured paths. Every failure is fatal to startup: a
/// malformed certificate file, a malformed key file, a key file with no
/// PKCS#8 key, or a chain-and-key pair the handshake layer rejects. The
/// first key of the key file is used, as the chain's matching key.
pub fn load_tls_context(cert_pem: &[u8], key_pem: &[u8]) -> (r: Result<TlsContext, TlsError>)
    ensures
        ({
            let cs = pem_certs(cert_pem@);
            let ks = pem_pkcs8_keys(key_pem@);
            &&& (r is Ok <==> cs is Some && ks is Some && ks.unwrap().len() > 0 && single_cert_ok(
                cs.unwrap(),
                ks.unwrap()[0],
            ))
            &&& (r matches Err(e) ==> e == if cs is None {
                TlsError::CertParse
            } else if ks is None {
                TlsError::KeyParse
            } else if ks.unwrap().len() == 0 {
                TlsError::NoPrivateKey
            } else {
                TlsError::BadCertOrKey
            })
        }),
{
    let certs = match parse_pem_certs(cert_pem) {
        Some(v) => v,
        None => {
            return Err(TlsError::CertParse);
        },
    };
    let mut keys = match parse_pem_pkcs8_keys(key_pem) {
        Some(v) => v,
        None => {
            return Err(TlsError::KeyParse);
        },
    };
    if keys.len() == 0 {
        return Err(TlsError::NoPrivateKey);
    }
    let key = keys.remove(0);
    assert(key@ == pem_pkcs8_keys(key_pem@).unwrap()[0]);
    match assemble_server_config(certs, key) {
        Some(config) => Ok(TlsContext { config }),
        None => Err(TlsError::BadCertOrKey),
    }
}

} // verus!
