//! TLS context loading: every failure class is fatal and reported exactly.
use rrproxy::TlsError;
use rrproxy::load_tls_context;

// A PEM section whose body is not base64: the PEM parser rejects it.
const BAD_SECTION_BODY: &str = "!!!not base64!!!\n";

fn pem(header: &str, body: &str) -> Vec<u8> {
    format!("-----BEGIN {}-----\n{}-----END {}-----\n", header, body, header).into_bytes()
}

#[test]
fn empty_key_material_is_fatal() {
    // Parsing succeeds on both files but yields no PKCS#8 key.
    let r = load_tls_context(b"", b"");
    assert_eq!(r.unwrap_err(), TlsError::NoPrivateKey);
}

#[test]
fn non_pem_text_holds_no_key() {
    // Text outside PEM sections is skipped, not an error: still no key.
    let r = load_tls_context(b"hello\n", b"just some notes\n");
    assert_eq!(r.unwrap_err(), TlsError::NoPrivateKey);
}

#[test]
fn malformed_certificate_pem_is_fatal() {
    let cert = pem("CERTIFICATE", BAD_SECTION_BODY);
    let key = pem("PRIVATE KEY", "AAAA\n");
    let r = load_tls_context(&cert, &key);
    assert_eq!(r.unwrap_err(), TlsError::CertParse);
}

#[test]
fn malformed_key_pem_is_fatal() {
    let key = pem("PRIVATE KEY", BAD_SECTION_BODY);
    let r = load_tls_context(b"", &key);
    assert_eq!(r.unwrap_err(), TlsError::KeyParse);
}

#[test]
fn rejected_key_material_is_fatal() {
    // Well-formed PEM whose DER contents are no usable key: the handshake
    // layer rejects the chain-and-key pair.
    let cert = pem("CERTIFICATE", "AAAA\n");
    let key = pem("PRIVATE KEY", "AAAA\n");
    let r = load_tls_context(&cert, &key);
    assert_eq!(r.unwrap_err(), TlsError::BadCertOrKey);
}
