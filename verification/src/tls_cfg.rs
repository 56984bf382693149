use vstd::prelude::*;
use vstd::slice::slice_to_vec;
use vstd::string::StringSliceAdditionalSpecFns;

verus! {

// ---------------------------------------------------------------------------
// Outside types of the TLS stack, declared so they can stand in signatures.
// ---------------------------------------------------------------------------

#[verifier::external_type_specification]
#[verifier::external_body]
pub struct ExTlsAcceptor(tokio_rustls::TlsAcceptor);

#[verifier::external_type_specification]
#[verifier::external_body]
pub struct ExRustlsError(tokio_rustls::rustls::Error);

/// Whether a DER-encoded private key is one the TLS stack accepts: a
/// parseable RSA, ECDSA or Ed25519 key. A function of the bytes alone.
pub uninterp spec fn valid_private_key(key_der: Seq<u8>) -> bool;

/// The TLS context could not be built: the private key was rejected. Fatal
/// at startup, since the proxy cannot safely terminate TLS without a context.
pub struct TlsContextError {
    pub cause: tokio_rustls::rustls::Error,
}

/// The ALPN protocol identifiers the terminator advertises, most preferred
/// first: HTTP/2, HTTP/1.1, HTTP/1.0.
pub fn alpn_protocols() -> (r: Vec<Vec<u8>>)
    ensures
        r@.len() == 3,
        r@[0]@ == "h2".spec_bytes(),
        r@[1]@ == "http/1.1".spec_bytes(),
        r@[2]@ == "http/1.0".spec_bytes(),
{
    let mut r: Vec<Vec<u8>> = Vec::new();
    r.push(slice_to_vec("h2".as_bytes()));
    r.push(slice_to_vec("http/1.1".as_bytes()));
    r.push(slice_to_vec("http/1.0".as_bytes()));
    r
}

/// Relies on rustls's `ServerConfig::builder().with_safe_defaults()
/// .with_no_client_auth().with_single_cert(..)` and on
/// `tokio_rustls::TlsAcceptor::from(Arc<ServerConfig>)`: builds a server-side
/// TLS context that serves the one given certificate/key pair on every
/// connection, with no client certificate verification, advertising the
/// given ALPN protocols. Per its source, construction fails exactly when the
/// private key is not a parseable RSA, ECDSA or Ed25519 key; the certificate
/// bytes are carried as given.
#[verifier::external_body]
fn build_acceptor(key_der: &[u8], cert_der: &[u8], alpn: Vec<Vec<u8>>) -> (r: Result<
    tokio_rustls::TlsAcceptor,
    tokio_rustls::rustls::Error,
>)
    ensures
        r is Ok <==> valid_private_key(key_der@),
{
    let key = tokio_rustls::rustls::PrivateKey(key_der.to_vec());
    let cert = tokio_rustls::rustls::Certificate(cert_der.to_vec());
    let mut config = tokio_rustls::rustls::ServerConfig::builder()
        .with_safe_defaults()
        .with_no_client_auth()
        .with_single_cert(vec![cert], key)?;
    config.alpn_protocols = alpn;
    Ok(std::sync::Arc::new(config).into())
}

/// Builds the shared TLS context from one DER certificate/key pair. All
/// connections are terminated with this one context; it succeeds exactly
/// when the private key is valid.
pub fn tls_acceptor_impl(key_der: &[u8], cert_der: &[u8]) -> (r: Result<
    tokio_rustls::TlsAcceptor,
    TlsContextError,
>)
    ensures
        r is Ok <==> valid_private_key(key_der@),
{
    let alpn = alpn_protocols();
    match build_acceptor(key_der, cert_der, alpn) {
        Result::Ok(acceptor) => Result::Ok(acceptor),
        Result::Err(cause) => Result::Err(TlsContextError { cause }),
    }
}

/// The TLS context for the proxy's listener, from the certificate/key pair
/// the caller loaded.
pub fn tls_acceptor(key_der: &[u8], cert_der: &[u8]) -> (r: Result<
    tokio_rustls::TlsAcceptor,
    TlsContextError,
>)
    ensures
        r is Ok <==> valid_private_key(key_der@),
{
    tls_acceptor_impl(key_der, cert_der)
}

} // verus!
