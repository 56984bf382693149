use envoi::tls_cfg::alpn_protocols;
use envoi::tls_cfg::tls_acceptor;
use envoi::tls_cfg::tls_acceptor_impl;

/// A PKCS#8 v1 document holding an Ed25519 private key: the fixed algorithm
/// header followed by a 32-byte seed. Any seed makes a loadable key.
fn ed25519_key_der() -> Vec<u8> {
    let mut der = vec![
        0x30, 0x2e, 0x02, 0x01, 0x00, 0x30, 0x05, 0x06, 0x03, 0x2b, 0x65, 0x70, 0x04, 0x22, 0x04,
        0x20,
    ];
    der.extend_from_slice(&[7u8; 32]);
    der
}

#[test]
fn tls_context_rejects_a_garbage_key() {
    let result = tls_acceptor(&[1, 2, 3, 4], &[9, 9, 9]);
    assert!(result.is_err());
}

#[test]
fn tls_context_accepts_a_valid_key() {
    // The certificate bytes are not inspected at build time; only the key is
    // parsed.
    let key = ed25519_key_der();
    let result = tls_acceptor(&key, &[0x30, 0x03, 0x02, 0x01, 0x01]);
    assert!(result.is_ok());
}

#[test]
fn tls_acceptor_impl_agrees_with_tls_acceptor() {
    let key = ed25519_key_der();
    assert!(tls_acceptor_impl(&key, &[1]).is_ok());
    assert!(tls_acceptor_impl(&[5, 5], &[1]).is_err());
}

#[test]
fn alpn_advertises_h2_then_http11_then_http10() {
    let alpn = alpn_protocols();
    assert_eq!(alpn.len(), 3);
    assert_eq!(alpn[0], b"h2".to_vec());
    assert_eq!(alpn[1], b"http/1.1".to_vec());
    assert_eq!(alpn[2], b"http/1.0".to_vec());
}
