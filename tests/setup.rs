use tls_echo::{
    alpn_protocols, configure, error, host_identities, load_bundle, provision, server_config,
    startup_config, CertBundle, KeyKind, PrivateKey, ServerError,
};

#[test]
fn alpn_order_is_h2_first() {
    let p = alpn_protocols();
    assert_eq!(p, vec![b"h2".to_vec(), b"http/1.1".to_vec(), b"http/1.0".to_vec()]);
}

#[test]
fn identities_are_localhost_and_loopback() {
    assert_eq!(host_identities(), vec!["localhost".to_string(), "::1".to_string()]);
}

#[test]
fn error_wraps_message() {
    match error("boom".to_string()) {
        ServerError::Other(m) => assert_eq!(m, "boom"),
        _ => panic!("expected the general error"),
    }
}

#[test]
fn provisioned_bundle_loads() {
    let (cert, key) = match provision(host_identities()) {
        Ok(p) => p,
        Err(_) => panic!("certificate generation failed"),
    };
    assert!(cert.starts_with("-----BEGIN CERTIFICATE-----"));
    let bundle = match load_bundle(&cert, &key) {
        Ok(b) => b,
        Err(_) => panic!("bundle did not load"),
    };
    assert_eq!(bundle.chain.len(), 1);
    // DER: a SEQUENCE, not the PEM text.
    assert_eq!(bundle.chain[0][0], 0x30);
    assert_ne!(bundle.chain[0], cert.as_bytes().to_vec());
    assert_eq!(bundle.key.kind, KeyKind::Pkcs8);
    assert_eq!(bundle.key.der[0], 0x30);
    assert_ne!(bundle.key.der, key.as_bytes().to_vec());
}

#[test]
fn startup_builds_configuration() {
    match startup_config() {
        Ok(config) => assert_eq!(config.alpn_protocols.len(), 3),
        Err(_) => panic!("startup failed"),
    }
}

#[test]
fn garbage_key_bytes_are_refused() {
    let (cert, key) = match provision(host_identities()) {
        Ok(p) => p,
        Err(_) => panic!("certificate generation failed"),
    };
    let bundle = match load_bundle(&cert, &key) {
        Ok(b) => b,
        Err(_) => panic!("bundle did not load"),
    };
    let broken = CertBundle {
        chain: bundle.chain,
        key: PrivateKey { kind: KeyKind::Pkcs8, der: vec![1, 2, 3] },
    };
    match server_config(broken) {
        Err(ServerError::Other(_)) => {}
        _ => panic!("expected the key to be refused"),
    }
}

#[test]
fn provisioned_material_configures() {
    let (cert, key) = match provision(host_identities()) {
        Ok(p) => p,
        Err(_) => panic!("certificate generation failed"),
    };
    match configure(&cert, &key) {
        Ok(config) => assert_eq!(
            config.alpn_protocols,
            vec![b"h2".to_vec(), b"http/1.1".to_vec(), b"http/1.0".to_vec()]
        ),
        Err(_) => panic!("configuration failed"),
    }
}

#[test]
fn malformed_identity_fails_generation() {
    match provision(vec!["bad\u{e9}name".to_string()]) {
        Err(ServerError::Certificate(_)) => {}
        _ => panic!("expected a certificate error"),
    }
}

#[test]
fn mismatched_key_is_refused() {
    let (cert, _) = match provision(host_identities()) {
        Ok(p) => p,
        Err(_) => panic!("certificate generation failed"),
    };
    let (_, other_key) = match provision(host_identities()) {
        Ok(p) => p,
        Err(_) => panic!("certificate generation failed"),
    };
    match configure(&cert, &other_key) {
        Err(ServerError::Other(_)) => {}
        _ => panic!("expected the configuration to be refused"),
    }
}

#[test]
fn key_text_without_key_is_missing_key() {
    let (cert, _) = match provision(host_identities()) {
        Ok(p) => p,
        Err(_) => panic!("certificate generation failed"),
    };
    match configure(&cert, &cert) {
        Err(ServerError::MissingKey) => {}
        _ => panic!("expected a missing key"),
    }
}

#[test]
fn unterminated_pem_is_pem_error() {
    let broken = "-----BEGIN CERTIFICATE-----\nMIIB\n";
    match load_bundle(broken, broken) {
        Err(ServerError::Pem(_)) => {}
        _ => panic!("expected a PEM error"),
    }
}

#[test]
fn empty_certificate_text_gives_empty_chain() {
    let (_, key) = match provision(host_identities()) {
        Ok(p) => p,
        Err(_) => panic!("certificate generation failed"),
    };
    match load_bundle("", &key) {
        Ok(b) => assert!(b.chain.is_empty()),
        Err(_) => panic!("an empty text holds no certificate and no error"),
    }
}
