use tonic_quic::crypto::{build_certs, cert_source, h3_crypto_settings, load_crypto, server_config, CertKeyPair, CertSource, CryptoError};

#[test]
fn no_paths_means_generated_certificate() {
    assert!(matches!(cert_source(None, None), Ok(CertSource::Generate)));
}

#[test]
fn both_paths_means_files() {
    match cert_source(Some("cert.der".to_string()), Some("key.der".to_string())) {
        Ok(CertSource::Files { cert_path, key_path }) => {
            assert_eq!(cert_path, "cert.der");
            assert_eq!(key_path, "key.der");
        }
        _ => panic!("expected files"),
    }
}

#[test]
fn one_path_alone_is_an_error() {
    let e = cert_source(Some("cert.der".to_string()), None).err().unwrap();
    assert_eq!(e, CryptoError::MismatchedPaths);
    assert_eq!(e.message(), "cert and key args are mutually dependant");
    assert_eq!(CryptoError::Generation.message(), "could not generate a self-signed certificate");
    assert_eq!(CryptoError::InvalidKey.message(), "the private key was refused");
    assert!(matches!(cert_source(None, Some("k".to_string())), Err(CryptoError::MismatchedPaths)));
}

#[test]
fn h3_settings() {
    let s = h3_crypto_settings();
    assert_eq!(s.max_early_data_size, u32::MAX);
    assert_eq!(s.alpn_protocols, vec![b"h3".to_vec()]);
}

#[test]
fn generated_certificate_is_accepted() {
    let pair = build_certs().unwrap();
    assert!(!pair.cert_der().is_empty());
    assert!(!pair.key_der().is_empty());
    assert_eq!(pair.cert_der()[0], 0x30);
    assert_eq!(pair.key_der()[0], 0x30);
    let config = server_config(pair).ok().unwrap().into_config();
    assert_eq!(config.max_early_data_size, u32::MAX);
    assert_eq!(config.alpn_protocols, vec![b"h3".to_vec()]);
}

#[test]
fn garbage_key_is_refused() {
    let pair = build_certs().unwrap();
    let (cert, _key) = pair.into_parts();
    let bad = CertKeyPair::new(cert, vec![1, 2, 3]);
    assert!(matches!(server_config(bad), Err(CryptoError::InvalidKey)));
}

#[test]
fn load_crypto_generates_by_default() {
    let config = load_crypto(None).ok().unwrap().into_config();
    assert_eq!(config.max_early_data_size, u32::MAX);
    assert_eq!(config.alpn_protocols, vec![b"h3".to_vec()]);
}

#[test]
fn load_crypto_serves_the_given_pair() {
    let pair = build_certs().unwrap();
    let (cert, key) = pair.into_parts();
    let given = CertKeyPair::new(cert, key);
    assert!(load_crypto(Some(given)).is_ok());
    let pair = build_certs().unwrap();
    let (cert, _key) = pair.into_parts();
    let bad = CertKeyPair::new(cert, vec![0x30, 0x00]);
    assert!(matches!(load_crypto(Some(bad)), Err(CryptoError::InvalidKey)));
}
