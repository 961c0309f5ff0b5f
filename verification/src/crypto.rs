use vstd::prelude::*;

pub use crate::server_tls::{single_cert_accepted, ClientAuth, ServerTls, TlsRecord, TlsVersions};

verus! {

/// The ALPN protocol id of HTTP/3.
pub open spec fn alpn_h3() -> Seq<u8> {
    seq![104u8, 51u8]
}

/// Errors while preparing the server's TLS configuration.
#[derive(Debug, Clone, Copy, PartialEq, Eq, Structural)]
pub enum CryptoError {
    /// Only one of the certificate path and the key path was given.
    MismatchedPaths,
    /// Generating a self-signed certificate failed.
    Generation,
    /// The private key was refused.
    InvalidKey,
}

impl CryptoError {
    /// The message reported for the error.
    pub fn message(&self) -> (r: &'static str)
        ensures
            r@ == match *self {
                CryptoError::MismatchedPaths => "cert and key args are mutually dependant"@,
                CryptoError::Generation => "could not generate a self-signed certificate"@,
                CryptoError::InvalidKey => "the private key was refused"@,
            },
    {
        match self {
            CryptoError::MismatchedPaths => "cert and key args are mutually dependant",
            CryptoError::Generation => "could not generate a self-signed certificate",
            CryptoError::InvalidKey => "the private key was refused",
        }
    }
}

/// A DER-encoded certificate and its DER-encoded private key, with the
/// subject names it was generated for (`None` when it was given, as read
/// from files).
pub struct CertKeyPair {
    cert_der: Vec<u8>,
    key_der: Vec<u8>,
    generated_for: Ghost<Option<Seq<Seq<char>>>>,
}

impl CertKeyPair {
    /// A certificate and key given as DER bytes.
    pub fn new(cert_der: Vec<u8>, key_der: Vec<u8>) -> (r: CertKeyPair)
        ensures
            r.cert() == cert_der@,
            r.key() == key_der@,
            r.generated_for() is None,
    {
        CertKeyPair { cert_der, key_der, generated_for: Ghost(None) }
    }

    /// The DER bytes of the certificate.
    pub closed spec fn cert(&self) -> Seq<u8> {
        self.cert_der@
    }

    /// The DER bytes of the private key.
    pub closed spec fn key(&self) -> Seq<u8> {
        self.key_der@
    }

    /// The subject names the certificate was generated for, if it was.
    pub closed spec fn generated_for(&self) -> Option<Seq<Seq<char>>> {
        self.generated_for@
    }

    /// The DER bytes of the certificate.
    pub fn cert_der(&self) -> (r: &Vec<u8>)
        ensures
            r@ == self.cert(),
    {
        &self.cert_der
    }

    /// The DER bytes of the private key.
    pub fn key_der(&self) -> (r: &Vec<u8>)
        ensures
            r@ == self.key(),
    {
        &self.key_der
    }

    /// The certificate and the key.
    pub fn into_parts(self) -> (r: (Vec<u8>, Vec<u8>))
        ensures
            r.0@ == self.cert(),
            r.1@ == self.key(),
    {
        (self.cert_der, self.key_der)
    }
}

/// The subject names of the generated certificate: `localhost` alone.
pub open spec fn generated_names() -> Seq<Seq<char>> {
    seq!["localhost"@]
}

/// A generated certificate names `localhost` and nothing else.
pub proof fn lemma_generated_names_are_localhost()
    ensures
        generated_names() == seq!["localhost"@],
        generated_names().len() == 1,
{
}

/// Where the server's certificate comes from.
pub enum CertSource {
    /// A self-signed certificate for `localhost` is generated.
    Generate,
    /// The certificate and the key are read from these files.
    Files { cert_path: String, key_path: String },
}

/// Chooses where the certificate comes from: generated when neither path is
/// given, read from the files when both are, and an error when only one is.
pub fn cert_source(cert_path: Option<String>, key_path: Option<String>) -> (r: Result<CertSource, CryptoError>)
    ensures
        match (cert_path, key_path) {
            (None, None) => r matches Ok(CertSource::Generate),
            (Some(c), Some(k)) => r matches Ok(CertSource::Files { cert_path: c2, key_path: k2 })
                && c2 == c && k2 == k,
            _ => r == Err::<CertSource, CryptoError>(CryptoError::MismatchedPaths),
        },
{
    match (cert_path, key_path) {
        (None, None) => Ok(CertSource::Generate),
        (Some(cert_path), Some(key_path)) => Ok(CertSource::Files { cert_path, key_path }),
        (_, _) => Err(CryptoError::MismatchedPaths),
    }
}

/// A DER encoding whose outermost element is a SEQUENCE (tag byte `0x30`).
pub open spec fn is_der_sequence(der: Seq<u8>) -> bool {
    der.len() > 0 && der[0] == 0x30
}

/// Calls `rcgen::generate_simple_self_signed` with a copy of `names` and, on
/// success, `serialize_der` and `serialize_private_key_der` on the
/// certificate; gives back the names the certificate was generated for.
/// Trusted: whatever the random key, both encodings are DER SEQUENCEs —
/// `serialize_der` writes the certificate with yasna's `write_sequence`, and
/// the private key is ring's PKCS#8 document for the default ECDSA P-256
/// algorithm, whose template starts with the SEQUENCE header. Whether
/// generation succeeds rests on the system's random source and is not stated,
/// nor is anything of the key beyond its encoding.
#[verifier::external_body]
fn self_signed_der<'a>(names: &'a Vec<String>) -> (r: (Option<(Vec<u8>, Vec<u8>)>, &'a Vec<String>))
    ensures
        r.1 == names,
        r.0 matches Some((cert, key)) ==> is_der_sequence(cert@) && is_der_sequence(key@),
{
    let der = match rcgen::generate_simple_self_signed(names.clone()) {
        Ok(cert) => match cert.serialize_der() {
            Ok(der) => Some((der, cert.serialize_private_key_der())),
            Err(_) => None,
        },
        Err(_) => None,
    };
    (der, names)
}

/// Generates a self-signed certificate for `localhost` and its private key,
/// both DER-encoded; fails with [`CryptoError::Generation`] when rcgen cannot
/// generate them.
pub fn build_certs() -> (r: Result<CertKeyPair, CryptoError>)
    ensures
        r is Err ==> r == Err::<CertKeyPair, CryptoError>(CryptoError::Generation),
        r matches Ok(pair) ==> is_der_sequence(pair.cert()) && is_der_sequence(pair.key())
            && pair.generated_for() == Some(generated_names())
            && pair.generated_for() == Some(seq!["localhost"@]),
{
    let mut names: Vec<String> = Vec::new();
    names.push("localhost".to_owned());
    proof {
        reveal_strlit("localhost");
        assert(names@.map_values(|n: String| n@) =~= generated_names());
    }
    let (der, used) = self_signed_der(&names);
    let ghost generated_for = used@.map_values(|n: String| n@);
    match der {
        Some((cert_der, key_der)) => Ok(CertKeyPair { cert_der, key_der, generated_for: Ghost(Some(generated_for)) }),
        None => Err(CryptoError::Generation),
    }
}

/// The TLS settings of an HTTP/3 server besides its certificate.
pub struct CryptoSettings {
    pub max_early_data_size: u32,
    pub alpn_protocols: Vec<Vec<u8>>,
}

/// Early data of any size is accepted, and HTTP/3 is the only ALPN protocol.
pub fn h3_crypto_settings() -> (r: CryptoSettings)
    ensures
        r.max_early_data_size == u32::MAX,
        r.alpn_protocols@.map_values(|p: Vec<u8>| p@) == seq![alpn_h3()],
        r.alpn_protocols@.len() == 1,
        r.alpn_protocols@[0]@ == seq![104u8, 51u8],
{
    let mut alpn: Vec<u8> = Vec::new();
    alpn.push(104u8);
    alpn.push(51u8);
    let mut protocols: Vec<Vec<u8>> = Vec::new();
    protocols.push(alpn);
    assert(protocols@[0]@ =~= alpn_h3());
    assert(protocols@.map_values(|p: Vec<u8>| p@) =~= seq![alpn_h3()]);
    CryptoSettings { max_early_data_size: u32::MAX, alpn_protocols: protocols }
}

/// The TLS configuration of an HTTP/3 server for a certificate and key: TLS
/// 1.3 only, no client certificate asked for, the single certificate served
/// with its key, early data of any size accepted, and HTTP/3 as the only
/// ALPN protocol; `generated_for` tells the names the certificate was
/// generated for, if it was.
pub open spec fn h3_tls_record(cert: Seq<u8>, key: Seq<u8>, generated_for: Option<Seq<Seq<char>>>) -> TlsRecord {
    TlsRecord {
        versions: TlsVersions::Tls13Only,
        client_auth: ClientAuth::NoClientAuth,
        cert_chain: seq![cert],
        key,
        max_early_data_size: Some(u32::MAX),
        alpn_protocols: Some(seq![alpn_h3()]),
        generated_for,
    }
}

/// The TLS configuration of an HTTP/3 server offers TLS 1.3 alone, asks no
/// client certificate, serves the one certificate given with its key,
/// accepts early data of any size, and offers `h3` as its only ALPN protocol.
pub proof fn lemma_h3_tls_record(cert: Seq<u8>, key: Seq<u8>, generated_for: Option<Seq<Seq<char>>>)
    ensures
        h3_tls_record(cert, key, generated_for).versions == TlsVersions::Tls13Only,
        h3_tls_record(cert, key, generated_for).client_auth == ClientAuth::NoClientAuth,
        h3_tls_record(cert, key, generated_for).cert_chain == seq![cert],
        h3_tls_record(cert, key, generated_for).key == key,
        h3_tls_record(cert, key, generated_for).max_early_data_size == Some(0xffff_ffffu32),
        h3_tls_record(cert, key, generated_for).alpn_protocols == Some(seq![seq![104u8, 51u8]]),
        h3_tls_record(cert, key, generated_for).generated_for == generated_for,
{
}

/// The server's TLS configuration for `pair` (see [`h3_tls_record`]); fails
/// with [`CryptoError::InvalidKey`] exactly when the key is refused.
pub fn server_config(pair: CertKeyPair) -> (r: Result<ServerTls, CryptoError>)
    ensures
        r is Ok <==> single_cert_accepted(pair.cert(), pair.key()),
        r is Err ==> r == Err::<ServerTls, CryptoError>(CryptoError::InvalidKey),
        r matches Ok(t) ==> t.record() == h3_tls_record(pair.cert(), pair.key(), pair.generated_for()),
{
    match ServerTls::single_cert(TlsVersions::Tls13Only, ClientAuth::NoClientAuth, pair) {
        Some(config) => {
            let mut config = config;
            let settings = h3_crypto_settings();
            config.set_max_early_data_size(settings.max_early_data_size);
            config.set_alpn_protocols(settings.alpn_protocols);
            Ok(config)
        },
        None => Err(CryptoError::InvalidKey),
    }
}

/// The server's TLS configuration, for the certificate and key read from
/// files when they are given, and for a certificate generated for
/// `localhost` otherwise. Fails with [`CryptoError::Generation`] when
/// generating fails, and with [`CryptoError::InvalidKey`] exactly when the key
/// is refused.
pub fn load_crypto(files: Option<CertKeyPair>) -> (r: Result<ServerTls, CryptoError>)
    ensures
        match files {
            Some(pair) => {
                &&& (r is Ok <==> single_cert_accepted(pair.cert(), pair.key()))
                &&& (r is Err ==> r == Err::<ServerTls, CryptoError>(CryptoError::InvalidKey))
                &&& (r matches Ok(t) ==> t.record() == h3_tls_record(pair.cert(), pair.key(), pair.generated_for()))
            },
            None => {
                &&& (r is Err ==> r == Err::<ServerTls, CryptoError>(CryptoError::Generation)
                    || r == Err::<ServerTls, CryptoError>(CryptoError::InvalidKey))
                &&& (r == Err::<ServerTls, CryptoError>(CryptoError::InvalidKey) ==> exists|c: Seq<u8>, k: Seq<u8>|
                    is_der_sequence(c) && is_der_sequence(k) && !#[trigger] single_cert_accepted(c, k))
                &&& (r matches Ok(t) ==> t.record() == h3_tls_record(t.record().cert_chain[0], t.record().key, Some(generated_names()))
                    && t.record().generated_for == Some(seq!["localhost"@])
                    && is_der_sequence(t.record().cert_chain[0]) && is_der_sequence(t.record().key)
                    && single_cert_accepted(t.record().cert_chain[0], t.record().key))
            },
        },
{
    let pair = match files {
        Some(pair) => pair,
        None => match build_certs() {
            Ok(pair) => pair,
            Err(e) => return Err(e),
        },
    };
    let ghost (c, k) = (pair.cert(), pair.key());
    let r = server_config(pair);
    assert(r is Err ==> !single_cert_accepted(c, k));
    r
}

} // verus!
