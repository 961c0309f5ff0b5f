use vstd::prelude::*;

use crate::crypto::CertKeyPair;

verus! {

#[verifier::external_type_specification]
#[verifier::external_body]
pub struct ExServerConfig(rustls::ServerConfig);

/// Whether `rustls` accepts `key` as the private key of the single-certificate
/// chain `cert` (`ConfigBuilder::with_single_cert` succeeds).
pub uninterp spec fn single_cert_accepted(cert: Seq<u8>, key: Seq<u8>) -> bool;

/// The TLS protocol versions a server offers.
#[derive(Clone, Copy, PartialEq, Eq, Structural, Debug)]
pub enum TlsVersions {
    /// TLS 1.3 alone.
    Tls13Only,
}

/// Whether a server asks clients for certificates.
#[derive(Clone, Copy, PartialEq, Eq, Structural, Debug)]
pub enum ClientAuth {
    /// No client certificate is asked for.
    NoClientAuth,
}

/// Builds a `rustls::ServerConfig` with `ServerConfig::builder()`,
/// `with_safe_default_cipher_suites`, `with_safe_default_kx_groups`,
/// `with_protocol_versions` for `versions`, the client authentication of
/// `auth`, and `with_single_cert(vec![Certificate(cert)], PrivateKey(key))`,
/// giving `None` on an error. Trusted: it fails exactly when
/// `with_single_cert` refuses the key (TLS 1.3 is accepted, as the default
/// suites include TLS 1.3 ones); nothing else is stated of the opaque
/// configuration.
#[verifier::external_body]
fn single_cert_config(versions: TlsVersions, auth: ClientAuth, cert: Vec<u8>, key: Vec<u8>) -> (r: Option<rustls::ServerConfig>)
    ensures
        r is Some <==> single_cert_accepted(cert@, key@),
{
    let versions: &[&'static rustls::SupportedProtocolVersion] = match versions {
        TlsVersions::Tls13Only => &[&rustls::version::TLS13],
    };
    let builder = rustls::ServerConfig::builder().with_safe_default_cipher_suites()
        .with_safe_default_kx_groups().with_protocol_versions(versions).ok()?;
    let builder = match auth {
        ClientAuth::NoClientAuth => builder.with_no_client_auth(),
    };
    builder.with_single_cert(vec![rustls::Certificate(cert)], rustls::PrivateKey(key)).ok()
}

/// What the library built a server TLS configuration from and wrote into it.
pub struct TlsRecord {
    pub versions: TlsVersions,
    pub client_auth: ClientAuth,
    pub cert_chain: Seq<Seq<u8>>,
    pub key: Seq<u8>,
    /// The early-data limit written, if one was.
    pub max_early_data_size: Option<u32>,
    /// The ALPN protocols written, if they were.
    pub alpn_protocols: Option<Seq<Seq<u8>>>,
    /// The subject names the served certificate was generated for (`None`
    /// when it was given).
    pub generated_for: Option<Seq<Seq<char>>>,
}

/// A `rustls` server configuration with the record of how it was built. The
/// record changes only with the calls that write the configuration.
pub struct ServerTls {
    config: rustls::ServerConfig,
    record: Ghost<TlsRecord>,
}

impl ServerTls {
    /// How the configuration was built.
    pub closed spec fn record(&self) -> TlsRecord {
        self.record@
    }

    /// The `rustls` configuration itself.
    pub closed spec fn config(&self) -> rustls::ServerConfig {
        self.config
    }

    /// A configuration offering `versions`, with the client authentication of
    /// `auth`, serving the single certificate of `pair` with its key; `None`
    /// exactly when the key is refused.
    pub fn single_cert(versions: TlsVersions, auth: ClientAuth, pair: CertKeyPair) -> (r: Option<ServerTls>)
        ensures
            r is Some <==> single_cert_accepted(pair.cert(), pair.key()),
            r matches Some(t) ==> t.record() == (TlsRecord {
                versions,
                client_auth: auth,
                cert_chain: seq![pair.cert()],
                key: pair.key(),
                max_early_data_size: None,
                alpn_protocols: None,
                generated_for: pair.generated_for(),
            }),
    {
        let ghost record = TlsRecord {
            versions,
            client_auth: auth,
            cert_chain: seq![pair.cert()],
            key: pair.key(),
            max_early_data_size: None,
            alpn_protocols: None,
            generated_for: pair.generated_for(),
        };
        let (cert, key) = pair.into_parts();
        match single_cert_config(versions, auth, cert, key) {
            Some(config) => Some(ServerTls { config, record: Ghost(record) }),
            None => None,
        }
    }

    /// Writes `size` into the public `max_early_data_size` field of the
    /// `rustls::ServerConfig`. Trusted: the limit is recorded, and nothing
    /// else changes.
    #[verifier::external_body]
    pub(crate) fn set_max_early_data_size(&mut self, size: u32)
        ensures
            final(self).record() == (TlsRecord { max_early_data_size: Some(size), ..old(self).record() }),
    {
        self.config.max_early_data_size = size;
    }

    /// Writes `protocols` into the public `alpn_protocols` field of the
    /// `rustls::ServerConfig`. Trusted: the protocols are recorded, and
    /// nothing else changes.
    #[verifier::external_body]
    pub(crate) fn set_alpn_protocols(&mut self, protocols: Vec<Vec<u8>>)
        ensures
            final(self).record() == (TlsRecord {
                alpn_protocols: Some(protocols@.map_values(|p: Vec<u8>| p@)),
                ..old(self).record()
            }),
    {
        self.config.alpn_protocols = protocols;
    }

    /// The `rustls` configuration.
    pub fn into_config(self) -> (r: rustls::ServerConfig)
        ensures
            r == self.config(),
    {
        self.config
    }
}

} // verus!
