use vstd::prelude::*;

use crate::endpoint::Endpoint;
use crate::transport::{transport_plan, ClientSetup};
use crate::uri::Uri;

verus! {

/// Port used when the URI names none.
pub const DEFAULT_PORT: u16 = 443;

/// Makes QUIC connections to URIs, with an optional client configuration
/// (`None` stands for the default configuration trusting the native roots).
/// Every connection uses the same configuration.
pub struct QuicConnector {
    config: Option<ClientSetup>,
}

/// Where a connection to a URI goes: the host to resolve, the port, and the
/// server name to present during the handshake.
pub struct ConnectTarget {
    pub host: String,
    pub port: u16,
    pub server_name: String,
}

/// The server name presented for a URI: its host, or `"Unknown"` without one.
pub open spec fn server_name_of(host: Option<Seq<char>>) -> Seq<char> {
    match host {
        Some(h) => h,
        None => "Unknown"@,
    }
}

/// The port connected to for a URI: its own, or 443.
pub open spec fn port_of(port: Option<u16>) -> u16 {
    match port {
        Some(p) => p,
        None => 443,
    }
}

/// A connection goes to the URI's own port, and to 443 (the HTTPS port)
/// when the URI names none; it presents the URI's host as the server name.
pub proof fn lemma_connect_target_defaults(port: Option<u16>, host: Seq<char>)
    ensures
        port is None ==> port_of(port) == 443,
        port matches Some(p) ==> port_of(port) == p,
        server_name_of(Some(host)) == host,
{
}

impl QuicConnector {
    /// A connector with the given client configuration; `None` means the
    /// default configuration.
    pub fn new(config: Option<ClientSetup>) -> (r: QuicConnector)
        ensures
            r.config() == config,
    {
        QuicConnector { config }
    }

    /// The configuration every connection uses, if one was given.
    pub closed spec fn config(&self) -> Option<ClientSetup> {
        self.config
    }

    /// Whether a configuration was given.
    pub fn has_config(&self) -> (r: bool)
        ensures
            r == self.config() is Some,
    {
        self.config.is_some()
    }

    /// The configuration for a new connection, if one was given; it stays with
    /// the connector for the connections after it.
    pub fn connection_config(&self) -> (r: Option<&ClientSetup>)
        ensures
            match r {
                Some(c) => self.config() == Some(*c),
                None => self.config() is None,
            },
    {
        match &self.config {
            Some(c) => Some(c),
            None => None,
        }
    }

    /// The target of a connection to `req`: its authority's host and port
    /// (443 when it names none), and its host as the server name.
    /// A URI without an authority cannot be connected to.
    pub fn connect_target(req: &Uri) -> (r: ConnectTarget)
        requires
            req@.has_authority,
        ensures
            req@.host == Some(r.host@),
            r.server_name@ == server_name_of(req@.host),
            r.port == port_of(req@.port),
            req@.port is None ==> r.port == 443,
            req@.port matches Some(p) ==> r.port == p,
    {
        let has_authority = req.has_authority();
        let host = match req.host() {
            Some(h) => h.to_owned(),
            None => "Unknown".to_owned(),
        };
        let name = host.clone();
        let port = match req.port_u16() {
            Some(p) => p,
            None => DEFAULT_PORT,
        };
        proof {
            assert(has_authority);
            reveal_strlit("Unknown");
        }
        ConnectTarget { host, port, server_name: name }
    }
}

impl Endpoint {
    /// The connector a channel to this endpoint uses: `roots` (a client
    /// configuration trusting the native roots) with this endpoint's QUIC
    /// version, when it sets one, and its transport options applied.
    pub fn quic_connector(&self, roots: quinn::ClientConfig) -> (r: QuicConnector)
        ensures
            r.config() matches Some(c) && c.base() == roots && c.version() == self@.quic_version
                && c.transport() == Some(transport_plan(self@)),
    {
        let mut config = ClientSetup::new(roots);
        self.configure_client(&mut config);
        QuicConnector::new(Some(config))
    }
}

} // verus!
