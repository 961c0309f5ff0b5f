//! QUIC / HTTP/3 transport support for gRPC channels and servers: endpoint
//! configuration, connection targets, service discovery steps, HTTP/3 request
//! framing decisions, server accept-loop states and TLS settings.

pub mod error;
pub mod uri;
pub mod endpoint;
pub mod transport;
pub mod quinn_setup;
pub mod quic_conn;
pub mod discover;
pub mod quic_http;
pub mod quicserver;
pub mod sealed;
pub mod routes;
pub mod myserver;
pub mod new_server;
pub mod crypto;
pub mod server_tls;
