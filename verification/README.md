# tonic_quic

QUIC and HTTP/3 transport support for gRPC channels and servers, written in
Verus. `src/` is the verified library:

- `uri`, `endpoint`, `transport`: the channel builder, its settings and laws
  (settings of different fields commute, the last write of a field wins),
  URI validation through `http`, user-agent validation, and the QUIC transport
  options applied through `quinn`.
- `quinn_setup`, `server_tls`: the quinn and rustls configurations together
  with the record of what was written into them; only the calls that write
  a configuration change its record.
- `quic_conn`: where a connection to a URI goes (host, port 443 by default,
  server name) and the client configuration every connection of a
  connector uses.
- `discover`: one step of the stream that turns endpoint changes into lazy
  connections.
- `quic_http`: the bytes of an outgoing request (header block, then body up
  to its end or failure) and the handling of response frames (data reaches a
  body only after a headers frame); request handles and their channels.
- `quicserver`: the accept loop and per-connection states of the server.
- `myserver`, `new_server`, `routes`: server builders, routers that route
  by service name (a name added without a service still captures its
  requests, and a path goes to the first route of the name it is addressed
  to), and the layers of each per-connection service.
- `crypto`: where the server certificate comes from, generated certificates
  (`rcgen`) and the TLS 1.3 configuration (`rustls`) with HTTP/3 ALPN.

`app/` holds the I/O around it: resolving and connecting (with the
connect timeout), reading certificate files, running a server with its
per-connection layers and shutdown signal, serving a router, and driving an
HTTP/3 connection.
