use std::sync::Arc;

use tonic_quic::crypto::{build_certs, server_config};
use tonic_quic::quicserver::{AcceptInput, AcceptPoll, QuicServer, State};

fn runtime() -> tokio::runtime::Runtime {
    tokio::runtime::Builder::new_current_thread().enable_all().build().unwrap()
}

fn server_endpoint(cert: Vec<u8>, key: Vec<u8>) -> (quinn::Endpoint, quinn::Incoming) {
    let pair = tonic_quic::crypto::CertKeyPair::new(cert, key);
    let tls = server_config(pair).ok().unwrap().into_config();
    let config = quinn::ServerConfig::with_crypto(Arc::new(tls));
    quinn::Endpoint::server(config, "127.0.0.1:0".parse().unwrap()).unwrap()
}

#[test]
fn accept_loop_without_connections() {
    runtime().block_on(async {
        let pair = build_certs().unwrap();
        let (_ep, incoming) = { let (cert, key) = pair.into_parts(); server_endpoint(cert, key) };
        let mut server: QuicServer<(), ()> = QuicServer::builder(incoming).serve(());
        assert!(matches!(server.state_mut(), State::Idle));
        assert!(matches!(server.poll_next(AcceptInput::MakeServicePending), AcceptPoll::Pending));
        assert!(matches!(server.poll_next(AcceptInput::MakeServiceFailed), AcceptPoll::Failed));
        assert!(matches!(server.poll_next(AcceptInput::IncomingPending), AcceptPoll::Pending));
        assert!(matches!(server.poll_next(AcceptInput::IncomingClosed), AcceptPoll::Finished));
        assert!(matches!(server.state_mut(), State::Idle));
    });
}
