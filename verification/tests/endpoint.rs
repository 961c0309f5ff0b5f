use std::time::Duration;

use tonic_quic::endpoint::Endpoint;
use tonic_quic::error::Error;
use tonic_quic::quic_conn::QuicConnector;
use tonic_quic::transport::TransportOption;
use tonic_quic::uri::{is_header_value_str, Uri};

#[test]
fn from_shared_reads_the_authority() {
    let ep = Endpoint::from_shared(b"https://example.com").unwrap();
    let uri = ep.uri();
    assert_eq!(uri.as_str(), "https://example.com/");
    assert_eq!(uri.host(), Some("example.com"));
    assert_eq!(uri.port_u16(), None);
    assert!(uri.has_authority());
}

#[test]
fn from_shared_reads_an_explicit_port() {
    let ep = Endpoint::from_shared(b"http://localhost:50051").unwrap();
    assert_eq!(ep.uri().host(), Some("localhost"));
    assert_eq!(ep.uri().port_u16(), Some(50051));
}

#[test]
fn from_shared_refuses_invalid_uris() {
    assert!(matches!(Endpoint::from_shared(b"not a uri"), Err(Error::InvalidUri)));
    assert!(matches!(Endpoint::from_shared(b""), Err(Error::InvalidUri)));
}

#[test]
fn new_parses_text() {
    let ep = Endpoint::new("https://[::1]:4433").unwrap();
    assert_eq!(ep.uri().host(), Some("[::1]"));
    assert_eq!(ep.uri().port_u16(), Some(4433));
    assert!(matches!(Endpoint::new("http://exa mple.com"), Err(Error::Transport)));
    assert!(matches!(Endpoint::new(""), Err(Error::Transport)));
}

#[test]
fn from_static_and_try_from_static() {
    let ep = Endpoint::from_static("https://example.com");
    assert_eq!(ep.uri().host(), Some("example.com"));
    assert!(Endpoint::try_from_static("https://proxy.com").is_some());
    assert!(Endpoint::try_from_static("a b").is_none());
}

#[test]
fn relative_uri_has_no_authority() {
    let ep = Endpoint::from_shared(b"/path/only").unwrap();
    assert!(!ep.uri().has_authority());
    assert_eq!(ep.uri().host(), None);
}

#[test]
fn user_agent_accepts_header_values() {
    let ep = Endpoint::from_static("https://example.com");
    assert!(ep.user_agent("Greeter").is_ok());
    let ep = Endpoint::from_static("https://example.com");
    assert!(ep.user_agent("Greeter\tv1").is_ok());
    let ep = Endpoint::from_static("https://example.com");
    assert!(ep.user_agent("caf\u{e9}").is_ok());
}

#[test]
fn user_agent_refuses_control_characters() {
    let ep = Endpoint::from_static("https://example.com");
    assert!(matches!(ep.user_agent("bad\nagent"), Err(Error::InvalidUserAgent)));
    let ep = Endpoint::from_static("https://example.com");
    assert!(matches!(ep.user_agent("del\u{7f}"), Err(Error::InvalidUserAgent)));
}

#[test]
fn default_transport_plan_only_sets_keep_alive() {
    let ep = Endpoint::from_static("https://example.com");
    let opts = ep.transport_options();
    assert_eq!(opts.len(), 1);
    assert!(matches!(opts[0], TransportOption::KeepAliveInterval(None)));
}

#[test]
fn transport_plan_follows_settings_in_order() {
    let ep = Endpoint::from_static("https://example.com")
        .quic_send_window(7)
        .quic_max_concurrent_bidi_streams(10)
        .quic_keep_alive_interval(Duration::from_secs(3))
        .quic_receive_window(5);
    let opts = ep.transport_options();
    assert_eq!(opts.len(), 4);
    assert!(matches!(opts[0], TransportOption::KeepAliveInterval(Some(d)) if d == Duration::from_secs(3)));
    assert!(matches!(opts[1], TransportOption::MaxConcurrentBidiStreams(10)));
    assert!(matches!(opts[2], TransportOption::ReceiveWindow(5)));
    assert!(matches!(opts[3], TransportOption::SendWindow(7)));
}

#[test]
fn transport_plan_has_every_limit() {
    let ep = Endpoint::from_static("https://example.com")
        .quic_max_concurrent_uni_streams(2)
        .quic_stream_receive_window(3)
        .quic_max_concurrent_bidi_streams(1)
        .quic_receive_window(4)
        .quic_send_window(5);
    let opts = ep.transport_options();
    assert_eq!(opts.len(), 6);
    assert!(matches!(opts[1], TransportOption::MaxConcurrentBidiStreams(1)));
    assert!(matches!(opts[2], TransportOption::MaxConcurrentUniStreams(2)));
    assert!(matches!(opts[3], TransportOption::StreamReceiveWindow(3)));
    assert!(matches!(opts[4], TransportOption::ReceiveWindow(4)));
    assert!(matches!(opts[5], TransportOption::SendWindow(5)));
}

#[test]
fn later_setting_of_a_field_wins() {
    let ep = Endpoint::from_static("https://example.com")
        .quic_send_window(1)
        .quic_send_window(2);
    let opts = ep.transport_options();
    assert_eq!(opts.len(), 2);
    assert!(matches!(opts[1], TransportOption::SendWindow(2)));
}

#[test]
fn settings_of_other_fields_keep_the_uri_and_transport() {
    let origin = Endpoint::from_static("https://proxy.com").uri().as_str().to_string();
    let ep = Endpoint::from_static("https://example.com")
        .timeout(Duration::from_secs(5))
        .connect_timeout(Duration::from_secs(1))
        .concurrency_limit(256)
        .rate_limit(32, Duration::from_secs(1))
        .quic_version(1)
        .origin(Uri::parse(b"https://proxy.com").unwrap());
    assert_eq!(ep.uri().host(), Some("example.com"));
    assert_eq!(origin, "https://proxy.com/");
    assert_eq!(ep.transport_options().len(), 1);
}

#[test]
fn quic_connector_holds_the_configured_client() {
    let ep = Endpoint::from_static("https://example.com").quic_version(1).quic_receive_window(1000);
    let roots = quinn::ClientConfig::with_root_certificates(rustls::RootCertStore::empty());
    let connector = ep.quic_connector(roots);
    assert!(connector.has_config());
    assert!(connector.connection_config().is_some());
    assert!(connector.connection_config().is_some());
    assert!(connector.has_config());
}

#[test]
fn connector_without_config() {
    let connector = QuicConnector::new(None);
    assert!(!connector.has_config());
}

#[test]
fn connect_target_defaults_to_port_443() {
    let ep = Endpoint::from_static("https://example.com");
    let t = QuicConnector::connect_target(ep.uri());
    assert_eq!(t.host, "example.com");
    assert_eq!(t.server_name, "example.com");
    assert_eq!(t.port, 443);
}

#[test]
fn connect_target_uses_the_uri_port() {
    let ep = Endpoint::from_static("http://127.0.0.1:4433/svc");
    let t = QuicConnector::connect_target(ep.uri());
    assert_eq!(t.host, "127.0.0.1");
    assert_eq!(t.server_name, "127.0.0.1");
    assert_eq!(t.port, 4433);
}

#[test]
fn settings_of_different_fields_commute() {
    let a = Endpoint::from_static("https://example.com").quic_send_window(1).quic_receive_window(2);
    let b = Endpoint::from_static("https://example.com").quic_receive_window(2).quic_send_window(1);
    let (oa, ob) = (a.transport_options(), b.transport_options());
    assert_eq!(oa.len(), ob.len());
    assert!(matches!((&oa[1], &ob[1]), (TransportOption::ReceiveWindow(2), TransportOption::ReceiveWindow(2))));
    assert!(matches!((&oa[2], &ob[2]), (TransportOption::SendWindow(1), TransportOption::SendWindow(1))));
}

#[test]
fn cloned_endpoint_keeps_its_settings() {
    let a = Endpoint::from_static("https://example.com:9000").quic_max_concurrent_uni_streams(3);
    let b = a.clone();
    assert_eq!(b.uri().port_u16(), Some(9000));
    assert_eq!(b.uri().as_str(), a.uri().as_str());
    assert!(matches!(b.transport_options()[1], TransportOption::MaxConcurrentUniStreams(3)));
}

#[test]
fn error_descriptions() {
    assert_eq!(Error::InvalidUri.description(), "invalid URI");
    assert_eq!(Error::InvalidUserAgent.description(), "user agent is not a valid header value");
    assert_eq!(Error::Transport.description(), "transport error");
}

#[test]
fn transport_config_applies_the_plan() {
    let ep = Endpoint::from_static("https://example.com").quic_max_concurrent_bidi_streams(3);
    let _config: quinn::TransportConfig = ep.transport_config().into_config();
    let mut setup = tonic_quic::transport::ClientSetup::new(quinn::ClientConfig::with_root_certificates(
        rustls::RootCertStore::empty(),
    ));
    ep.configure_client(&mut setup);
    let _client: &quinn::ClientConfig = setup.client_config();
}

#[test]
fn endpoint_parses_from_text() {
    let e: Endpoint = "https://example.com:4433".parse().ok().unwrap();
    assert_eq!(e.uri().as_str(), "https://example.com:4433/");
    assert!(matches!("http://[::1".parse::<Endpoint>(), Err(Error::InvalidUri)));
}

#[test]
fn header_value_check_agrees_with_http() {
    for s in ["grpc-client/1.0", "tab\there", "bad\nline", "del\u{7f}", "", "caf\u{e9}", "nul\0"] {
        assert_eq!(is_header_value_str(s), http::HeaderValue::from_str(s).is_ok(), "{s:?}");
    }
    assert!(is_header_value_str("tab\there"));
    assert!(!is_header_value_str("bad\nline"));
}

#[test]
fn endpoint_from_empty_text_is_invalid() {
    assert!(matches!("".parse::<Endpoint>(), Err(Error::InvalidUri)));
    assert!(matches!(Endpoint::try_from(String::new()), Err(Error::InvalidUri)));
    assert!(matches!(Endpoint::try_from(""), Err(Error::InvalidUri)));
    assert!(matches!(Endpoint::from_shared(b""), Err(Error::InvalidUri)));
}

#[test]
fn endpoint_try_from_strings() {
    let e = Endpoint::try_from(String::from("https://example.com")).ok().unwrap();
    assert_eq!(e.uri().as_str(), "https://example.com/");
    let e = Endpoint::try_from("http://localhost:50051").ok().unwrap();
    assert_eq!(e.uri().port_u16(), Some(50051));
}

#[test]
fn custom_user_agent_comes_before_the_default() {
    let e = Endpoint::from_static("http://localhost").user_agent("Greeter").ok().unwrap();
    assert_eq!(e.user_agent_header("tonic/0.1.0"), "Greeter tonic/0.1.0");
    let plain = Endpoint::from_static("http://localhost");
    assert_eq!(plain.user_agent_header("tonic/0.1.0"), "tonic/0.1.0");
}
