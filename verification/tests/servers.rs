use std::time::Duration;

use tonic_quic::myserver::MyServer;
use tonic_quic::new_server::{NewServer, ServiceLayer};
use tonic_quic::routes::{path_names_service, NamedService, Routes};

#[derive(Clone, Debug, PartialEq)]
struct Greeter(u8);

impl NamedService for Greeter {
    const NAME: &'static str = "helloworld.Greeter";
}

#[derive(Clone, Debug, PartialEq)]
struct Echo(u8);

impl NamedService for Echo {
    const NAME: &'static str = "grpc.examples.echo.Echo";
}

#[test]
fn default_layers() {
    let server = NewServer::builder();
    let layers = server.make_svc(()).layers();
    assert_eq!(layers.len(), 4);
    assert!(matches!(layers[0], ServiceLayer::BoxService));
    assert!(matches!(layers[1], ServiceLayer::Trace { intercepted: false }));
    assert!(matches!(layers[2], ServiceLayer::RecoverError));
    assert!(matches!(layers[3], ServiceLayer::GrpcTimeout(None)));
}

#[test]
fn limits_and_interceptor_become_layers() {
    let server = NewServer::builder()
        .concurrency_limit_per_connection(32)
        .timeout(Duration::from_secs(30))
        .trace_fn(|_req: &http::Request<()>| tracing::Span::none());
    let svc = server.make_svc(5u8);
    assert_eq!(*svc.inner_service(), 5u8);
    assert!(svc.trace_interceptor().is_some());
    let layers = svc.layers();
    assert_eq!(layers.len(), 5);
    assert!(matches!(layers[1], ServiceLayer::Trace { intercepted: true }));
    assert!(matches!(layers[3], ServiceLayer::ConcurrencyLimit(32)));
    assert!(matches!(layers[4], ServiceLayer::GrpcTimeout(Some(d)) if d == Duration::from_secs(30)));
}

#[test]
fn a_layer_keeps_the_settings() {
    let server = NewServer::builder()
        .concurrency_limit_per_connection(8)
        .layer(tower::layer::util::Identity::new());
    let layers = server.make_svc(()).layers();
    assert!(matches!(layers[3], ServiceLayer::ConcurrencyLimit(8)));
}

#[test]
fn later_limit_wins() {
    let server = NewServer::builder()
        .concurrency_limit_per_connection(1)
        .concurrency_limit_per_connection(2);
    let layers = server.make_svc(()).layers();
    assert!(matches!(layers[3], ServiceLayer::ConcurrencyLimit(2)));
}

#[test]
fn new_router_adds_services() {
    let mut server = NewServer::builder().timeout(Duration::from_secs(1));
    let router = server
        .add_service(Greeter(1))
        .add_service(Greeter(2))
        .add_optional_service(None)
        .add_optional_service(Some(Greeter(3)));
    assert_eq!(router.routed().len(), 4);
    let entries = router.routed().entries();
    assert!(entries.iter().all(|r| r.name == "helloworld.Greeter"));
    assert_eq!(entries[0].service, Some(Greeter(1)));
    assert_eq!(entries[1].service, Some(Greeter(2)));
    assert_eq!(entries[2].service, None);
    assert_eq!(entries[3].service, Some(Greeter(3)));
    let layers = router.server_settings().make_svc(()).layers();
    assert!(matches!(layers[3], ServiceLayer::GrpcTimeout(Some(d)) if d == Duration::from_secs(1)));
}

#[test]
fn optional_service_none_captures_its_name() {
    let mut server = NewServer::builder();
    let router = server.add_optional_service::<Echo>(None);
    assert_eq!(router.routed().len(), 1);
    assert_eq!(router.routed().entries()[0].name, "grpc.examples.echo.Echo");
    assert_eq!(router.routed().entries()[0].service, None);
    let router = router.add_optional_service(None);
    assert_eq!(router.routed().len(), 2);
    assert_eq!(router.routed().entries()[1].name, "grpc.examples.echo.Echo");
    assert!(router.routed().entries()[1].service.is_none());

    let mut server = MyServer::builder();
    let router = server.add_optional_service::<Greeter>(None);
    assert_eq!(router.routed().len(), 1);
    assert_eq!(router.routed().entries()[0].name, "helloworld.Greeter");
    assert!(router.routed().entries()[0].service.is_none());
}

#[test]
fn my_server_routes() {
    let mut server = MyServer::default().concurrency_limit_per_connection(4).timeout(Duration::from_secs(2));
    let router = server.add_service(Greeter(1));
    assert_eq!(router.routed().len(), 1);
    assert_eq!(router.routed().entries()[0].name, "helloworld.Greeter");
    assert_eq!(router.routed().entries()[0].service, Some(Greeter(1)));
    let router = server.add_optional_service(Some(Echo(2)));
    assert_eq!(router.routed().len(), 1);
    assert_eq!(router.routed().entries()[0].name, "grpc.examples.echo.Echo");
    assert_eq!(router.routed().entries()[0].service, Some(Echo(2)));
    let _traced = MyServer::builder()
        .trace_fn(|_req: &http::Request<()>| tracing::Span::none())
        .layer(tower::layer::util::Identity::new());
}

#[test]
fn routes_grow_in_order() {
    let r = Routes::new(Greeter(1)).add_service(Greeter(2)).add_optional_service(None);
    assert_eq!(r.len(), 3);
    assert_eq!(r.entries()[0].service, Some(Greeter(1)));
    assert_eq!(r.entries()[1].service, Some(Greeter(2)));
    assert_eq!(r.entries()[2].service, None);
    assert_eq!(r.entries()[2].name, "helloworld.Greeter");
    assert_eq!(Routes::<Greeter>::empty().len(), 0);
}

#[test]
fn default_new_server_has_no_settings() {
    let layers = NewServer::default().make_svc(()).layers();
    assert_eq!(layers.len(), 4);
    assert!(matches!(layers[3], ServiceLayer::GrpcTimeout(None)));
}

#[test]
fn paths_name_their_service() {
    assert!(path_names_service(b"/helloworld.Greeter/SayHello", b"helloworld.Greeter"));
    assert!(path_names_service(b"/helloworld.Greeter/", b"helloworld.Greeter"));
    assert!(!path_names_service(b"/helloworld.Greeter", b"helloworld.Greeter"));
    assert!(!path_names_service(b"/helloworld.GreeterX/SayHello", b"helloworld.Greeter"));
    assert!(!path_names_service(b"helloworld.Greeter/SayHello/", b"helloworld.Greeter"));
    assert!(!path_names_service(b"", b""));
}

#[test]
fn lookup_finds_the_first_route_of_a_name() {
    let routes = Routes::new(Greeter(1)).add_optional_service(None::<Greeter>);
    assert_eq!(routes.lookup("/helloworld.Greeter/SayHello"), Some(0));
    assert_eq!(routes.lookup("/grpc.examples.echo.Echo/Echo"), None);
    let captured = Routes::<Echo>::empty().add_optional_service(None).add_service(Echo(7));
    assert_eq!(captured.lookup("/grpc.examples.echo.Echo/UnaryEcho"), Some(0));
    assert!(captured.entries()[0].service.is_none());
    assert_eq!(captured.lookup("/other/UnaryEcho"), None);
}
