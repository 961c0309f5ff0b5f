use std::time::Duration;
use tower::layer::util::{Identity, Stack};
use tower::ServiceBuilder;
use vstd::prelude::*;

use crate::routes::{route_of, NamedService, Routes};

verus! {

#[verifier::external_type_specification]
#[verifier::external_body]
#[verifier::reject_recursive_types(L)]
pub struct ExServiceBuilder<L>(tower::ServiceBuilder<L>);

#[verifier::external_type_specification]
#[verifier::external_body]
pub struct ExIdentity(tower::layer::util::Identity);

#[verifier::external_type_specification]
#[verifier::external_body]
#[verifier::reject_recursive_types(Inner)]
#[verifier::reject_recursive_types(Outer)]
pub struct ExStack<Inner, Outer>(tower::layer::util::Stack<Inner, Outer>);

#[verifier::external_type_specification]
#[verifier::external_body]
#[verifier::reject_recursive_types(T)]
pub struct ExRequest<T>(http::Request<T>);

#[verifier::external_type_specification]
#[verifier::external_body]
pub struct ExSpan(tracing::Span);

/// The absence of a trace interceptor.
#[derive(Clone, Copy)]
pub struct NoTrace {}

/// Calls `tower::ServiceBuilder::new()`, an empty stack of layers; nothing is
/// stated of the opaque builder.
#[verifier::external_body]
pub(crate) fn new_service_builder() -> ServiceBuilder<Identity> {
    ServiceBuilder::new()
}

/// Calls `tower::ServiceBuilder::layer`, which puts `layer` on top of the
/// stack; nothing is stated of the opaque builder.
#[verifier::external_body]
pub(crate) fn push_layer<L, T>(builder: ServiceBuilder<L>, layer: T) -> ServiceBuilder<Stack<T, L>> {
    builder.layer(layer)
}

/// Calls `Clone::clone` on a `tower::ServiceBuilder` (its derived `Clone`,
/// which clones the stack of layers). Trusted: the result is that clone.
#[verifier::external_body]
pub(crate) fn clone_service_builder<L: Clone>(builder: &ServiceBuilder<L>) -> (r: ServiceBuilder<L>)
    ensures
        cloned(*builder, r),
{
    builder.clone()
}

/// Whether `copy` holds a clone of the interceptor `orig` holds, and none
/// when it holds none.
pub open spec fn interceptor_cloned<T: Clone>(orig: Option<T>, copy: Option<T>) -> bool {
    match (orig, copy) {
        (Some(a), Some(b)) => cloned(a, b),
        (None, None) => true,
        _ => false,
    }
}

/// A server builder: the settings applied to every connection, and the layers
/// every service is wrapped in. `T` is the type of the trace interceptor, a
/// function from the headers of an inbound request to a tracing span.
#[verifier::reject_recursive_types(L)]
pub struct MyServer<L, T> {
    trace_interceptor: Option<T>,
    concurrency_limit: Option<usize>,
    timeout: Option<Duration>,
    service_builder: ServiceBuilder<L>,
}

/// The settings of a server builder.
pub struct ServerView<T> {
    pub trace_interceptor: Option<T>,
    pub concurrency_limit: Option<usize>,
    pub timeout: Option<Duration>,
}

impl<T> ServerView<T> {
    /// No settings.
    pub open spec fn empty() -> ServerView<T> {
        ServerView { trace_interceptor: None, concurrency_limit: None, timeout: None }
    }
}

impl<L, T> View for MyServer<L, T> {
    type V = ServerView<T>;

    closed spec fn view(&self) -> ServerView<T> {
        ServerView {
            trace_interceptor: self.trace_interceptor,
            concurrency_limit: self.concurrency_limit,
            timeout: self.timeout,
        }
    }
}

impl Default for MyServer<Identity, NoTrace> {
    fn default() -> (r: Self)
        ensures
            r@ == ServerView::<NoTrace>::empty(),
    {
        MyServer::builder()
    }
}

impl MyServer<Identity, NoTrace> {
    /// A builder with no settings and no layers.
    pub fn builder() -> (r: MyServer<Identity, NoTrace>)
        ensures
            r@ == ServerView::<NoTrace>::empty(),
    {
        MyServer {
            trace_interceptor: None,
            concurrency_limit: None,
            timeout: None,
            service_builder: new_service_builder(),
        }
    }
}

impl<L, T> MyServer<L, T> {
    /// The stack of layers every service is wrapped in.
    pub closed spec fn service_builder(&self) -> ServiceBuilder<L> {
        self.service_builder
    }

    /// The stack of layers every service is wrapped in, to wrap a service.
    pub fn layers(&self) -> (r: &ServiceBuilder<L>)
        ensures
            *r == self.service_builder(),
    {
        &self.service_builder
    }

    /// Sets the concurrency limit applied to inbound requests per connection.
    pub fn concurrency_limit_per_connection(self, limit: usize) -> (r: Self)
        ensures
            r@ == (ServerView { concurrency_limit: Some(limit), ..self@ }),
            r.service_builder() == self.service_builder(),
    {
        MyServer { concurrency_limit: Some(limit), ..self }
    }

    /// Sets a timeout for all request handlers.
    pub fn timeout(self, timeout: Duration) -> (r: Self)
        ensures
            r@ == (ServerView { timeout: Some(timeout), ..self@ }),
            r.service_builder() == self.service_builder(),
    {
        MyServer { timeout: Some(timeout), ..self }
    }

    /// Intercepts inbound headers to make a tracing span for each request;
    /// `f` replaces any interceptor set before.
    pub fn trace_fn<F>(self, f: F) -> (r: MyServer<L, F>)
        where
            F: Fn(&http::Request<()>) -> tracing::Span + Send + Sync + 'static,
        ensures
            r@ == (ServerView {
                trace_interceptor: Some(f),
                concurrency_limit: self@.concurrency_limit,
                timeout: self@.timeout,
            }),
            r.service_builder() == self.service_builder(),
    {
        MyServer {
            trace_interceptor: Some(f),
            concurrency_limit: self.concurrency_limit,
            timeout: self.timeout,
            service_builder: self.service_builder,
        }
    }

    /// Wraps every service in `new_layer`, on top of the layers set before;
    /// the other settings are kept.
    pub fn layer<NewLayer>(self, new_layer: NewLayer) -> (r: MyServer<Stack<NewLayer, L>, T>)
        ensures
            r@ == self@,
    {
        MyServer {
            service_builder: push_layer(self.service_builder, new_layer),
            trace_interceptor: self.trace_interceptor,
            concurrency_limit: self.concurrency_limit,
            timeout: self.timeout,
        }
    }
}

/// A router: the server builder it was made from and the services it routes
/// to.
#[verifier::reject_recursive_types(L)]
pub struct QuicRouter<L, T, S> {
    server: MyServer<L, T>,
    routes: Routes<S>,
}

impl<L, T, S> QuicRouter<L, T, S> {
    pub(crate) fn new(server: MyServer<L, T>, routes: Routes<S>) -> (r: Self)
        ensures
            r.server() == server,
            r.routes()@ == routes@,
    {
        QuicRouter { server, routes }
    }

    /// The server builder the router was made from.
    pub closed spec fn server(&self) -> MyServer<L, T> {
        self.server
    }

    /// The services routed to.
    pub closed spec fn routes(&self) -> Routes<S> {
        self.routes
    }

    /// The server builder and the routes, to serve the router.
    pub fn into_parts(self) -> (r: (MyServer<L, T>, Routes<S>))
        ensures
            r.0 == self.server(),
            r.1@ == self.routes()@,
    {
        (self.server, self.routes)
    }

    /// The settings of the server builder.
    pub fn server_settings(&self) -> (r: &MyServer<L, T>)
        ensures
            *r == self.server(),
    {
        &self.server
    }

    /// The services routed to.
    pub fn routed(&self) -> (r: &Routes<S>)
        ensures
            r@ == self.routes()@,
    {
        &self.routes
    }
}

impl<L: Clone, T: Clone> MyServer<L, T> {
    /// A copy of the builder: the same limits, and clones of the layers and
    /// of the trace interceptor.
    pub(crate) fn clone_builder(&self) -> (r: Self)
        ensures
            r.is_copy_of(self),
            r@.concurrency_limit == self@.concurrency_limit,
            r@.timeout == self@.timeout,
            self@.trace_interceptor is Some <==> r@.trace_interceptor is Some,
    {
        let trace_interceptor = match &self.trace_interceptor {
            Some(t) => Some(t.clone()),
            None => None,
        };
        MyServer {
            trace_interceptor,
            concurrency_limit: self.concurrency_limit,
            timeout: self.timeout,
            service_builder: clone_service_builder(&self.service_builder),
        }
    }

    /// Whether this builder is a copy of `orig`: the same limits, and clones
    /// of its layers and of its trace interceptor.
    pub open spec fn is_copy_of(&self, orig: &Self) -> bool {
        &&& self@.concurrency_limit == orig@.concurrency_limit
        &&& self@.timeout == orig@.timeout
        &&& interceptor_cloned(orig@.trace_interceptor, self@.trace_interceptor)
        &&& cloned(orig.service_builder(), self.service_builder())
    }

    /// A router with `svc` as its first service, made from a copy of this
    /// builder.
    pub fn add_service<S: NamedService>(&mut self, svc: S) -> (r: QuicRouter<L, T, S>)
        ensures
            r.routes()@ == seq![route_of(Some(svc))],
            r.server().is_copy_of(old(self)),
            r.server()@.concurrency_limit == old(self)@.concurrency_limit,
            r.server()@.timeout == old(self)@.timeout,
            old(self)@.trace_interceptor is Some <==> r.server()@.trace_interceptor is Some,
            *final(self) == *old(self),
    {
        QuicRouter::new(self.clone_builder(), Routes::new(svc))
    }

    /// A router made from a copy of this builder, with one route under the
    /// name of `S`: to `svc` when it is given. Without a service the route
    /// still captures every request to that name, so two services of the same
    /// name cannot be toggled this way.
    pub fn add_optional_service<S: NamedService>(&mut self, svc: Option<S>) -> (r: QuicRouter<L, T, S>)
        ensures
            r.routes()@ == seq![route_of(svc)],
            r.server().is_copy_of(old(self)),
            r.server()@.concurrency_limit == old(self)@.concurrency_limit,
            r.server()@.timeout == old(self)@.timeout,
            old(self)@.trace_interceptor is Some <==> r.server()@.trace_interceptor is Some,
            *final(self) == *old(self),
    {
        QuicRouter::new(self.clone_builder(), Routes::empty().add_optional_service(svc))
    }
}

} // verus!
