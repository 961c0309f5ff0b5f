use std::time::Duration;
use tower::layer::util::{Identity, Stack};
use tower::ServiceBuilder;
use vstd::prelude::*;

use crate::myserver::{
    clone_service_builder, interceptor_cloned, new_service_builder, push_layer, NoTrace, ServerView,
};
use crate::routes::{route_of, NamedService, Routes};

verus! {

/// A server builder: the settings applied to every connection, and the layers
/// every service is wrapped in. `T` is the type of the trace interceptor, a
/// function from the headers of an inbound request to a tracing span.
#[verifier::reject_recursive_types(L)]
pub struct NewServer<L, T> {
    trace_interceptor: Option<T>,
    concurrency_limit: Option<usize>,
    timeout: Option<Duration>,
    service_builder: ServiceBuilder<L>,
}

impl<L, T> View for NewServer<L, T> {
    type V = ServerView<T>;

    closed spec fn view(&self) -> ServerView<T> {
        ServerView {
            trace_interceptor: self.trace_interceptor,
            concurrency_limit: self.concurrency_limit,
            timeout: self.timeout,
        }
    }
}

impl Default for NewServer<Identity, NoTrace> {
    fn default() -> (r: Self)
        ensures
            r@ == ServerView::<NoTrace>::empty(),
    {
        NewServer::builder()
    }
}

impl NewServer<Identity, NoTrace> {
    /// A builder with no settings and no layers.
    pub fn builder() -> (r: NewServer<Identity, NoTrace>)
        ensures
            r@ == ServerView::<NoTrace>::empty(),
    {
        NewServer {
            trace_interceptor: None,
            concurrency_limit: None,
            timeout: None,
            service_builder: new_service_builder(),
        }
    }
}

impl<L, T> NewServer<L, T> {
    /// The stack of layers every service is wrapped in.
    pub closed spec fn service_builder(&self) -> ServiceBuilder<L> {
        self.service_builder
    }

    /// The stack of layers every service is wrapped in, to wrap a service.
    pub fn layers(&self) -> (r: &ServiceBuilder<L>)
        ensures
            *r == self.service_builder(),
    {
        &self.service_builder
    }

    /// Sets the concurrency limit applied to inbound requests per connection.
    pub fn concurrency_limit_per_connection(self, limit: usize) -> (r: Self)
        ensures
            r@ == (ServerView { concurrency_limit: Some(limit), ..self@ }),
            r.service_builder() == self.service_builder(),
    {
        NewServer { concurrency_limit: Some(limit), ..self }
    }

    /// Sets a timeout for all request handlers.
    pub fn timeout(self, timeout: Duration) -> (r: Self)
        ensures
            r@ == (ServerView { timeout: Some(timeout), ..self@ }),
            r.service_builder() == self.service_builder(),
    {
        NewServer { timeout: Some(timeout), ..self }
    }

    /// Intercepts inbound headers to make a tracing span for each request;
    /// `f` replaces any interceptor set before.
    pub fn trace_fn<F>(self, f: F) -> (r: NewServer<L, F>)
        where
            F: Fn(&http::Request<()>) -> tracing::Span + Send + Sync + 'static,
        ensures
            r@ == (ServerView {
                trace_interceptor: Some(f),
                concurrency_limit: self@.concurrency_limit,
                timeout: self@.timeout,
            }),
            r.service_builder() == self.service_builder(),
    {
        NewServer {
            trace_interceptor: Some(f),
            concurrency_limit: self.concurrency_limit,
            timeout: self.timeout,
            service_builder: self.service_builder,
        }
    }

    /// Wraps every service in `new_layer`, on top of the layers set before;
    /// the other settings are kept.
    pub fn layer<NewLayer>(self, new_layer: NewLayer) -> (r: NewServer<Stack<NewLayer, L>, T>)
        ensures
            r@ == self@,
    {
        NewServer {
            service_builder: push_layer(self.service_builder, new_layer),
            trace_interceptor: self.trace_interceptor,
            concurrency_limit: self.concurrency_limit,
            timeout: self.timeout,
        }
    }
}

/// A router: the server builder it was made from and the services it routes
/// to.
#[verifier::reject_recursive_types(L)]
pub struct NewRouter<L, T, S> {
    server: NewServer<L, T>,
    routes: Routes<S>,
}

impl<L, T, S> NewRouter<L, T, S> {
    pub(crate) fn new(server: NewServer<L, T>, routes: Routes<S>) -> (r: Self)
        ensures
            r.server() == server,
            r.routes()@ == routes@,
    {
        NewRouter { server, routes }
    }

    /// The server builder the router was made from.
    pub closed spec fn server(&self) -> NewServer<L, T> {
        self.server
    }

    /// The services routed to.
    pub closed spec fn routes(&self) -> Routes<S> {
        self.routes
    }

    /// The server builder and the routes, to serve the router.
    pub fn into_parts(self) -> (r: (NewServer<L, T>, Routes<S>))
        ensures
            r.0 == self.server(),
            r.1@ == self.routes()@,
    {
        (self.server, self.routes)
    }

    /// The settings of the server builder.
    pub fn server_settings(&self) -> (r: &NewServer<L, T>)
        ensures
            *r == self.server(),
    {
        &self.server
    }

    /// The services routed to.
    pub fn routed(&self) -> (r: &Routes<S>)
        ensures
            r@ == self.routes()@,
    {
        &self.routes
    }
}

impl<L: Clone, T: Clone> NewServer<L, T> {
    /// A copy of the builder: the same limits, and clones of the layers and
    /// of the trace interceptor.
    pub(crate) fn clone_builder(&self) -> (r: Self)
        ensures
            r.is_copy_of(self),
            r@.concurrency_limit == self@.concurrency_limit,
            r@.timeout == self@.timeout,
            self@.trace_interceptor is Some <==> r@.trace_interceptor is Some,
    {
        let trace_interceptor = match &self.trace_interceptor {
            Some(t) => Some(t.clone()),
            None => None,
        };
        NewServer {
            trace_interceptor,
            concurrency_limit: self.concurrency_limit,
            timeout: self.timeout,
            service_builder: clone_service_builder(&self.service_builder),
        }
    }

    /// Whether this builder is a copy of `orig`: the same limits, and clones
    /// of its layers and of its trace interceptor.
    pub open spec fn is_copy_of(&self, orig: &Self) -> bool {
        &&& self@.concurrency_limit == orig@.concurrency_limit
        &&& self@.timeout == orig@.timeout
        &&& interceptor_cloned(orig@.trace_interceptor, self@.trace_interceptor)
        &&& cloned(orig.service_builder(), self.service_builder())
    }

    /// A router with `svc` as its first service, made from a copy of this
    /// builder.
    pub fn add_service<S: NamedService>(&mut self, svc: S) -> (r: NewRouter<L, T, S>)
        ensures
            r.routes()@ == seq![route_of(Some(svc))],
            r.server().is_copy_of(old(self)),
            r.server()@.concurrency_limit == old(self)@.concurrency_limit,
            r.server()@.timeout == old(self)@.timeout,
            old(self)@.trace_interceptor is Some <==> r.server()@.trace_interceptor is Some,
            *final(self) == *old(self),
    {
        NewRouter::new(self.clone_builder(), Routes::new(svc))
    }

    /// A router made from a copy of this builder, with one route under the
    /// name of `S`: to `svc` when it is given. Without a service the route
    /// still captures every request to that name, so two services of the same
    /// name cannot be toggled this way.
    pub fn add_optional_service<S: NamedService>(&mut self, svc: Option<S>) -> (r: NewRouter<L, T, S>)
        ensures
            r.routes()@ == seq![route_of(svc)],
            r.server().is_copy_of(old(self)),
            r.server()@.concurrency_limit == old(self)@.concurrency_limit,
            r.server()@.timeout == old(self)@.timeout,
            old(self)@.trace_interceptor is Some <==> r.server()@.trace_interceptor is Some,
            *final(self) == *old(self),
    {
        NewRouter::new(self.clone_builder(), Routes::empty().add_optional_service(svc))
    }
}

impl<L, T, S: NamedService> NewRouter<L, T, S> {
    /// Adds a route to `svc`, under its name.
    pub fn add_service(self, svc: S) -> (r: Self)
        ensures
            r.routes()@ == self.routes()@.push(route_of(Some(svc))),
            r.server() == self.server(),
    {
        NewRouter { server: self.server, routes: self.routes.add_service(svc) }
    }

    /// Adds a route under the name of `S`: to `svc` when it is given. Without
    /// a service the route still captures every request to that name, so two
    /// services of the same name cannot be toggled this way.
    pub fn add_optional_service(self, svc: Option<S>) -> (r: Self)
        ensures
            r.routes()@ == self.routes()@.push(route_of(svc)),
            r.server() == self.server(),
    {
        NewRouter { server: self.server, routes: self.routes.add_optional_service(svc) }
    }
}

/// A layer that every per-connection service is wrapped in.
pub enum ServiceLayer {
    /// Boxes the service.
    BoxService,
    /// Makes a tracing span for each request, with the interceptor when there
    /// is one and an empty span otherwise.
    Trace { intercepted: bool },
    /// Turns errors of the inner service into error responses.
    RecoverError,
    /// Limits the number of requests in flight.
    ConcurrencyLimit(usize),
    /// Applies the request timeout, and the timeout a request asks for.
    GrpcTimeout(Option<Duration>),
}

/// The settings a server hands to each connection, and the service.
pub struct MakeSvc<S, T> {
    concurrency_limit: Option<usize>,
    timeout: Option<Duration>,
    inner: S,
    trace_interceptor: Option<T>,
}

/// The layers of a per-connection service, outermost first: boxing, tracing,
/// error recovery, the concurrency limit when there is one, and the timeout.
pub open spec fn layer_plan<T>(settings: ServerView<T>) -> Seq<ServiceLayer> {
    seq![ServiceLayer::BoxService, ServiceLayer::Trace { intercepted: settings.trace_interceptor is Some }, ServiceLayer::RecoverError]
        + match settings.concurrency_limit {
        Some(n) => seq![ServiceLayer::ConcurrencyLimit(n)],
        None => Seq::empty(),
    } + seq![ServiceLayer::GrpcTimeout(settings.timeout)]
}

/// Every connection's service is boxed, traced and recovers errors, in that
/// order from the outside; it is limited to `n` requests in flight exactly
/// when the settings hold the limit `n`, and its innermost layer applies the
/// settings' timeout.
pub proof fn lemma_layer_plan_follows_settings<T>(settings: ServerView<T>)
    ensures
        layer_plan(settings)[0] == ServiceLayer::BoxService,
        layer_plan(settings)[1] == (ServiceLayer::Trace { intercepted: settings.trace_interceptor is Some }),
        layer_plan(settings)[2] == ServiceLayer::RecoverError,
        layer_plan(settings).last() == ServiceLayer::GrpcTimeout(settings.timeout),
        forall|n: usize| layer_plan(settings).contains(ServiceLayer::ConcurrencyLimit(n))
            <==> settings.concurrency_limit == Some(n),
        layer_plan(settings).len() == if settings.concurrency_limit is Some { 5int } else { 4int },
{
    let p = layer_plan(settings);
    match settings.concurrency_limit {
        Some(m) => {
            assert(p[3] == ServiceLayer::ConcurrencyLimit(m));
            assert forall|n: usize| p.contains(ServiceLayer::ConcurrencyLimit(n)) implies n == m by {
                let i = choose|i: int| 0 <= i < p.len() && p[i] == ServiceLayer::ConcurrencyLimit(n);
                assert(i == 3);
            }
        },
        None => {
            assert forall|n: usize| !p.contains(ServiceLayer::ConcurrencyLimit(n)) by {
                if p.contains(ServiceLayer::ConcurrencyLimit(n)) {
                    let i = choose|i: int| 0 <= i < p.len() && p[i] == ServiceLayer::ConcurrencyLimit(n);
                    assert(false);
                }
            }
        },
    }
}

impl<S, T> View for MakeSvc<S, T> {
    type V = ServerView<T>;

    closed spec fn view(&self) -> ServerView<T> {
        ServerView {
            trace_interceptor: self.trace_interceptor,
            concurrency_limit: self.concurrency_limit,
            timeout: self.timeout,
        }
    }
}

impl<S, T> MakeSvc<S, T> {
    /// The service each connection gets (before its layers).
    pub closed spec fn inner(&self) -> S {
        self.inner
    }

    /// The layers each connection's service is wrapped in, outermost first.
    pub fn layers(&self) -> (r: Vec<ServiceLayer>)
        ensures
            r@ == layer_plan(self@),
    {
        let mut r: Vec<ServiceLayer> = Vec::new();
        r.push(ServiceLayer::BoxService);
        r.push(ServiceLayer::Trace { intercepted: self.trace_interceptor.is_some() });
        r.push(ServiceLayer::RecoverError);
        if let Some(n) = self.concurrency_limit {
            r.push(ServiceLayer::ConcurrencyLimit(n));
        }
        r.push(ServiceLayer::GrpcTimeout(self.timeout));
        assert(r@ =~= layer_plan(self@));
        r
    }

    /// The service each connection gets (before its layers).
    pub fn inner_service(&self) -> (r: &S)
        ensures
            *r == self.inner(),
    {
        &self.inner
    }

    /// The trace interceptor, if there is one.
    pub fn trace_interceptor(&self) -> (r: &Option<T>)
        ensures
            *r == self@.trace_interceptor,
    {
        &self.trace_interceptor
    }
}

impl<L, T: Clone> NewServer<L, T> {
    /// The per-connection settings for serving `inner` (the service already
    /// wrapped in this builder's layers): this builder's limits and a clone of
    /// its trace interceptor.
    pub fn make_svc<S>(&self, inner: S) -> (r: MakeSvc<S, T>)
        ensures
            r.inner() == inner,
            r@.concurrency_limit == self@.concurrency_limit,
            r@.timeout == self@.timeout,
            interceptor_cloned(self@.trace_interceptor, r@.trace_interceptor),
    {
        let trace_interceptor = match &self.trace_interceptor {
            Some(t) => Some(t.clone()),
            None => None,
        };
        MakeSvc {
            concurrency_limit: self.concurrency_limit,
            timeout: self.timeout,
            inner,
            trace_interceptor,
        }
    }
}

} // verus!
