use vstd::prelude::*;
use vstd::string::StringSliceAdditionalSpecFns;

verus! {

/// A service requests are routed to by name: `NAME` is the fully qualified
/// name of its gRPC service, the first segment of the paths it answers.
pub trait NamedService {
    const NAME: &'static str;
}

/// One route: the service name it captures, and the service that answers
/// the requests to that name. A route without a service still captures every
/// request to its name; such requests are answered as unimplemented.
pub struct Route<S> {
    pub name: &'static str,
    pub service: Option<S>,
}

/// The route `svc` is added under: its service's name, and `svc` itself.
pub open spec fn route_of<S: NamedService>(svc: Option<S>) -> Route<S> {
    Route { name: S::NAME, service: svc }
}

/// Whether a request path is addressed to the service called `name`: it is
/// a slash, the name, a slash, then the method.
pub open spec fn path_names(path: Seq<u8>, name: Seq<u8>) -> bool {
    &&& path.len() > name.len() + 1
    &&& path[0] == 47u8
    &&& path.subrange(1, name.len() as int + 1) == name
    &&& path[name.len() as int + 1] == 47u8
}

/// Whether `path` is addressed to the service called `name`.
pub fn path_names_service(path: &[u8], name: &[u8]) -> (r: bool)
    ensures
        r == path_names(path@, name@),
{
    if path.len() < 2 || path.len() - 2 < name.len() {
        return false;
    }
    if path[0] != 47u8 {
        return false;
    }
    let mut i: usize = 0;
    while i < name.len()
        invariant
            i <= name@.len(),
            path@.len() > name@.len() + 1,
            forall|j: int| 0 <= j < i ==> path@[j + 1] == name@[j],
        decreases name.len() - i,
    {
        if path[i + 1] != name[i] {
            assert(path@.subrange(1, name@.len() as int + 1)[i as int] != name@[i as int]);
            return false;
        }
        i = i + 1;
    }
    assert(path@.subrange(1, name@.len() as int + 1) =~= name@);
    path[name.len() + 1] == 47u8
}

/// A path made of a slash, a service's name, a slash and a method is
/// addressed to that service; a path that does not start with a slash is
/// addressed to none.
pub proof fn lemma_path_names(name: Seq<u8>, method: Seq<u8>, path: Seq<u8>)
    ensures
        path_names(seq![47u8] + name + seq![47u8] + method, name),
        path.len() > 0 && path[0] != 47u8 ==> !path_names(path, name),
{
    let p = seq![47u8] + name + seq![47u8] + method;
    assert(p.subrange(1, name.len() as int + 1) =~= name);
}

/// The route added for a service, given or not, is under the service's name
/// and holds exactly what was given: adding `None` still claims the name.
pub proof fn lemma_route_of<S: NamedService>(svc: Option<S>)
    ensures
        route_of(svc).name == S::NAME,
        route_of(svc).service == svc,
{
}

/// The routes of a router, in the order they were added.
pub struct Routes<S> {
    routes: Vec<Route<S>>,
}

impl<S> View for Routes<S> {
    type V = Seq<Route<S>>;

    closed spec fn view(&self) -> Seq<Route<S>> {
        self.routes@
    }
}

impl<S> Routes<S> {
    /// No routes.
    pub fn empty() -> (r: Routes<S>)
        ensures
            r@ == Seq::<Route<S>>::empty(),
    {
        Routes { routes: Vec::new() }
    }

    /// The number of routes.
    pub fn len(&self) -> (r: usize)
        ensures
            r == self@.len(),
    {
        self.routes.len()
    }

    /// The route a request path is dispatched to: the first route added under
    /// the service name the path is addressed to, or `None` when no route
    /// has that name.
    pub fn lookup(&self, path: &str) -> (r: Option<usize>)
        ensures
            match r {
                Some(i) => {
                    &&& i < self@.len()
                    &&& path_names(path.spec_bytes(), self@[i as int].name.spec_bytes())
                    &&& forall|j: int| 0 <= j < i ==> !path_names(path.spec_bytes(), #[trigger] self@[j].name.spec_bytes())
                },
                None => forall|j: int| 0 <= j < self@.len() ==> !path_names(path.spec_bytes(), #[trigger] self@[j].name.spec_bytes()),
            },
    {
        let bytes = path.as_bytes();
        let mut i: usize = 0;
        while i < self.routes.len()
            invariant
                i <= self@.len(),
                self@ == self.routes@,
                bytes@ == path.spec_bytes(),
                forall|j: int| 0 <= j < i ==> !path_names(path.spec_bytes(), #[trigger] self@[j].name.spec_bytes()),
            decreases self.routes.len() - i,
        {
            if path_names_service(bytes, self.routes[i].name.as_bytes()) {
                return Some(i);
            }
            i = i + 1;
        }
        None
    }

    /// The routes, in the order they were added.
    pub fn entries(&self) -> (r: &Vec<Route<S>>)
        ensures
            r@ == self@,
    {
        &self.routes
    }
}

impl<S: NamedService> Routes<S> {
    /// A route to one service, under its name.
    pub fn new(svc: S) -> (r: Routes<S>)
        ensures
            r@ == seq![route_of(Some(svc))],
    {
        Routes::empty().add_optional_service(Some(svc))
    }

    /// These routes and a route to one more service, under its name.
    pub fn add_service(self, svc: S) -> (r: Routes<S>)
        ensures
            r@ == self@.push(route_of(Some(svc))),
    {
        self.add_optional_service(Some(svc))
    }

    /// These routes and a route under the name of `S`: to `svc` when it is
    /// given, and capturing the name's requests without a service otherwise.
    pub fn add_optional_service(self, svc: Option<S>) -> (r: Routes<S>)
        ensures
            r@ == self@.push(route_of(svc)),
            r@.len() == self@.len() + 1,
            r@.last().name == S::NAME,
            r@.last().service == svc,
    {
        let mut routes = self.routes;
        routes.push(Route { name: S::NAME, service: svc });
        Routes { routes }
    }
}

} // verus!
