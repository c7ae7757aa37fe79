//! Planning the routes of a JSONAPI server: which method, path and name each operation of a
//! resource is served under, and the largest body that is read.
use vstd::prelude::*;
use crate::text::string_push;

verus! {

/// The HTTP methods that routes are served under.
#[derive(Debug, Clone, Copy, PartialEq, Eq)]
pub enum HttpMethod {
    Get,
    Post,
    Patch,
    Delete,
}

/// The operations that a resource can be served with.
#[derive(Debug, Clone, Copy, PartialEq, Eq)]
pub enum RouteKind {
    Index,
    Get,
    Delete,
    Post,
    Patch,
}

/// A planned route: the operation, its method, its path pattern and its name.
#[derive(Debug, PartialEq, Eq)]
pub struct Route {
    pub kind: RouteKind,
    pub method: HttpMethod,
    pub path: String,
    pub name: String,
}

impl Clone for Route {
    fn clone(&self) -> (r: Route)
        ensures
            r@ == self@,
    {
        Route { kind: self.kind, method: self.method, path: self.path.clone(), name: self.name.clone() }
    }
}

/// The mathematical value of a `Route`.
pub struct SpecRoute {
    pub kind: RouteKind,
    pub method: HttpMethod,
    pub path: Seq<char>,
    pub name: Seq<char>,
}

impl View for Route {
    type V = SpecRoute;

    open spec fn view(&self) -> SpecRoute {
        SpecRoute { kind: self.kind, method: self.method, path: self.path@, name: self.name@ }
    }
}

/// The method an operation is served under.
pub open spec fn route_method(kind: RouteKind) -> HttpMethod {
    match kind {
        RouteKind::Index => HttpMethod::Get,
        RouteKind::Get => HttpMethod::Get,
        RouteKind::Delete => HttpMethod::Delete,
        RouteKind::Post => HttpMethod::Post,
        RouteKind::Patch => HttpMethod::Patch,
    }
}

/// Whether an operation addresses one resource by id.
pub open spec fn takes_id(kind: RouteKind) -> bool {
    kind == RouteKind::Get || kind == RouteKind::Delete || kind == RouteKind::Patch
}

/// The path of an operation on the resource named `resource`: `/{resource}`, followed by `/:id`
/// for the operations on one resource.
pub open spec fn route_path(kind: RouteKind, resource: Seq<char>) -> Seq<char> {
    if takes_id(kind) {
        seq!['/'] + resource + "/:id"@
    } else {
        seq!['/'] + resource
    }
}

/// The prefix of the name of an operation's route.
pub open spec fn route_name_prefix(kind: RouteKind) -> Seq<char> {
    match kind {
        RouteKind::Index => "index_"@,
        RouteKind::Get => "get_"@,
        RouteKind::Delete => "delete_"@,
        RouteKind::Post => "create_"@,
        RouteKind::Patch => "update_"@,
    }
}

/// The route of an operation on the resource named `resource`.
pub open spec fn planned_route(kind: RouteKind, resource: Seq<char>) -> SpecRoute {
    SpecRoute {
        kind: kind,
        method: route_method(kind),
        path: route_path(kind, resource),
        name: route_name_prefix(kind) + resource,
    }
}

/// The route of an operation on the resource named `resource`.
pub fn plan_route(kind: RouteKind, resource: &str) -> (r: Route)
    ensures
        r@ == planned_route(kind, resource@),
{
    let mut path = String::new();
    string_push(&mut path, '/');
    path.append(resource);
    let method = match kind {
        RouteKind::Index => HttpMethod::Get,
        RouteKind::Get => HttpMethod::Get,
        RouteKind::Delete => HttpMethod::Delete,
        RouteKind::Post => HttpMethod::Post,
        RouteKind::Patch => HttpMethod::Patch,
    };
    match kind {
        RouteKind::Get | RouteKind::Delete | RouteKind::Patch => path.append("/:id"),
        _ => {},
    }
    let mut name = match kind {
        RouteKind::Index => String::from_str("index_"),
        RouteKind::Get => String::from_str("get_"),
        RouteKind::Delete => String::from_str("delete_"),
        RouteKind::Post => String::from_str("create_"),
        RouteKind::Patch => String::from_str("update_"),
    };
    name.append(resource);
    proof {
        assert(seq!['/'] + resource@ == Seq::<char>::empty().push('/') + resource@);
    }
    Route { kind, method, path, name }
}

/// The largest request body that is read by default: 10 MiB.
pub const DEFAULT_MAX_BODY_LENGTH: usize = 10485760;

/// The routes planned so far and the largest body that is read.
#[derive(Debug)]
pub struct JsonApiRouterBuilder {
    routes: Vec<Route>,
    max_body_length: usize,
}

/// The views of a sequence of routes.
pub open spec fn route_views(v: Seq<Route>) -> Seq<SpecRoute> {
    v.map_values(|r: Route| r@)
}

impl View for JsonApiRouterBuilder {
    type V = (Seq<SpecRoute>, usize);

    closed spec fn view(&self) -> (Seq<SpecRoute>, usize) {
        (route_views(self.routes@), self.max_body_length)
    }
}

impl Default for JsonApiRouterBuilder {
    /// No routes, and bodies of up to 10 MiB read.
    fn default() -> (b: Self)
        ensures
            b@.0.len() == 0,
            b@.1 == DEFAULT_MAX_BODY_LENGTH,
    {
        Self::new(DEFAULT_MAX_BODY_LENGTH)
    }
}

impl JsonApiRouterBuilder {
    /// No routes, and bodies of up to `max_body_length` bytes read.
    pub fn new(max_body_length: usize) -> (b: Self)
        ensures
            b@.0.len() == 0,
            b@.1 == max_body_length,
    {
        let b = JsonApiRouterBuilder { routes: Vec::new(), max_body_length: max_body_length };
        assert(b@.0 =~= Seq::<SpecRoute>::empty());
        b
    }

    /// Sets the largest body that is read.
    pub fn set_max_body_length(&mut self, max_body_length: usize)
        ensures
            final(self)@ == (old(self)@.0, max_body_length),
    {
        self.max_body_length = max_body_length;
    }

    /// The largest body that is read.
    pub fn max_body_length(&self) -> (n: usize)
        ensures
            n == self@.1,
    {
        self.max_body_length
    }

    /// The routes planned so far, in order.
    pub fn routes(&self) -> (r: &Vec<Route>)
        ensures
            route_views(r@) == self@.0,
    {
        &self.routes
    }

    fn add(&mut self, kind: RouteKind, resource: &str) -> (r: Route)
        ensures
            final(self)@ == (old(self)@.0.push(planned_route(kind, resource@)), old(self)@.1),
            r@ == planned_route(kind, resource@),
    {
        let route = plan_route(kind, resource);
        let ghost before = route_views(self.routes@);
        self.routes.push(route.clone());
        assert(route_views(self.routes@) =~= before.push(route@));
        route
    }

    /// Plans GET `/{resource}`, named `index_{resource}`.
    pub fn jsonapi_index(&mut self, resource: &str) -> (r: Route)
        ensures
            final(self)@ == (old(self)@.0.push(planned_route(RouteKind::Index, resource@)), old(self)@.1),
            r@ == planned_route(RouteKind::Index, resource@),
    {
        self.add(RouteKind::Index, resource)
    }

    /// Plans GET `/{resource}/:id`, named `get_{resource}`.
    pub fn jsonapi_get(&mut self, resource: &str) -> (r: Route)
        ensures
            final(self)@ == (old(self)@.0.push(planned_route(RouteKind::Get, resource@)), old(self)@.1),
            r@ == planned_route(RouteKind::Get, resource@),
    {
        self.add(RouteKind::Get, resource)
    }

    /// Plans DELETE `/{resource}/:id`, named `delete_{resource}`.
    pub fn jsonapi_delete(&mut self, resource: &str) -> (r: Route)
        ensures
            final(self)@ == (old(self)@.0.push(planned_route(RouteKind::Delete, resource@)), old(self)@.1),
            r@ == planned_route(RouteKind::Delete, resource@),
    {
        self.add(RouteKind::Delete, resource)
    }

    /// Plans POST `/{resource}`, named `create_{resource}`.
    pub fn jsonapi_post(&mut self, resource: &str) -> (r: Route)
        ensures
            final(self)@ == (old(self)@.0.push(planned_route(RouteKind::Post, resource@)), old(self)@.1),
            r@ == planned_route(RouteKind::Post, resource@),
    {
        self.add(RouteKind::Post, resource)
    }

    /// Plans PATCH `/{resource}/:id`, named `update_{resource}`.
    pub fn jsonapi_patch(&mut self, resource: &str) -> (r: Route)
        ensures
            final(self)@ == (old(self)@.0.push(planned_route(RouteKind::Patch, resource@)), old(self)@.1),
            r@ == planned_route(RouteKind::Patch, resource@),
    {
        self.add(RouteKind::Patch, resource)
    }
}

} // verus!
