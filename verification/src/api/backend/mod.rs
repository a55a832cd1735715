//! The control surface for the supervised backend, without its transport.
use vstd::prelude::*;

pub mod get;
pub mod put;
pub mod restart;
pub mod start;
pub mod stop;

verus! {

/// The path under which the routes of the backend are served.
pub const PATH: &'static str = "/backend";

/// The method of a request.
#[derive(Clone, Copy, Debug, PartialEq, Eq, Structural)]
pub enum Method {
    Get,
    Put,
    Patch,
}

/// What a request asks of the supervisor.
#[derive(Clone, Copy, Debug, PartialEq, Eq, Structural)]
pub enum Operation {
    Status,
    Deploy,
    Start,
    Stop,
    Restart,
}

/// One route: requests of this method for this path, below [`PATH`], ask for this
/// operation.
#[derive(Debug, PartialEq, Eq)]
pub struct Route {
    pub method: Method,
    pub path: String,
    pub operation: Operation,
}

/// The mathematical value of a [`Route`].
pub struct RouteView {
    pub method: Method,
    pub path: Seq<char>,
    pub operation: Operation,
}

impl View for Route {
    type V = RouteView;

    open spec fn view(&self) -> RouteView {
        RouteView { method: self.method, path: self.path@, operation: self.operation }
    }
}

impl DeepView for Route {
    type V = RouteView;

    open spec fn deep_view(&self) -> RouteView {
        self@
    }
}

/// The routes of the backend.
pub open spec fn route_table() -> Seq<RouteView> {
    seq![
        RouteView { method: Method::Get, path: "/"@, operation: Operation::Status },
        RouteView { method: Method::Put, path: "/"@, operation: Operation::Deploy },
        RouteView { method: Method::Patch, path: "/start"@, operation: Operation::Start },
        RouteView { method: Method::Patch, path: "/stop"@, operation: Operation::Stop },
        RouteView { method: Method::Patch, path: "/restart"@, operation: Operation::Restart },
    ]
}

fn route(method: Method, path: &str, operation: Operation) -> (route: Route)
    ensures
        route@ == (RouteView { method, path: path@, operation }),
{
    Route { method, path: String::from_str(path), operation }
}

/// The routes of the backend, for the host to bind to its transport.
pub fn routes() -> (table: Vec<Route>)
    ensures
        table.deep_view() == route_table(),
{
    let mut table: Vec<Route> = Vec::new();
    table.push(route(Method::Get, "/", Operation::Status));
    table.push(route(Method::Put, "/", Operation::Deploy));
    table.push(route(Method::Patch, "/start", Operation::Start));
    table.push(route(Method::Patch, "/stop", Operation::Stop));
    table.push(route(Method::Patch, "/restart", Operation::Restart));
    assert(table.deep_view() =~= route_table());
    table
}

} // verus!
