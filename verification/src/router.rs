use vstd::prelude::*;

verus! {

/// The methods that the service answers.
#[derive(Clone, Copy, Debug, PartialEq, Eq, Structural)]
pub enum Method {
    Get,
    Post,
    Put,
    Delete,
}

/// What answers a request.
#[derive(Clone, Copy, Debug, PartialEq, Eq, Structural)]
pub enum Handler {
    Alive,
    Ping,
    TodoList,
    TodoCreate,
    TodoRead,
    TodoUpdate,
    TodoDelete,
}

/// One binding of the router: requests with this method for this path go to
/// this handler. A path segment that starts with a colon stands for a value.
#[derive(Clone, Copy, Debug, PartialEq, Eq)]
pub struct Route {
    pub method: Method,
    pub path: &'static str,
    pub handler: Handler,
}

/// A [`Route`] as a mathematical value.
pub struct RouteView {
    pub method: Method,
    pub path: Seq<char>,
    pub handler: Handler,
}

impl View for Route {
    type V = RouteView;

    open spec fn view(&self) -> RouteView {
        RouteView { method: self.method, path: self.path@, handler: self.handler }
    }
}

impl DeepView for Route {
    type V = RouteView;

    open spec fn deep_view(&self) -> RouteView {
        self@
    }
}

/// The bindings of the service.
pub open spec fn routes() -> Seq<RouteView> {
    seq![
        RouteView { method: Method::Get, path: "/alive"@, handler: Handler::Alive },
        RouteView { method: Method::Get, path: "/ready"@, handler: Handler::Ping },
        RouteView { method: Method::Get, path: "/todos"@, handler: Handler::TodoList },
        RouteView { method: Method::Post, path: "/todos"@, handler: Handler::TodoCreate },
        RouteView { method: Method::Get, path: "/todos/:id"@, handler: Handler::TodoRead },
        RouteView { method: Method::Put, path: "/todos/:id"@, handler: Handler::TodoUpdate },
        RouteView { method: Method::Delete, path: "/todos/:id"@, handler: Handler::TodoDelete },
    ]
}

/// The bindings that the router is made of.
pub fn create_router() -> (table: Vec<Route>)
    ensures
        table.deep_view() == routes(),
{
    let mut table: Vec<Route> = Vec::new();
    table.push(Route { method: Method::Get, path: "/alive", handler: Handler::Alive });
    table.push(Route { method: Method::Get, path: "/ready", handler: Handler::Ping });
    table.push(Route { method: Method::Get, path: "/todos", handler: Handler::TodoList });
    table.push(Route { method: Method::Post, path: "/todos", handler: Handler::TodoCreate });
    table.push(Route { method: Method::Get, path: "/todos/:id", handler: Handler::TodoRead });
    table.push(Route { method: Method::Put, path: "/todos/:id", handler: Handler::TodoUpdate });
    table.push(
        Route { method: Method::Delete, path: "/todos/:id", handler: Handler::TodoDelete },
    );
    assert(table.deep_view() =~= routes());
    table
}

/// No two bindings claim the same method on the same path, and no handler is
/// bound twice.
pub proof fn lemma_routes_are_distinct(i: int, j: int)
    requires
        0 <= i < j < routes().len(),
    ensures
        routes()[i].method != routes()[j].method || routes()[i].path != routes()[j].path,
        routes()[i].handler != routes()[j].handler,
{
    reveal_strlit("/alive");
    reveal_strlit("/ready");
    reveal_strlit("/todos");
    reveal_strlit("/todos/:id");
    assert("/alive"@[1] != "/ready"@[1]);
    assert("/alive"@[1] != "/todos"@[1]);
    assert("/ready"@[1] != "/todos"@[1]);
    assert("/todos/:id"@.len() != "/alive"@.len());
}

} // verus!
