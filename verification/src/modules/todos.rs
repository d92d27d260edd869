//! The to-do items feature: entity, payloads, service, handlers, and the
//! table of routes that ties requests to handlers.

use vstd::prelude::*;

pub mod todo_controller;
pub mod todo_dto;
pub mod todo_entity;
pub mod todo_service;

verus! {

/// The request methods that the feature answers.
#[derive(Debug, Clone, Copy, PartialEq, Eq, Structural)]
pub enum Method {
    Get,
    Post,
    Put,
    Delete,
}

/// The handlers of the feature, one for each operation.
#[derive(Debug, Clone, Copy, PartialEq, Eq, Structural)]
pub enum Handler {
    CreateItem,
    ListItems,
    GetItem,
    UpdateItem,
    DeleteItem,
}

/// One line of the routing table. The path is relative to the place where
/// the feature is mounted; `:id` stands for the item's id.
#[derive(Debug)]
pub struct Route {
    pub path: &'static str,
    pub method: Method,
    pub handler: Handler,
}

/// What a [`Route`] holds.
pub ghost struct RouteView {
    pub path: Seq<char>,
    pub method: Method,
    pub handler: Handler,
}

impl View for Route {
    type V = RouteView;

    open spec fn view(&self) -> RouteView {
        RouteView { path: self.path@, method: self.method, handler: self.handler }
    }
}

/// The path under which the feature is mounted.
pub open spec fn mount_path() -> Seq<char> {
    "/items"@
}

/// The routing table: create and list on the collection, get, update and
/// delete on one item.
pub open spec fn item_routes() -> Seq<RouteView> {
    seq![
        RouteView { path: "/"@, method: Method::Post, handler: Handler::CreateItem },
        RouteView { path: "/"@, method: Method::Get, handler: Handler::ListItems },
        RouteView { path: "/:id"@, method: Method::Get, handler: Handler::GetItem },
        RouteView { path: "/:id"@, method: Method::Put, handler: Handler::UpdateItem },
        RouteView { path: "/:id"@, method: Method::Delete, handler: Handler::DeleteItem },
    ]
}

/// The path under which the feature is mounted.
pub fn items_mount() -> (path: &'static str)
    ensures
        path@ == mount_path(),
{
    "/items"
}

/// Builds the routing table of the feature.
pub fn create_item_routes() -> (routes: Vec<Route>)
    ensures
        routes@.map_values(|route: Route| route@) == item_routes(),
{
    let mut routes: Vec<Route> = Vec::new();
    routes.push(Route { path: "/", method: Method::Post, handler: Handler::CreateItem });
    routes.push(Route { path: "/", method: Method::Get, handler: Handler::ListItems });
    routes.push(Route { path: "/:id", method: Method::Get, handler: Handler::GetItem });
    routes.push(Route { path: "/:id", method: Method::Put, handler: Handler::UpdateItem });
    routes.push(Route { path: "/:id", method: Method::Delete, handler: Handler::DeleteItem });
    assert(routes@.map_values(|route: Route| route@) =~= item_routes());
    routes
}

} // verus!
