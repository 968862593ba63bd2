//! The route tables of the two CRUD namespaces: method and path of each
//! endpoint, one table per store, for the HTTP layer to mount.

use vstd::prelude::*;

verus! {

/// An HTTP method of the CRUD surface.
pub enum HttpMethod {
    Get,
    Post,
    Put,
    Delete,
}

/// One mountable route: a method and a path template.
pub struct RouteDef {
    pub method: HttpMethod,
    pub path: String,
}

/// The relational-store CRUD routes: create, list, update and delete
/// under the `/users` namespace.
pub fn user_routes() -> (routes: Vec<RouteDef>)
    ensures
        routes@.len() == 4,
        routes@[0].method is Post && routes@[0].path@ == "/users"@,
        routes@[1].method is Get && routes@[1].path@ == "/users"@,
        routes@[2].method is Put && routes@[2].path@ == "/users/<id>"@,
        routes@[3].method is Delete && routes@[3].path@ == "/users/<id>"@,
{
    let mut routes: Vec<RouteDef> = Vec::new();
    routes.push(RouteDef { method: HttpMethod::Post, path: "/users".to_owned() });
    routes.push(RouteDef { method: HttpMethod::Get, path: "/users".to_owned() });
    routes.push(RouteDef { method: HttpMethod::Put, path: "/users/<id>".to_owned() });
    routes.push(RouteDef { method: HttpMethod::Delete, path: "/users/<id>".to_owned() });
    routes
}

/// The document-store CRUD routes: the same four operations under the
/// `/v2/users` namespace.
pub fn user_mongo_routes() -> (routes: Vec<RouteDef>)
    ensures
        routes@.len() == 4,
        routes@[0].method is Post && routes@[0].path@ == "/v2/users"@,
        routes@[1].method is Get && routes@[1].path@ == "/v2/users"@,
        routes@[2].method is Put && routes@[2].path@ == "/v2/users/<id>"@,
        routes@[3].method is Delete && routes@[3].path@ == "/v2/users/<id>"@,
{
    let mut routes: Vec<RouteDef> = Vec::new();
    routes.push(RouteDef { method: HttpMethod::Post, path: "/v2/users".to_owned() });
    routes.push(RouteDef { method: HttpMethod::Get, path: "/v2/users".to_owned() });
    routes.push(RouteDef { method: HttpMethod::Put, path: "/v2/users/<id>".to_owned() });
    routes.push(RouteDef { method: HttpMethod::Delete, path: "/v2/users/<id>".to_owned() });
    routes
}

} // verus!
