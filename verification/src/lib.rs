//! A small user-record service core: a normalized error taxonomy with a
//! stable mapping to HTTP status codes, a connection bootstrapper with
//! bounded retry, and CRUD persistence gateways for a relational store and
//! a document store.

use vstd::prelude::*;

pub mod bootstrap;
pub mod doc_id;
pub mod doc_store;
pub mod errors;
pub mod gateway;
pub mod models;
pub mod rel_store;
pub mod routes;

verus! {

/// Greeting served at the service root.
pub fn hello() -> (r: &'static str)
    ensures
        r@ == "Hello, Rocket!"@,
{
    "Hello, Rocket!"
}

} // verus!
