//! The small probe endpoints: the greeting and its query.
use vstd::prelude::*;
use crate::text::{concat, owned};

verus! {

/// The query of the greeting endpoint.
pub struct HelloQuery {
    pub name: String,
}

/// The name greeted when the query names none.
pub fn default_name() -> (r: String)
    ensures
        r@ == "World"@,
{
    owned("World")
}

impl HelloQuery {
    /// The query as read: the given name, else `World`.
    pub fn from_param(name: Option<&str>) -> (r: HelloQuery)
        ensures
            r.name@ == (match name {
                Some(n) => n@,
                None => "World"@,
            }),
    {
        match name {
            Some(n) => HelloQuery { name: owned(n) },
            None => HelloQuery { name: default_name() },
        }
    }
}

/// The greeting: `Hello {name}`.
pub fn hello_message(q: &HelloQuery) -> (r: String)
    ensures
        r@ == "Hello "@ + q.name@,
{
    concat("Hello ", q.name.as_str())
}

} // verus!
