//! The route table of the service: which handler answers which method and path.

use vstd::prelude::*;

verus! {

/// An HTTP method.
#[derive(Clone, Copy, Debug, PartialEq, Eq, Structural)]
pub enum Method {
    Get,
    Post,
    Put,
    Patch,
    Delete,
}

/// One route: its method, its path pattern (under `BASE_URL`) and the name
/// of the handler that answers it.
#[derive(Clone, Copy, Debug)]
pub struct RouteInfo {
    pub method: Method,
    pub path: &'static str,
    pub name: &'static str,
}

} // verus!
