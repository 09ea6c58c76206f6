//! A REST request as the library plans it: method, path, query, JSON body
//! and properties. Sending it, and reading the answer, is the client's job.

use vstd::prelude::*;
use crate::gateway::json_model::{Json, JsonV};
use crate::headers::headers_v;
use crate::properties::RequestProperties;

verus! {

/// An HTTP method.
#[derive(Clone, Copy, Debug, PartialEq, Eq, Structural)]
pub enum Method {
    Get,
    Post,
    Put,
    Patch,
    Delete,
}

/// A planned request.
#[derive(Debug)]
pub struct RestRequest {
    pub method: Method,
    /// The path under the versioned API base.
    pub path: String,
    /// The query parameters, in order.
    pub query: Vec<(String, String)>,
    /// The JSON body, if any.
    pub body: Option<Json>,
    pub properties: RequestProperties,
}

/// The view of an optional body.
pub open spec fn body_v(b: Option<Json>) -> Option<JsonV> {
    match b {
        Some(j) => Some(j.v()),
        None => None,
    }
}

impl RestRequest {
    /// Whether this request is `method path?query` with `body` and `props`.
    pub open spec fn is(
        &self,
        method: Method,
        path: Seq<char>,
        query: Seq<(Seq<char>, Seq<char>)>,
        body: Option<JsonV>,
        props: RequestProperties,
    ) -> bool {
        &&& self.method == method
        &&& self.path@ == path
        &&& headers_v(self.query@) == query
        &&& body_v(self.body) == body
        &&& self.properties == props
    }
}

} // verus!
