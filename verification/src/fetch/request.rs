//! The request that a `fetch` handler sees.

use vstd::prelude::*;

verus! {

/// An inbound request, as the script sees it: the object handed to the handler
/// has the fields `url`, `method` and `headers`.
pub struct JsRequest {
    /// The request's target.
    pub url: String,
    /// The request's method.
    pub method: String,
    /// The request's header list, in the order of the host request.
    pub headers: Vec<(String, String)>,
}

impl JsRequest {
    /// A request for `url` with `method` and no headers.
    pub fn new(url: String, method: String) -> (request: JsRequest)
        ensures
            request.url == url,
            request.method == method,
            request.headers@ == Seq::<(String, String)>::empty(),
    {
        JsRequest { url, method, headers: Vec::new() }
    }
}

} // verus!
