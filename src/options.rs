//! Options that apply to a single request, and what every request builder
//! holds.
use vstd::prelude::*;

verus! {

/// Per-request settings that override those of the client.
#[derive(Clone, Debug, PartialEq)]
pub struct RequestOptions {
    /// Whether the request may be retried after a transient failure.
    pub idempotent: Option<bool>,
    /// A user agent prefix to send with the request.
    pub user_agent: Option<String>,
    /// How long, in milliseconds, a single attempt may take.
    pub attempt_timeout_ms: Option<u64>,
}

impl RequestOptions {
    /// No option is set.
    pub open spec fn is_default(&self) -> bool {
        &&& self.idempotent is None
        &&& self.user_agent is None
        &&& self.attempt_timeout_ms is None
    }
}

impl Default for RequestOptions {
    fn default() -> (r: RequestOptions)
        ensures
            r.is_default(),
    {
        RequestOptions { idempotent: None, user_agent: None, attempt_timeout_ms: None }
    }
}

/// What every request builder holds: the request and its options.
#[derive(Clone, Debug)]
pub(crate) struct RequestBuilder<R> {
    pub(crate) request: R,
    pub(crate) options: RequestOptions,
}

impl<R> RequestBuilder<R> {
    pub(crate) fn new(request: R) -> (r: RequestBuilder<R>)
        ensures
            r.request == request,
            r.options.is_default(),
    {
        RequestBuilder { request, options: RequestOptions::default() }
    }
}

} // verus!
