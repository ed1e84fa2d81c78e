//! The client, messages and request builders of the trace service.
use vstd::prelude::*;
use crate::options::{RequestBuilder, RequestOptions};
use std::sync::Arc;

verus! {

/// The request of a call that writes a batch of spans.
#[derive(Clone, Debug, PartialEq)]
pub struct BatchWriteSpansRequest {
    /// The project the spans belong to.
    pub name: String,
    /// The spans to write.
    pub spans: Vec<Span>,
}

impl BatchWriteSpansRequest {
    /// No field is set.
    pub open spec fn is_default(&self) -> bool {
        &&& self.name@.len() == 0
        &&& self.spans@.len() == 0
    }
}

impl Default for BatchWriteSpansRequest {
    fn default() -> (r: BatchWriteSpansRequest)
        ensures
            r.is_default(),
    {
        BatchWriteSpansRequest {
            name: String::new(),
            spans: Vec::new(),
        }
    }
}

/// A span: one timed operation within a trace; also the request of a call
/// that creates a span.
#[derive(Clone, Debug, PartialEq)]
pub struct Span {
    /// The resource name of the span.
    pub name: String,
    /// The identifier of the span.
    pub span_id: String,
    /// The name shown for the span.
    pub display_name: String,
}

impl Span {
    /// No field is set.
    pub open spec fn is_default(&self) -> bool {
        &&& self.name@.len() == 0
        &&& self.span_id@.len() == 0
        &&& self.display_name@.len() == 0
    }
}

impl Default for Span {
    fn default() -> (r: Span)
        ensures
            r.is_default(),
    {
        Span {
            name: String::new(),
            span_id: String::new(),
            display_name: String::new(),
        }
    }
}

/// The builder of a call that writes a batch of spans.
#[derive(Clone, Debug)]
pub struct BatchWriteSpans(RequestBuilder<BatchWriteSpansRequest>);

impl BatchWriteSpans {
    /// The request this builder holds.
    pub closed spec fn req(&self) -> BatchWriteSpansRequest {
        self.0.request
    }

    /// The options this builder holds.
    pub closed spec fn opts(&self) -> RequestOptions {
        self.0.options
    }

    /// A builder with an empty request and no options.
    pub fn new() -> (r: BatchWriteSpans)
        ensures
            r.req().is_default(),
            r.opts().is_default(),
    {
        BatchWriteSpans(RequestBuilder::new(BatchWriteSpansRequest::default()))
    }

    /// The request this builder holds.
    pub fn request(&self) -> (r: &BatchWriteSpansRequest)
        ensures
            *r == self.req(),
    {
        &self.0.request
    }

    /// The options this builder holds.
    pub fn options(&self) -> (r: &RequestOptions)
        ensures
            *r == self.opts(),
    {
        &self.0.options
    }

    /// Sets the whole request, replacing any earlier value.
    pub fn with_request(self, v: BatchWriteSpansRequest) -> (r: BatchWriteSpans)
        ensures
            r.req() == v,
            r.opts() == self.opts(),
    {
        let mut b = self;
        b.0.request = v;
        b
    }

    /// Sets all the options, replacing any earlier value.
    pub fn with_options(self, v: RequestOptions) -> (r: BatchWriteSpans)
        ensures
            r.req() == self.req(),
            r.opts() == v,
    {
        let mut b = self;
        b.0.options = v;
        b
    }

    /// Sets the project the spans belong to.
    pub fn set_name(self, v: String) -> (r: BatchWriteSpans)
        ensures
            r.req() == (BatchWriteSpansRequest { name: v, ..self.req() }),
            r.opts() == self.opts(),
    {
        let mut b = self;
        b.0.request.name = v;
        b
    }

    /// Sets the spans to write.
    pub fn set_spans(self, v: Vec<Span>) -> (r: BatchWriteSpans)
        ensures
            r.req() == (BatchWriteSpansRequest { spans: v, ..self.req() }),
            r.opts() == self.opts(),
    {
        let mut b = self;
        b.0.request.spans = v;
        b
    }
}

/// The builder of a call that creates a span.
#[derive(Clone, Debug)]
pub struct CreateSpan(RequestBuilder<Span>);

impl CreateSpan {
    /// The request this builder holds.
    pub closed spec fn req(&self) -> Span {
        self.0.request
    }

    /// The options this builder holds.
    pub closed spec fn opts(&self) -> RequestOptions {
        self.0.options
    }

    /// A builder with an empty request and no options.
    pub fn new() -> (r: CreateSpan)
        ensures
            r.req().is_default(),
            r.opts().is_default(),
    {
        CreateSpan(RequestBuilder::new(Span::default()))
    }

    /// The request this builder holds.
    pub fn request(&self) -> (r: &Span)
        ensures
            *r == self.req(),
    {
        &self.0.request
    }

    /// The options this builder holds.
    pub fn options(&self) -> (r: &RequestOptions)
        ensures
            *r == self.opts(),
    {
        &self.0.options
    }

    /// Sets the whole request, replacing any earlier value.
    pub fn with_request(self, v: Span) -> (r: CreateSpan)
        ensures
            r.req() == v,
            r.opts() == self.opts(),
    {
        let mut b = self;
        b.0.request = v;
        b
    }

    /// Sets all the options, replacing any earlier value.
    pub fn with_options(self, v: RequestOptions) -> (r: CreateSpan)
        ensures
            r.req() == self.req(),
            r.opts() == v,
    {
        let mut b = self;
        b.0.options = v;
        b
    }

    /// Sets the resource name of the span.
    pub fn set_name(self, v: String) -> (r: CreateSpan)
        ensures
            r.req() == (Span { name: v, ..self.req() }),
            r.opts() == self.opts(),
    {
        let mut b = self;
        b.0.request.name = v;
        b
    }

    /// Sets the identifier of the span.
    pub fn set_span_id(self, v: String) -> (r: CreateSpan)
        ensures
            r.req() == (Span { span_id: v, ..self.req() }),
            r.opts() == self.opts(),
    {
        let mut b = self;
        b.0.request.span_id = v;
        b
    }

    /// Sets the name shown for the span.
    pub fn set_display_name(self, v: String) -> (r: CreateSpan)
        ensures
            r.req() == (Span { display_name: v, ..self.req() }),
            r.opts() == self.opts(),
    {
        let mut b = self;
        b.0.request.display_name = v;
        b
    }
}

/// A client of the trace service, over a stub that makes the calls.
#[derive(Clone, Debug)]
pub struct TraceService<S> {
    inner: Arc<S>,
}

impl<S> TraceService<S> {
    /// The stub that makes the calls.
    pub closed spec fn stub_spec(&self) -> S {
        *self.inner
    }

    /// A client whose calls go to `stub`.
    pub fn from_stub(stub: S) -> (r: TraceService<S>)
        ensures
            r.stub_spec() == stub,
    {
        TraceService { inner: Arc::new(stub) }
    }

    /// The stub that makes the calls.
    pub fn stub(&self) -> (r: &S)
        ensures
            *r == self.stub_spec(),
    {
        &self.inner
    }

    /// A builder of a call that writes spans into the project `name`.
    pub fn batch_write_spans(&self, name: String) -> (r: BatchWriteSpans)
        ensures
            r.req().name == name,
            r.req().spans@.len() == 0,
            r.opts().is_default(),
    {
        BatchWriteSpans::new().set_name(name)
    }

    /// A builder of a call that creates the span `name`.
    pub fn create_span(&self, name: String) -> (r: CreateSpan)
        ensures
            r.req().name == name,
            r.req().span_id@.len() == 0,
            r.req().display_name@.len() == 0,
            r.opts().is_default(),
    {
        CreateSpan::new().set_name(name)
    }
}

} // verus!
