//! The request-scoped cache: one slot for the correlation identifier and
//! one for the request's span, each filled at most once and owned by a
//! single in-flight request. The span's lifecycle is `Unopened` (no span
//! cached) -> `Open` (span cached, status unset) -> `Closed` (status
//! recorded).

use vstd::prelude::*;

verus! {

/// The data one request's span carries: the method and path recorded at
/// creation, the response status recorded when the response is
/// finished, and an optional serialized result written by handler code.
pub struct SpanData {
    pub method: String,
    pub path: String,
    pub status_code: Option<u16>,
    pub output: Option<String>,
}

/// The mathematical view of [`SpanData`].
pub struct SpanView {
    pub method: Seq<char>,
    pub path: Seq<char>,
    pub status_code: Option<u16>,
    pub output: Option<Seq<char>>,
}

impl View for SpanData {
    type V = SpanView;

    open spec fn view(&self) -> SpanView {
        SpanView {
            method: self.method@,
            path: self.path@,
            status_code: self.status_code,
            output: match self.output {
                Some(s) => Some(s@),
                None => None,
            },
        }
    }
}

/// Per-request storage, attached to one in-flight request for exactly
/// its lifetime. Both slots are lazily initialized at most once and are
/// never overwritten; no state is shared between requests.
pub struct RequestContext {
    request_id: Option<String>,
    span: Option<SpanData>,
}

/// The mathematical view of [`RequestContext`].
pub struct CtxView {
    pub request_id: Option<Seq<char>>,
    pub span: Option<SpanView>,
}

impl View for RequestContext {
    type V = CtxView;

    closed spec fn view(&self) -> CtxView {
        CtxView {
            request_id: match self.request_id {
                Some(s) => Some(s@),
                None => None,
            },
            span: match self.span {
                Some(sp) => Some(sp@),
                None => None,
            },
        }
    }
}

/// The states a request's span moves through.
pub enum Lifecycle {
    Unopened,
    Open,
    Closed,
}

/// Where in its lifecycle the span of a request stands.
pub open spec fn lifecycle_of(c: CtxView) -> Lifecycle {
    match c.span {
        None => Lifecycle::Unopened,
        Some(sp) => if sp.status_code is None {
            Lifecycle::Open
        } else {
            Lifecycle::Closed
        },
    }
}

/// The cache after an attempt to store an identifier: only an empty
/// slot is filled.
pub open spec fn spec_cache_request_id(c: CtxView, id: Seq<char>) -> CtxView {
    if c.request_id is Some {
        c
    } else {
        CtxView { request_id: Some(id), span: c.span }
    }
}

/// The cache after an attempt to store a span: only an empty slot is
/// filled.
pub open spec fn spec_cache_span(c: CtxView, sp: SpanView) -> CtxView {
    if c.span is Some {
        c
    } else {
        CtxView { request_id: c.request_id, span: Some(sp) }
    }
}

/// The cache after the response status is recorded on the span; without
/// a span there is nothing to record on.
pub open spec fn spec_record_status(c: CtxView, status: u16) -> CtxView {
    match c.span {
        Some(sp) => CtxView {
            request_id: c.request_id,
            span: Some(
                SpanView {
                    method: sp.method,
                    path: sp.path,
                    status_code: Some(status),
                    output: sp.output,
                },
            ),
        },
        None => c,
    }
}

/// The cache after handler code records a serialized result: the write
/// lands only while the span is open; after the span is closed (or
/// before one exists) it is dropped.
pub open spec fn spec_record_output(c: CtxView, value: Seq<char>) -> CtxView {
    match c.span {
        Some(sp) => if sp.status_code is None {
            CtxView {
                request_id: c.request_id,
                span: Some(
                    SpanView {
                        method: sp.method,
                        path: sp.path,
                        status_code: sp.status_code,
                        output: Some(value),
                    },
                ),
            }
        } else {
            c
        },
        None => c,
    }
}

impl RequestContext {
    /// A fresh context, as every request starts: no identifier, no span.
    pub fn new() -> (r: Self)
        ensures
            r@.request_id is None,
            r@.span is None,
    {
        RequestContext { request_id: None, span: None }
    }

    /// Store `id` in the identifier slot unless the slot is already
    /// filled: the initializer of this request-scoped value runs at most
    /// once, and a cached identifier is never overwritten.
    pub fn cache_request_id(&mut self, id: String)
        ensures
            final(self)@ == spec_cache_request_id(old(self)@, id@),
    {
        if self.request_id.is_none() {
            self.request_id = Some(id);
        }
    }

    /// Store `sp` in the span slot unless the slot is already filled.
    pub fn cache_span(&mut self, sp: SpanData)
        ensures
            final(self)@ == spec_cache_span(old(self)@, sp@),
    {
        if self.span.is_none() {
            self.span = Some(sp);
        }
    }

    /// Read-only access to the cached identifier; initializes nothing.
    pub fn cached_request_id(&self) -> (r: Option<&String>)
        ensures
            match r {
                Some(s) => self@.request_id == Some(s@),
                None => self@.request_id is None,
            },
    {
        match &self.request_id {
            Some(s) => Some(s),
            None => None,
        }
    }

    /// Read-only access to the cached span; initializes nothing.
    pub fn cached_span(&self) -> (r: Option<&SpanData>)
        ensures
            match r {
                Some(sp) => self@.span == Some(sp@),
                None => self@.span is None,
            },
    {
        match &self.span {
            Some(sp) => Some(sp),
            None => None,
        }
    }

    /// Record the final response status on the span, if one exists.
    pub fn record_status(&mut self, status: u16)
        ensures
            final(self)@ == spec_record_status(old(self)@, status),
    {
        match &mut self.span {
            Some(sp) => {
                sp.status_code = Some(status);
            },
            None => {},
        }
    }

    /// Record a serialized handler result on the span. The write sticks
    /// only while the span is open; once the span is closed its data is
    /// final.
    pub fn record_output(&mut self, value: String)
        ensures
            final(self)@ == spec_record_output(old(self)@, value@),
    {
        match &mut self.span {
            Some(sp) => {
                if sp.status_code.is_none() {
                    sp.output = Some(value);
                }
            },
            None => {},
        }
    }
}

} // verus!
