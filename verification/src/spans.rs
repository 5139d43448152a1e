//! The request-boundary hooks and the handler-facing accessors.
//!
//! At request-start the fairing resolves the correlation identifier and
//! opens the request's span (both idempotently, through the
//! request-scoped cache). At response-finish it records the final
//! status on the span, builds the completion log line, and echoes the
//! identifier in the response header. Handlers reach both values only
//! through the accessors, which fail with [`MissingContext`] when the
//! hooks have not run.

use vstd::prelude::*;
use crate::context::{
    spec_cache_request_id,
    spec_cache_span,
    spec_record_status,
    CtxView,
    RequestContext,
    SpanData,
    SpanView,
};
use crate::ids::{header_supplied, header_view, is_canonical_id, resolve_request_id, resolved_id};
use crate::logline::{completion_line, completion_log_line};

verus! {

/// The well-known correlation header, on requests and responses alike.
pub const REQUEST_ID_HEADER: &'static str = "X-Request-Id";

/// The correlation identifier of one request, as handlers receive it.
pub struct RequestId(pub String);

/// The span of one request, as handlers receive it: a snapshot of the
/// cached span data.
pub struct TracingSpan(pub SpanData);

/// An accessor ran outside an instrumented request: the middleware that
/// fills the request-scoped cache never ran. A programming error,
/// surfaced as a server-side fault, never defaulted.
pub struct MissingContext;

/// The request-boundary hooks that instrument every request.
pub struct TracingFairing;

/// What the fairing tells the host about itself: its name, and that it
/// hooks both the request and the response boundary.
pub struct FairingInfo {
    pub name: String,
    pub on_request_hook: bool,
    pub on_response_hook: bool,
}

/// What the response-finish hook asks the host to do: the header value
/// to echo (when an identifier is cached), the completion line to log
/// (when a span and an identifier are cached), and whether the hook
/// found no span to close.
pub struct ResponseOutcome {
    pub header_value: Option<String>,
    pub log_line: Option<String>,
    pub no_span: bool,
}

/// The mathematical view of [`ResponseOutcome`].
pub struct ResponseView {
    pub header_value: Option<Seq<char>>,
    pub log_line: Option<Seq<char>>,
    pub no_span: bool,
}

impl View for ResponseOutcome {
    type V = ResponseView;

    open spec fn view(&self) -> ResponseView {
        ResponseView {
            header_value: match self.header_value {
                Some(s) => Some(s@),
                None => None,
            },
            log_line: match self.log_line {
                Some(s) => Some(s@),
                None => None,
            },
            no_span: self.no_span,
        }
    }
}

/// The context after the request-start hook: an empty identifier slot is
/// filled with the resolved identifier (`fresh` standing for the
/// generated one), an empty span slot with a span carrying the method
/// and path; filled slots are left alone.
pub open spec fn spec_on_request(
    c: CtxView,
    inbound: Option<Seq<char>>,
    fresh: Seq<char>,
    method: Seq<char>,
    path: Seq<char>,
) -> CtxView {
    spec_cache_span(
        spec_cache_request_id(c, resolved_id(inbound, fresh)),
        SpanView { method, path, status_code: None, output: None },
    )
}

/// The context after the response-finish hook: the final status is
/// recorded on the span, if one exists.
pub open spec fn spec_on_response_ctx(c: CtxView, status: u16) -> CtxView {
    spec_record_status(c, status)
}

/// What the response-finish hook hands back to the host, as a function
/// of the context it found and the final status.
pub open spec fn spec_on_response_out(c: CtxView, status: u16) -> ResponseView {
    ResponseView {
        header_value: c.request_id,
        log_line: match (c.span, c.request_id) {
            (Some(_), Some(id)) => Some(completion_line(id, status as int)),
            _ => None,
        },
        no_span: c.span is None,
    }
}

impl RequestId {
    /// Accessor: the correlation identifier cached on this request, or
    /// [`MissingContext`] when the correlation middleware never ran.
    pub fn from_request(ctx: &RequestContext) -> (r: Result<RequestId, MissingContext>)
        ensures
            match ctx@.request_id {
                Some(v) => r matches Ok(id) && id.0@ == v,
                None => r is Err,
            },
    {
        match ctx.cached_request_id() {
            Some(id) => Ok(RequestId(id.clone())),
            None => Err(MissingContext),
        }
    }
}

impl TracingSpan {
    /// Accessor: a snapshot of the span cached on this request, or
    /// [`MissingContext`] when the span middleware never ran.
    pub fn from_request(ctx: &RequestContext) -> (r: Result<TracingSpan, MissingContext>)
        ensures
            match ctx@.span {
                Some(sp) => r matches Ok(t) && t.0@ == sp,
                None => r is Err,
            },
    {
        match ctx.cached_span() {
            Some(sp) => Ok(TracingSpan(duplicate_span(sp))),
            None => Err(MissingContext),
        }
    }
}

/// A field-for-field copy of cached span data.
fn duplicate_span(sp: &SpanData) -> (r: SpanData)
    ensures
        r@ == sp@,
{
    SpanData {
        method: sp.method.clone(),
        path: sp.path.clone(),
        status_code: sp.status_code,
        output: match &sp.output {
            Some(s) => Some(s.clone()),
            None => None,
        },
    }
}

impl TracingFairing {
    /// The fairing's self-description: its name and the two lifecycle
    /// boundaries it hooks.
    pub fn info(&self) -> (r: FairingInfo)
        ensures
            r.name@ == "Tracing Fairing"@,
            r.on_request_hook,
            r.on_response_hook,
    {
        FairingInfo {
            name: "Tracing Fairing".to_owned(),
            on_request_hook: true,
            on_response_hook: true,
        }
    }

    /// Request-start hook: resolve the correlation identifier from the
    /// inbound header and open the request's span, both through the
    /// request-scoped cache, so that running the hook twice changes
    /// nothing and existing values are never overwritten.
    pub fn on_request(
        &self,
        ctx: &mut RequestContext,
        inbound_id: Option<&str>,
        method: &str,
        path: &str,
    )
        ensures
            exists|fresh: Seq<char>|
                #[trigger] is_canonical_id(fresh) && final(ctx)@ == spec_on_request(
                    old(ctx)@,
                    header_view(inbound_id),
                    fresh,
                    method@,
                    path@,
                ),
            old(ctx)@.request_id is Some ==> final(ctx)@.request_id == old(ctx)@.request_id,
            (old(ctx)@.request_id is None && header_supplied(header_view(inbound_id)))
                ==> final(ctx)@.request_id == header_view(inbound_id),
            (old(ctx)@.request_id is None && !header_supplied(header_view(inbound_id))) ==> (
            final(ctx)@.request_id matches Some(v) && is_canonical_id(v)),
            final(ctx)@.request_id is Some,
            old(ctx)@.span is Some ==> final(ctx)@.span == old(ctx)@.span,
            old(ctx)@.span is None ==> final(ctx)@.span == Some(
                SpanView { method: method@, path: path@, status_code: None, output: None },
            ),
    {
        let ghost pre = ctx@;
        let id = resolve_request_id(inbound_id);
        let ghost fresh = choose|f: Seq<char>|
            is_canonical_id(f) && id@ == resolved_id(header_view(inbound_id), f);
        ctx.cache_request_id(id);
        let sp = SpanData {
            method: method.to_owned(),
            path: path.to_owned(),
            status_code: None,
            output: None,
        };
        ctx.cache_span(sp);
        proof {
            assert(is_canonical_id(fresh) && ctx@ == spec_on_request(
                pre,
                header_view(inbound_id),
                fresh,
                method@,
                path@,
            ));
        }
    }

    /// Response-finish hook: record the final status on the span (a
    /// no-op when no span was ever opened, which is not fatal), build
    /// the completion log line when both span and identifier exist, and
    /// echo the cached identifier as the response header value.
    pub fn on_response(&self, ctx: &mut RequestContext, status: u16) -> (r: ResponseOutcome)
        requires
            status <= 999,
        ensures
            final(ctx)@ == spec_on_response_ctx(old(ctx)@, status),
            r@ == spec_on_response_out(old(ctx)@, status),
            final(ctx)@.request_id == old(ctx)@.request_id,
    {
        let has_span = ctx.cached_span().is_some();
        let (header_value, log_line): (Option<String>, Option<String>) = match ctx
            .cached_request_id() {
            Some(id) => {
                let line = if has_span {
                    Some(completion_log_line(id.as_str(), status))
                } else {
                    None
                };
                (Some(id.clone()), line)
            },
            None => (None, None),
        };
        ctx.record_status(status);
        ResponseOutcome { header_value, log_line, no_span: !has_span }
    }
}

} // verus!
