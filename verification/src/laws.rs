//! The general guarantees of the instrumentation, stated and proved
//! over the spec-level model of the hooks. Together with the hooks'
//! own contracts they pin down what every request observes.

use vstd::prelude::*;
use crate::context::{lifecycle_of, CtxView, Lifecycle};
use crate::ids::{header_supplied, is_canonical_id, resolved_id};
use crate::spans::{spec_on_request, spec_on_response_ctx, spec_on_response_out};

verus! {

/// A request that arrives without a usable inbound identifier leaves
/// with a freshly generated one: after the request hook the cached
/// identifier is exactly the generated canonical identifier — 36
/// characters, in particular non-empty — and the response hook echoes
/// that same identifier as the response header.
pub proof fn lemma_generated_identifier_canonical(
    c: CtxView,
    inbound: Option<Seq<char>>,
    fresh: Seq<char>,
    method: Seq<char>,
    path: Seq<char>,
    status: u16,
)
    requires
        c.request_id is None,
        !header_supplied(inbound),
        is_canonical_id(fresh),
    ensures
        spec_on_request(c, inbound, fresh, method, path).request_id == Some(fresh),
        fresh.len() == 36,
        fresh.len() > 0,
        spec_on_response_out(spec_on_request(c, inbound, fresh, method, path), status).header_value
            == Some(fresh),
{
}

/// Round trip: a request that arrives with a non-empty inbound
/// identifier `v` caches exactly `v`, whatever identifier generation
/// would have produced, and the response hook echoes exactly `v` as the
/// response header.
pub proof fn lemma_inbound_identifier_round_trip(
    c: CtxView,
    v: Seq<char>,
    fresh: Seq<char>,
    method: Seq<char>,
    path: Seq<char>,
    status: u16,
)
    requires
        c.request_id is None,
        v.len() > 0,
    ensures
        spec_on_request(c, Some(v), fresh, method, path).request_id == Some(v),
        spec_on_response_out(spec_on_request(c, Some(v), fresh, method, path), status).header_value
            == Some(v),
{
}

/// Isolation: each request's identifier is a function of that request's
/// own context and inputs alone. Two requests whose resolved
/// identifiers differ can never see each other's identifier — reading
/// the identifier inside one request's handler yields that request's
/// identifier and not the other's.
pub proof fn lemma_no_cross_request_visibility(
    a: CtxView,
    b: CtxView,
    inbound_a: Option<Seq<char>>,
    inbound_b: Option<Seq<char>>,
    fresh_a: Seq<char>,
    fresh_b: Seq<char>,
    method_a: Seq<char>,
    method_b: Seq<char>,
    path_a: Seq<char>,
    path_b: Seq<char>,
)
    requires
        a.request_id is None,
        b.request_id is None,
        resolved_id(inbound_a, fresh_a) != resolved_id(inbound_b, fresh_b),
    ensures
        spec_on_request(a, inbound_a, fresh_a, method_a, path_a).request_id == Some(
            resolved_id(inbound_a, fresh_a),
        ),
        spec_on_request(b, inbound_b, fresh_b, method_b, path_b).request_id == Some(
            resolved_id(inbound_b, fresh_b),
        ),
        spec_on_request(a, inbound_a, fresh_a, method_a, path_a).request_id != spec_on_request(
            b,
            inbound_b,
            fresh_b,
            method_b,
            path_b,
        ).request_id,
{
}

/// Status fidelity: when a span was opened for the request, the
/// response hook records on it exactly the status that is sent on the
/// wire, and the span's other fields are untouched.
pub proof fn lemma_status_recorded(c: CtxView, status: u16)
    requires
        c.span is Some,
    ensures
        spec_on_response_ctx(c, status).span matches Some(sp) && sp.status_code == Some(status),
        spec_on_response_ctx(c, status).span matches Some(sp)
            ==> c.span matches Some(pre)
            && sp.method == pre.method
            && sp.path == pre.path
            && sp.output == pre.output,
        spec_on_response_ctx(c, status).request_id == c.request_id,
{
}

/// The span lifecycle of an instrumented request advances `Unopened`
/// -> `Open` at the request hook and `Open` -> `Closed` at the response
/// hook; each transition happens exactly once.
pub proof fn lemma_span_lifecycle(
    c: CtxView,
    inbound: Option<Seq<char>>,
    fresh: Seq<char>,
    method: Seq<char>,
    path: Seq<char>,
    status: u16,
)
    requires
        lifecycle_of(c) is Unopened,
    ensures
        lifecycle_of(spec_on_request(c, inbound, fresh, method, path)) is Open,
        lifecycle_of(
            spec_on_response_ctx(spec_on_request(c, inbound, fresh, method, path), status),
        ) is Closed,
{
}

/// Write-once: the request hook initializes each cache slot at most
/// once, so running it a second time — with any inputs — changes
/// nothing.
pub proof fn lemma_request_hook_idempotent(
    c: CtxView,
    inbound_1: Option<Seq<char>>,
    inbound_2: Option<Seq<char>>,
    fresh_1: Seq<char>,
    fresh_2: Seq<char>,
    method_1: Seq<char>,
    method_2: Seq<char>,
    path_1: Seq<char>,
    path_2: Seq<char>,
)
    ensures
        spec_on_request(
            spec_on_request(c, inbound_1, fresh_1, method_1, path_1),
            inbound_2,
            fresh_2,
            method_2,
            path_2,
        ) == spec_on_request(c, inbound_1, fresh_1, method_1, path_1),
{
}

} // verus!
