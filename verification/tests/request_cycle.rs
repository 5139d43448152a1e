use request_tracing::context::RequestContext;
use request_tracing::endpoint::abc;
use request_tracing::spans::{RequestId, TracingFairing, TracingSpan};

fn is_canonical(s: &str) -> bool {
    s.len() == 36
        && s.chars().enumerate().all(|(i, c)| {
            if i == 8 || i == 13 || i == 18 || i == 23 {
                c == '-'
            } else {
                c.is_ascii_hexdigit() && !c.is_ascii_uppercase()
            }
        })
}

fn run_request(inbound: Option<&str>, status: u16) -> (RequestContext, Option<String>, Option<String>) {
    let fairing = TracingFairing;
    let mut ctx = RequestContext::new();
    fairing.on_request(&mut ctx, inbound, "GET", "/abc");
    let out = fairing.on_response(&mut ctx, status);
    (ctx, out.header_value, out.log_line)
}

#[test]
fn generated_header_is_canonical() {
    let (_, header, _) = run_request(None, 200);
    let header = header.expect("header must be set");
    assert!(!header.is_empty());
    assert!(is_canonical(&header));
}

#[test]
fn generated_headers_are_unique() {
    let mut seen: Vec<String> = Vec::new();
    for _ in 0..16 {
        let (_, header, _) = run_request(None, 200);
        let header = header.expect("header must be set");
        assert!(!seen.contains(&header));
        seen.push(header);
    }
}

#[test]
fn two_successive_generated_headers_differ() {
    let (_, first, _) = run_request(None, 200);
    let (_, second, _) = run_request(None, 200);
    let first = first.unwrap();
    let second = second.unwrap();
    assert!(is_canonical(&first));
    assert!(is_canonical(&second));
    assert_ne!(first, second);
}

#[test]
fn inbound_header_round_trips() {
    let (_, header, _) = run_request(Some("upstream-trace-7"), 200);
    assert_eq!(header.as_deref(), Some("upstream-trace-7"));
}

#[test]
fn empty_inbound_header_is_replaced() {
    let (_, header, _) = run_request(Some(""), 200);
    let header = header.expect("header must be set");
    assert!(is_canonical(&header));
}

#[test]
fn status_is_recorded_on_span() {
    for status in [200u16, 404, 500] {
        let (ctx, _, _) = run_request(None, status);
        let span = TracingSpan::from_request(&ctx).ok().expect("span must be cached");
        assert_eq!(span.0.status_code, Some(status));
        assert_eq!(span.0.method, "GET");
        assert_eq!(span.0.path, "/abc");
    }
}

#[test]
fn scenario_inbound_id_with_404() {
    let (_, header, log) = run_request(Some("abc-123"), 404);
    assert_eq!(header.as_deref(), Some("abc-123"));
    let log = log.expect("a completion line must be logged");
    assert!(log.contains("abc-123"));
    assert!(log.contains("404"));
    assert_eq!(log, "Returning request abc-123 with 404");
}

#[test]
fn extractors_fail_outside_instrumented_request() {
    let ctx = RequestContext::new();
    assert!(RequestId::from_request(&ctx).is_err());
    assert!(TracingSpan::from_request(&ctx).is_err());
}

#[test]
fn concurrent_requests_do_not_cross() {
    let fairing = TracingFairing;
    let mut ctx_a = RequestContext::new();
    let mut ctx_b = RequestContext::new();
    fairing.on_request(&mut ctx_a, Some("id-of-a"), "GET", "/abc");
    fairing.on_request(&mut ctx_b, Some("id-of-b"), "GET", "/abc");
    let id_a = RequestId::from_request(&ctx_a).ok().unwrap();
    let id_b = RequestId::from_request(&ctx_b).ok().unwrap();
    assert_eq!(id_a.0, "id-of-a");
    assert_eq!(id_b.0, "id-of-b");
    assert_ne!(id_a.0, id_b.0);
    let out_b = fairing.on_response(&mut ctx_b, 500);
    let out_a = fairing.on_response(&mut ctx_a, 200);
    assert_eq!(out_a.header_value.as_deref(), Some("id-of-a"));
    assert_eq!(out_b.header_value.as_deref(), Some("id-of-b"));
}

#[test]
fn request_hook_is_idempotent() {
    let fairing = TracingFairing;
    let mut ctx = RequestContext::new();
    fairing.on_request(&mut ctx, Some("first"), "GET", "/abc");
    fairing.on_request(&mut ctx, Some("second"), "PUT", "/other");
    let id = RequestId::from_request(&ctx).ok().unwrap();
    assert_eq!(id.0, "first");
    let span = TracingSpan::from_request(&ctx).ok().unwrap();
    assert_eq!(span.0.method, "GET");
    assert_eq!(span.0.path, "/abc");
}

#[test]
fn output_recorded_only_while_span_is_open() {
    let fairing = TracingFairing;
    let mut ctx = RequestContext::new();
    fairing.on_request(&mut ctx, Some("abc-123"), "GET", "/abc");
    ctx.record_output(String::from("while open"));
    let span = TracingSpan::from_request(&ctx).ok().unwrap();
    assert_eq!(span.0.output.as_deref(), Some("while open"));
    fairing.on_response(&mut ctx, 200);
    ctx.record_output(String::from("after close"));
    let span = TracingSpan::from_request(&ctx).ok().unwrap();
    assert_eq!(span.0.output.as_deref(), Some("while open"));
}

#[test]
fn response_without_span_is_not_fatal() {
    let fairing = TracingFairing;
    let mut ctx = RequestContext::new();
    let out = fairing.on_response(&mut ctx, 500);
    assert!(out.no_span);
    assert!(out.header_value.is_none());
    assert!(out.log_line.is_none());
}

#[test]
fn fairing_describes_both_hooks() {
    let fairing = TracingFairing;
    let info = fairing.info();
    assert_eq!(info.name, "Tracing Fairing");
    assert!(info.on_request_hook);
    assert!(info.on_response_hook);
}

#[test]
fn demonstration_endpoint_answers_404() {
    let (status, data) = abc(RequestId(String::from("abc-123")));
    assert_eq!(status, 404);
    assert_eq!(data.message, "Hello World");
    assert_eq!(data.request_id, "abc-123");
}
