//! Per-request observability: correlation identifiers, a request-scoped
//! cache, and a span lifecycle that records the response status and
//! echoes the identifier back to the caller.

pub mod config;
pub mod context;
pub mod endpoint;
pub mod ids;
pub mod laws;
pub mod logline;
pub mod spans;
