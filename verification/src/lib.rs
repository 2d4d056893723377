//! Tracing and metrics of HTTP requests, by the OpenTelemetry semantic conventions, and the rules
//! of the services that use them.
use vstd::prelude::*;

pub mod attribute;
pub mod error;
pub mod http;
pub mod instrument;
pub mod middleware;
pub mod outcome;
pub mod outside;
pub mod services;
pub mod span;

pub use span::SpanExt;

verus! {

/// The instrumentation scope of all spans and metrics.
pub const PKG_NAME: &'static str = "service-common";

} // verus!
