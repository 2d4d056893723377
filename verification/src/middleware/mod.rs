//! Middleware that traces and measures requests, on either side of an exchange.
pub mod client_metrics;
pub mod client_trace;
pub mod metrics;
pub mod trace;
