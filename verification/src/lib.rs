//! A small local HTTP test-harness server library.
//!
//! The verified core of a launcher that serves a generated in-browser test
//! bootstrap page and its build artifacts: asset-path resolution with an
//! import-extension fallback, content-type classification, per-request
//! response planning, and generation of the bootstrap script that wires a
//! compiled module into the test-reporting interface.

pub mod bootstrap;
pub mod content_type;
pub mod handler;
pub mod laws;
pub mod paths;
pub mod request_url;
pub mod resolve;

pub use bootstrap::generate_bootstrap;
pub use content_type::mime;
pub use handler::{finish_request, HandlerConfig, HttpReply, RequestPlan};
pub use resolve::resolution_candidates;
