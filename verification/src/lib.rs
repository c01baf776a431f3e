//! A minimal HTTP request router with a verified core.
//!
//! The crate maps an exact `(method, path)` pair to a registered handler,
//! decides what a dispatch does, and says which metric events each dispatch
//! gives rise to. Transport, handler execution and metric export belong to
//! the caller: the router hands out decisions and plain values.

pub mod clock;
pub mod dispatch;
pub mod json;
pub mod laws;
pub mod metrics;
pub mod response;
pub mod route_key;
pub mod router;
pub mod slots;

pub use clock::Stopwatch;
pub use dispatch::{Completed, Dispatch, Pending};
pub use json::{json_response, JsonResponse};
pub use metrics::{MetricEvent, RouteMetrics};
pub use response::{error_response, Header, Response, StatusCode};
pub use route_key::route_key;
pub use router::Router;
