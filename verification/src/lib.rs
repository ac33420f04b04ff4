//! Supervision of one external worker process, and a proxy for the fixed set
//! of HTTP requests that a hosting user interface sends to that worker's
//! local API.
//!
//! The decision logic lives here, verified: the start/stop/status state
//! machine of the process slot, the request plans for every endpoint, the
//! mapping of transport, status and parse failures into one error taxonomy,
//! and the broadcaster's publish-on-success rule. The hosting layer performs
//! the outside work these decisions call for (spawning, probing, sending)
//! and feeds the results back in as plain values.

pub mod json;
pub mod proxy;
pub mod supervisor;
pub mod updates;
