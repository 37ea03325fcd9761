//! Batch operations, stream adaptation and single-flight request/response
//! sessions over a node-based publish/subscribe and RPC middleware.
//!
//! The middleware's endpoints are opaque handles: the library owns them,
//! moves them in and out of their sessions, and decides what happens on
//! every outcome that the middleware reports.

pub mod error;
pub mod session;
pub mod clientserver;
pub mod pubsub;
pub mod stream;
pub mod logger;
