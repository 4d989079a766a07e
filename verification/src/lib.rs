//! A verified client library for a JSON-RPC-style social-data proxy
//! service.
//!
//! Every domain operation flows through one dispatch protocol: build a
//! payload, prepare an authenticated POST to a fixed method path, and
//! classify the provider's two-layer response envelope into a payload or
//! one of three error kinds.  The payload builders, the wire-call
//! preparation and the envelope classification are verified against the
//! mathematical document model in [`json`]; the network I/O itself stays
//! with the caller, who hands each transport outcome back to the
//! dispatcher.

pub mod api;
pub mod dispatch;
pub mod errors;
pub mod instagramapi;
pub mod json;
pub mod payloads;
pub mod threadsapi;
