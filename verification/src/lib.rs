//! JSON-RPC over any transport: the canonical request and response, their
//! transcoding from and to JSON text, a method router with aliases and the
//! two parameter conventions, the steps of the layers that wrap services,
//! and the client's side of a call.
//!
//! Everything here is decided on plain values. What waits on a transport or
//! on a handler happens outside, between the steps.

pub mod client;
pub mod describe;
pub mod error;
pub mod json;
pub mod message;
pub mod middleware;
pub mod names;
pub mod render;
pub mod router;
pub mod server;
pub mod wire;
