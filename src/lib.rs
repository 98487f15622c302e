//! Client side of an HTTP `CONNECT` tunnel handshake, as a verified state machine.
//!
//! The library writes the request bytes, judges the proxy's reply as it
//! accumulates, and decides when the tunnel is up. Moving bytes over a stream
//! is left to the caller.

pub mod request;
pub mod response;
pub mod error;
pub mod handshake;
pub mod target;
