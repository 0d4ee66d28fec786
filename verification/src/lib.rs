//! Client-side logic of a persistent gateway connection: the wire envelope,
//! its decoding and encoding, the session record that survives reconnects,
//! and the connection state machine that reacts to inbound frames.
//!
//! Everything here is deterministic and free of I/O. A driver owns the
//! socket, feeds inbound frames to [`ws::GatewayConnection`], and performs
//! the actions it gets back.

pub mod address;
pub mod bot;
pub mod decode;
pub mod encode;
pub mod gateway;
pub mod json;
pub mod rest;
pub mod ws;
