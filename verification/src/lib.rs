//! Connection-level protocol engine for a binary RPC transport.
//!
//! The library covers the lifecycle of one connection: the plaintext
//! upgrade exchange, the versioned `Hello`/`HelloAck` handshake with
//! capability negotiation, and the steady-state dispatch of `Push` and
//! `Request` frames. All decisions are pure functions with verified
//! contracts; the byte codec, the socket, and the application's
//! request handler are external collaborators driven from outside.

pub mod errors;
pub mod frames;
pub mod handler;
pub mod negotiation;
