//! Wire-level frame values.
//!
//! A frame is the protocol's only wire unit. Frame values are built by
//! the byte codec (an external collaborator) and consumed by exactly one
//! stage of the connection lifecycle.

use vstd::prelude::*;

verus! {

/// The single protocol version this implementation speaks; checked
/// verbatim against the `version` field of an inbound `Hello`.
pub const VERSION: u8 = 1;

/// Opcode of the `Hello` frame, reported as the expected opcode when a
/// handshake receives a frame of the wrong kind.
pub const OPCODE_HELLO: u8 = 1;

pub const OPCODE_HELLO_ACK: u8 = 2;

pub const OPCODE_PING: u8 = 3;

pub const OPCODE_PONG: u8 = 4;

pub const OPCODE_REQUEST: u8 = 5;

pub const OPCODE_RESPONSE: u8 = 6;

pub const OPCODE_PUSH: u8 = 7;

pub const OPCODE_GO_AWAY: u8 = 8;

pub const OPCODE_ERROR: u8 = 9;

/// Sent once by the initiating peer; `encodings` and `compressions` are
/// ordered by the peer's preference, most preferred first.
#[derive(Clone, Debug, PartialEq, Eq)]
pub struct Hello {
    pub flags: u8,
    pub version: u8,
    pub encodings: Vec<String>,
    pub compressions: Vec<String>,
}

/// Sent once in reply to `Hello`, carrying the negotiated parameters
/// and the local keepalive interval in milliseconds.
#[derive(Clone, Debug, PartialEq, Eq)]
pub struct HelloAck {
    pub flags: u8,
    pub ping_interval_ms: u32,
    pub encoding: String,
    pub compression: Option<String>,
}

/// Keepalive probe; answered by the transport driver with a `Pong`.
#[derive(Clone, Debug, PartialEq, Eq)]
pub struct Ping {
    pub flags: u8,
    pub sequence_id: u32,
}

/// Keepalive answer, echoing the `Ping`'s sequence id.
#[derive(Clone, Debug, PartialEq, Eq)]
pub struct Pong {
    pub flags: u8,
    pub sequence_id: u32,
}

/// Expects exactly one `Response` (or error echo) carrying the same
/// `sequence_id`. Sequence ids are assigned by the request sender and
/// are opaque to this engine: it only ever echoes the id it received.
#[derive(Clone, Debug, PartialEq, Eq)]
pub struct Request {
    pub payload: Vec<u8>,
    pub flags: u8,
    pub sequence_id: u32,
}

/// Correlated to a prior `Request` by `sequence_id`.
#[derive(Clone, Debug, PartialEq, Eq)]
pub struct Response {
    pub flags: u8,
    pub sequence_id: u32,
    pub payload: Vec<u8>,
}

/// One-way frame: no sequence id, no reply.
#[derive(Clone, Debug, PartialEq, Eq)]
pub struct Push {
    pub payload: Vec<u8>,
    pub flags: u8,
}

/// Peer-initiated termination signal; may arrive in place of `Hello`
/// during the handshake.
#[derive(Clone, Debug, PartialEq, Eq)]
pub struct GoAway {
    pub flags: u8,
    pub code: u16,
    pub payload: Vec<u8>,
}

/// Error echo for a failed request, correlated by `sequence_id`.
#[derive(Clone, Debug, PartialEq, Eq)]
pub struct ErrorFrame {
    pub flags: u8,
    pub sequence_id: u32,
    pub code: u16,
    pub payload: Vec<u8>,
}

/// One protocol frame, as produced by the byte codec after the upgrade
/// exchange has completed.
#[derive(Clone, Debug, PartialEq, Eq)]
pub enum LoquiFrame {
    Hello(Hello),
    HelloAck(HelloAck),
    Ping(Ping),
    Pong(Pong),
    Request(Request),
    Response(Response),
    Push(Push),
    GoAway(GoAway),
    Error(ErrorFrame),
}

impl LoquiFrame {
    /// The wire opcode of this frame's kind.
    pub open spec fn spec_opcode(&self) -> u8 {
        match self {
            LoquiFrame::Hello(_) => OPCODE_HELLO,
            LoquiFrame::HelloAck(_) => OPCODE_HELLO_ACK,
            LoquiFrame::Ping(_) => OPCODE_PING,
            LoquiFrame::Pong(_) => OPCODE_PONG,
            LoquiFrame::Request(_) => OPCODE_REQUEST,
            LoquiFrame::Response(_) => OPCODE_RESPONSE,
            LoquiFrame::Push(_) => OPCODE_PUSH,
            LoquiFrame::GoAway(_) => OPCODE_GO_AWAY,
            LoquiFrame::Error(_) => OPCODE_ERROR,
        }
    }

    pub fn opcode(&self) -> (op: u8)
        ensures
            op == self.spec_opcode(),
    {
        match self {
            LoquiFrame::Hello(_) => OPCODE_HELLO,
            LoquiFrame::HelloAck(_) => OPCODE_HELLO_ACK,
            LoquiFrame::Ping(_) => OPCODE_PING,
            LoquiFrame::Pong(_) => OPCODE_PONG,
            LoquiFrame::Request(_) => OPCODE_REQUEST,
            LoquiFrame::Response(_) => OPCODE_RESPONSE,
            LoquiFrame::Push(_) => OPCODE_PUSH,
            LoquiFrame::GoAway(_) => OPCODE_GO_AWAY,
            LoquiFrame::Error(_) => OPCODE_ERROR,
        }
    }
}

/// Pre-protocol frame, exchanged exactly once before protocol framing
/// begins.
#[derive(Clone, Copy, Debug, PartialEq, Eq, Structural)]
pub enum UpgradeFrame {
    Request,
    Response,
}

} // verus!
