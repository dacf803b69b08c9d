//! Failure values for the connection lifecycle.

use crate::frames::{GoAway, UpgradeFrame};
use vstd::prelude::*;

verus! {

/// A protocol-level failure: the peer broke the protocol, refused the
/// connection, or asked for capabilities the local side does not have.
#[derive(Clone, Debug, PartialEq, Eq)]
pub enum LoquiError {
    /// The upgrade stage read a recognized frame that was not an
    /// `UpgradeRequest`; the offending frame is carried for diagnostics.
    InvalidUpgradeFrame { frame: UpgradeFrame },
    /// The stream ended cleanly before the expected frame arrived.
    TcpStreamClosed,
    /// The peer sent `GoAway` in place of `Hello`: it refused before any
    /// version check, which is not a protocol violation by the local side.
    ToldToGoAway { go_away: GoAway },
    /// The handshake read a frame that is neither `Hello` nor `GoAway`.
    InvalidOpcode { actual: u8, expected: Option<u8> },
    /// The peer speaks a different protocol version.
    UnsupportedVersion { expected: u8, actual: u8 },
    /// No encoding candidate is locally recognized.
    NoCommonEncoding,
    /// The compression candidate list was non-empty but none of its
    /// entries is locally recognized.
    NoCommonCompression,
}

/// A stage failure: either a protocol-level error or an error of the
/// underlying transport, propagated unchanged.
#[derive(Clone, Debug, PartialEq, Eq)]
pub enum HandlerError<E> {
    Protocol(LoquiError),
    Transport(E),
}

} // verus!
