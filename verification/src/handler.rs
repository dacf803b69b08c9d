//! The connection handler: the per-connection state machine that the
//! transport driver runs. The driver owns the socket and the timers and
//! performs every read and write; the functions here make all the
//! decisions, and their contracts pin each decision down.

use crate::errors::{HandlerError, LoquiError};
use crate::frames::{
    ErrorFrame, Hello, HelloAck, LoquiFrame, Push, Request, Response, UpgradeFrame, OPCODE_HELLO,
    VERSION,
};
use crate::negotiation::{first_supported, negotiate_compression, negotiate_encoding, seq_contains};
use vstd::prelude::*;

verus! {

/// Immutable result of negotiation, attached to the connection for the
/// rest of its life; the external codec builds the active encoder from
/// it.
#[derive(Clone, Debug, PartialEq, Eq)]
pub struct TransportOptions {
    pub encoding: String,
    pub compression: Option<String>,
}

/// The output of a successful handshake. Its existence is the only
/// "handshake complete" marker: no partial state is representable, and
/// no frame may reach the steady-state dispatcher before it exists.
#[derive(Clone, Debug, PartialEq, Eq)]
pub struct Ready {
    pub ping_interval_ms: u32,
    pub transport_options: TransportOptions,
}

/// Local configuration: the registry of supported encoding and
/// compression names, the keepalive interval advertised to the peer,
/// and the maximum payload size the driver enforces.
#[derive(Clone, Debug, PartialEq, Eq)]
pub struct Config {
    pub supported_encodings: Vec<String>,
    pub supported_compressions: Vec<String>,
    pub ping_interval_ms: u32,
    pub max_payload_size: u64,
}

/// A steady-state frame delegated to the dispatcher by the transport
/// driver, after `Ready` exists for the connection.
#[derive(Clone, Debug, PartialEq, Eq)]
pub enum DelegatedFrame {
    Push(Push),
    Request(Request),
    Error(ErrorFrame),
    Response(Response),
}

/// The dispatcher's decision for one inbound steady-state frame.
#[derive(Clone, Debug, PartialEq, Eq)]
pub enum DispatchAction {
    /// Hand the push's payload to the application fire-and-forget: the
    /// dispatcher never awaits it and no frame is ever produced for it.
    HandlePush(Push),
    /// Run the request; exactly one `Response` (or an error paired with
    /// the request's sequence id) is owed for it.
    HandleRequest(Request),
    /// Inbound `Error` and `Response` frames are explicit no-ops at this
    /// layer; a higher correlation layer may act on them.
    Ignore,
}

/// A decoded request waiting for the application handler's answer,
/// still carrying the sequence id it must be answered under.
#[derive(Clone, Debug, PartialEq, Eq)]
pub struct PendingRequest<T> {
    pub value: T,
    pub sequence_id: u32,
}

/// The view of an optional negotiated name.
pub open spec fn opt_string_view(name: Option<String>) -> Option<Seq<char>> {
    match name {
        Some(s) => Some(s@),
        None => None,
    }
}

/// The encoding a `Hello` negotiates against the local registry, if any.
pub open spec fn negotiated_encoding(hello: Hello, config: Config) -> Option<Seq<char>> {
    first_supported(hello.encodings.deep_view(), config.supported_encodings.deep_view())
}

/// The compression a `Hello` negotiates: an empty candidate list is a
/// valid "no compression requested" and negotiates `None`; a non-empty
/// list negotiates its first locally supported entry or fails.
pub open spec fn negotiated_compression(hello: Hello, config: Config) -> Option<
    Option<Seq<char>>,
> {
    if hello.compressions.deep_view().len() == 0 {
        Some(None)
    } else {
        match first_supported(
            hello.compressions.deep_view(),
            config.supported_compressions.deep_view(),
        ) {
            Some(compression) => Some(Some(compression)),
            None => None,
        }
    }
}

/// Whether an inbound `Hello` passes the version check and both
/// negotiations.
pub open spec fn hello_accepted(hello: Hello, config: Config) -> bool {
    &&& hello.version == VERSION
    &&& negotiated_encoding(hello, config) is Some
    &&& negotiated_compression(hello, config) is Some
}

/// The error a rejected `Hello` fails with: the version check comes
/// first, then encoding negotiation, then compression negotiation.
pub open spec fn hello_error(hello: Hello, config: Config) -> LoquiError {
    if hello.version != VERSION {
        LoquiError::UnsupportedVersion { expected: VERSION, actual: hello.version }
    } else if negotiated_encoding(hello, config) is None {
        LoquiError::NoCommonEncoding
    } else {
        LoquiError::NoCommonCompression
    }
}

/// How `Ready` and `HelloAck` relate to the accepted `Hello`: both carry
/// the negotiated encoding and compression, and the ack echoes the
/// hello's flags and advertises the configured keepalive interval.
pub open spec fn hello_ack_matches(
    hello: Hello,
    config: Config,
    ready: Ready,
    ack: HelloAck,
) -> bool {
    &&& ready.ping_interval_ms == config.ping_interval_ms
    &&& Some(ready.transport_options.encoding@) == negotiated_encoding(hello, config)
    &&& Some(opt_string_view(ready.transport_options.compression)) == negotiated_compression(
        hello,
        config,
    )
    &&& ack.flags == hello.flags
    &&& ack.ping_interval_ms == config.ping_interval_ms
    &&& ack.encoding@ == ready.transport_options.encoding@
    &&& opt_string_view(ack.compression) == opt_string_view(ready.transport_options.compression)
}

/// Whether a handshake frame establishes `Ready`: only an accepted
/// `Hello` does.
pub open spec fn handshake_frame_ok(frame: LoquiFrame, config: Config) -> bool {
    frame matches LoquiFrame::Hello(hello) && hello_accepted(hello, config)
}

/// The error a failed handshake frame produces: a rejected `Hello`
/// fails its own validation, `GoAway` means the peer refused, and any
/// other frame kind is an invalid opcode where `Hello` was expected.
pub open spec fn handshake_frame_error(frame: LoquiFrame, config: Config) -> LoquiError {
    match frame {
        LoquiFrame::Hello(hello) => hello_error(hello, config),
        LoquiFrame::GoAway(go_away) => LoquiError::ToldToGoAway { go_away },
        _ => LoquiError::InvalidOpcode {
            actual: frame.spec_opcode(),
            expected: Some(OPCODE_HELLO),
        },
    }
}

/// The dispatcher's decision table: pushes are fire-and-forget, requests
/// owe a response, inbound `Error` and `Response` frames are ignored.
pub open spec fn spec_dispatch(frame: DelegatedFrame) -> DispatchAction {
    match frame {
        DelegatedFrame::Push(push) => DispatchAction::HandlePush(push),
        DelegatedFrame::Request(request) => DispatchAction::HandleRequest(request),
        DelegatedFrame::Error(_) => DispatchAction::Ignore,
        DelegatedFrame::Response(_) => DispatchAction::Ignore,
    }
}

/// The one outbound frame owed for a handled request, as a function of
/// the encode outcome: a `Response` with zero flags and the request's
/// own sequence id, or the encode error paired with that same id.
pub open spec fn spec_complete_request<CE>(sequence_id: u32, encoded: Result<Vec<u8>, CE>) -> Result<
    Response,
    (CE, u32),
> {
    match encoded {
        Ok(payload) => Ok(Response { flags: 0, sequence_id, payload }),
        Err(e) => Err((e, sequence_id)),
    }
}

/// The per-connection handler the transport driver consults.
#[derive(Clone, Debug, PartialEq, Eq)]
pub struct ConnectionHandler {
    pub config: Config,
}

impl ConnectionHandler {
    pub fn new(config: Config) -> (handler: Self)
        ensures
            handler.config == config,
    {
        ConnectionHandler { config }
    }

    /// Maximum payload size, read by the transport driver.
    pub fn max_payload_size(&self) -> (size: u64)
        ensures
            size == self.config.max_payload_size,
    {
        self.config.max_payload_size
    }

    /// Policy flag read by the transport driver: on a fatal shutdown a
    /// `GoAway` frame is sent before the connection closes.
    pub fn send_go_away(&self) -> (flag: bool)
        ensures
            flag,
    {
        true
    }

    /// Notification point for received keepalive frames. Timeout
    /// detection and outbound ping scheduling live in the transport
    /// driver, which owns the timer; this hook decides nothing.
    pub fn handle_ping(&self) {
    }

    /// Internal events never produce an outbound frame.
    pub fn handle_internal_event(&self) -> (frame: Option<LoquiFrame>)
        ensures
            frame is None,
    {
        None
    }

    /// The upgrade stage's decision for the one pre-protocol frame read
    /// from the raw stream. An `UpgradeRequest` is answered with exactly
    /// one `UpgradeResponse`, after which the stream carries protocol
    /// frames; anything else is fatal and nothing further is written.
    /// A read error propagates unchanged; a clean end of stream before
    /// any frame is `TcpStreamClosed`.
    pub fn upgrade<E>(&self, event: Option<Result<UpgradeFrame, E>>) -> (r: Result<
        UpgradeFrame,
        HandlerError<E>,
    >)
        ensures
            event matches Some(Ok(frame)) ==> (if frame == UpgradeFrame::Request {
                r == Ok::<UpgradeFrame, HandlerError<E>>(UpgradeFrame::Response)
            } else {
                r == Err::<UpgradeFrame, HandlerError<E>>(
                    HandlerError::Protocol(LoquiError::InvalidUpgradeFrame { frame }),
                )
            }),
            event matches Some(Err(e)) ==> r == Err::<UpgradeFrame, HandlerError<E>>(
                HandlerError::Transport(e),
            ),
            event is None ==> r == Err::<UpgradeFrame, HandlerError<E>>(
                HandlerError::Protocol(LoquiError::TcpStreamClosed),
            ),
    {
        match event {
            Some(Ok(UpgradeFrame::Request)) => Ok(UpgradeFrame::Response),
            Some(Ok(frame)) => Err(HandlerError::Protocol(LoquiError::InvalidUpgradeFrame {
                frame,
            })),
            Some(Err(e)) => Err(HandlerError::Transport(e)),
            None => Err(HandlerError::Protocol(LoquiError::TcpStreamClosed)),
        }
    }

    /// Validates an inbound `Hello`: the version must equal `VERSION`,
    /// then encoding and compression are negotiated in peer-preference
    /// order. On success the `HelloAck` to write and the connection's
    /// `Ready` are built; on failure the exact rejection is returned.
    pub fn handle_handshake_hello(&self, hello: Hello) -> (r: Result<
        (Ready, HelloAck),
        LoquiError,
    >)
        ensures
            hello_accepted(hello, self.config) ==> (r matches Ok(ok) && hello_ack_matches(
                hello,
                self.config,
                ok.0,
                ok.1,
            )),
            !hello_accepted(hello, self.config) ==> r == Err::<(Ready, HelloAck), LoquiError>(
                hello_error(hello, self.config),
            ),
    {
        if hello.version != VERSION {
            return Err(LoquiError::UnsupportedVersion { expected: VERSION, actual: hello.version });
        }
        let encoding = match negotiate_encoding(&hello.encodings, &self.config.supported_encodings) {
            Ok(encoding) => encoding,
            Err(e) => {
                return Err(e);
            },
        };
        let compression = match negotiate_compression(
            &hello.compressions,
            &self.config.supported_compressions,
        ) {
            Ok(compression) => compression,
            Err(e) => {
                return Err(e);
            },
        };
        let ack_compression = match &compression {
            Some(c) => Some(c.clone()),
            None => None,
        };
        let hello_ack = HelloAck {
            flags: hello.flags,
            ping_interval_ms: self.config.ping_interval_ms,
            encoding: encoding.clone(),
            compression: ack_compression,
        };
        let ready = Ready {
            ping_interval_ms: self.config.ping_interval_ms,
            transport_options: TransportOptions { encoding, compression },
        };
        Ok((ready, hello_ack))
    }

    /// Dispatch of the one handshake frame by kind: `Hello` proceeds to
    /// validation, `GoAway` means the peer refused before any version
    /// check, and any other kind fails with `InvalidOpcode` carrying the
    /// frame's opcode and the expected `Hello` opcode.
    pub fn handle_handshake_frame(&self, frame: LoquiFrame) -> (r: Result<
        (Ready, HelloAck),
        LoquiError,
    >)
        ensures
            frame matches LoquiFrame::Hello(hello) ==> (hello_accepted(hello, self.config) ==> (
            r matches Ok(ok) && hello_ack_matches(hello, self.config, ok.0, ok.1))),
            !handshake_frame_ok(frame, self.config) ==> r == Err::<(Ready, HelloAck), LoquiError>(
                handshake_frame_error(frame, self.config),
            ),
    {
        match frame {
            LoquiFrame::Hello(hello) => self.handle_handshake_hello(hello),
            LoquiFrame::GoAway(go_away) => Err(LoquiError::ToldToGoAway { go_away }),
            frame => Err(LoquiError::InvalidOpcode {
                actual: frame.opcode(),
                expected: Some(OPCODE_HELLO),
            }),
        }
    }

    /// The handshake stage's decision for the one protocol frame read
    /// after the upgrade. On success the caller writes the returned
    /// `HelloAck` and hands `Ready` with the stream to the dispatcher;
    /// on failure the connection ends. A read error propagates
    /// unchanged; a clean end of stream is `TcpStreamClosed`.
    pub fn handshake<E>(&self, event: Option<Result<LoquiFrame, E>>) -> (r: Result<
        (Ready, HelloAck),
        HandlerError<E>,
    >)
        ensures
            event matches Some(Ok(LoquiFrame::Hello(hello))) ==> (hello_accepted(
                hello,
                self.config,
            ) ==> (r matches Ok(ok) && hello_ack_matches(hello, self.config, ok.0, ok.1))),
            event matches Some(Ok(frame)) ==> (!handshake_frame_ok(frame, self.config) ==> r
                == Err::<(Ready, HelloAck), HandlerError<E>>(
                HandlerError::Protocol(handshake_frame_error(frame, self.config)),
            )),
            event matches Some(Err(e)) ==> r == Err::<(Ready, HelloAck), HandlerError<E>>(
                HandlerError::Transport(e),
            ),
            event is None ==> r == Err::<(Ready, HelloAck), HandlerError<E>>(
                HandlerError::Protocol(LoquiError::TcpStreamClosed),
            ),
    {
        match event {
            Some(Ok(frame)) => match self.handle_handshake_frame(frame) {
                Ok(ready_ack) => Ok(ready_ack),
                Err(e) => Err(HandlerError::Protocol(e)),
            },
            Some(Err(e)) => Err(HandlerError::Transport(e)),
            None => Err(HandlerError::Protocol(LoquiError::TcpStreamClosed)),
        }
    }

    /// Classifies one inbound steady-state frame. At most one outbound
    /// frame is ever owed per inbound frame, and only for a `Request`;
    /// a `Push` is dispatched fire-and-forget, and inbound `Error` and
    /// `Response` frames are explicit no-ops at this layer.
    pub fn handle_frame(&self, frame: DelegatedFrame) -> (action: DispatchAction)
        ensures
            action == spec_dispatch(frame),
    {
        match frame {
            DelegatedFrame::Push(push) => DispatchAction::HandlePush(push),
            DelegatedFrame::Request(request) => DispatchAction::HandleRequest(request),
            DelegatedFrame::Error(_) => DispatchAction::Ignore,
            DelegatedFrame::Response(_) => DispatchAction::Ignore,
        }
    }
}

/// The push pipeline's decision on the decode outcome of a push
/// payload: a decoded value is handed to the application's push entry
/// point, a decode failure drops the push silently — a push has no
/// reply channel, so there is nothing to report to the peer. Neither
/// case yields an outbound frame: the result type carries none.
pub fn handle_push<T, CE>(decoded: Result<T, CE>) -> (r: Option<T>)
    ensures
        decoded matches Ok(value) ==> r == Some(value),
        decoded is Err ==> r is None,
{
    match decoded {
        Ok(value) => Some(value),
        Err(_) => None,
    }
}

/// The request pipeline's decision on the decode outcome of a request
/// payload: a decoded value proceeds to the application handler under
/// the request's sequence id, and a decode failure is reported paired
/// with exactly that id, so the driver can answer the right exchange.
pub fn handle_request<T, CE>(request: &Request, decoded: Result<T, CE>) -> (r: Result<
    PendingRequest<T>,
    (CE, u32),
>)
    ensures
        decoded matches Ok(value) ==> (r matches Ok(pending) && pending.value == value
            && pending.sequence_id == request.sequence_id),
        decoded matches Err(e) ==> r == Err::<PendingRequest<T>, (CE, u32)>(
            (e, request.sequence_id),
        ),
{
    match decoded {
        Ok(value) => Ok(PendingRequest { value, sequence_id: request.sequence_id }),
        Err(e) => Err((e, request.sequence_id)),
    }
}

/// The request pipeline's final step, on the encode outcome of the
/// application handler's answer: exactly the frame (or error) that
/// `spec_complete_request` owes for the request's sequence id.
pub fn complete_request<CE>(sequence_id: u32, encoded: Result<Vec<u8>, CE>) -> (r: Result<
    Response,
    (CE, u32),
>)
    ensures
        r == spec_complete_request(sequence_id, encoded),
{
    match encoded {
        Ok(payload) => Ok(Response { flags: 0, sequence_id, payload }),
        Err(e) => Err((e, sequence_id)),
    }
}

/// A `Hello` whose candidate lists each hold a single locally supported
/// name is accepted and negotiates exactly that encoding and that
/// compression.
pub proof fn lemma_hello_singletons_accepted(hello: Hello, config: Config)
    requires
        hello.version == VERSION,
        hello.encodings.deep_view().len() == 1,
        seq_contains(config.supported_encodings.deep_view(), hello.encodings.deep_view()[0]),
        hello.compressions.deep_view().len() == 1,
        seq_contains(config.supported_compressions.deep_view(), hello.compressions.deep_view()[0]),
    ensures
        hello_accepted(hello, config),
        negotiated_encoding(hello, config) == Some(hello.encodings.deep_view()[0]),
        negotiated_compression(hello, config) == Some(Some(hello.compressions.deep_view()[0])),
{
}

/// A `Hello` with an empty compression candidate list is not rejected
/// for it: no compression was requested, and `None` is negotiated.
pub proof fn lemma_hello_no_compression_accepted(hello: Hello, config: Config)
    requires
        hello.version == VERSION,
        hello.encodings.deep_view().len() == 1,
        seq_contains(config.supported_encodings.deep_view(), hello.encodings.deep_view()[0]),
        hello.compressions.deep_view().len() == 0,
    ensures
        hello_accepted(hello, config),
        negotiated_compression(hello, config) == Some(None::<Seq<char>>),
{
}

/// A version mismatch always rejects the handshake with
/// `UnsupportedVersion`, whatever the candidate lists hold.
pub proof fn lemma_version_mismatch_rejected(hello: Hello, config: Config)
    requires
        hello.version != VERSION,
    ensures
        !hello_accepted(hello, config),
        hello_error(hello, config) == (LoquiError::UnsupportedVersion {
            expected: VERSION,
            actual: hello.version,
        }),
{
}

/// `GoAway` in place of `Hello` fails the handshake with `ToldToGoAway`
/// carrying the peer's frame, and never establishes `Ready`.
pub proof fn lemma_go_away_rejected(frame: LoquiFrame, config: Config)
    requires
        frame is GoAway,
    ensures
        !handshake_frame_ok(frame, config),
        frame matches LoquiFrame::GoAway(go_away) ==> handshake_frame_error(frame, config) == (
        LoquiError::ToldToGoAway { go_away }),
{
}

/// A handshake frame that is neither `Hello` nor `GoAway` fails with
/// `InvalidOpcode` carrying the frame's own opcode and the expected
/// `Hello` opcode, and never establishes `Ready`.
pub proof fn lemma_invalid_opcode_rejected(frame: LoquiFrame, config: Config)
    requires
        !(frame is Hello),
        !(frame is GoAway),
    ensures
        !handshake_frame_ok(frame, config),
        handshake_frame_error(frame, config) == (LoquiError::InvalidOpcode {
            actual: frame.spec_opcode(),
            expected: Some(OPCODE_HELLO),
        }),
{
}

/// A `Push` frame never produces an outbound frame: its dispatch action
/// is fire-and-forget whether or not the payload later decodes, and
/// only a `Request` is ever owed a response.
pub proof fn lemma_push_never_responds(frame: DelegatedFrame)
    requires
        frame is Push,
    ensures
        frame matches DelegatedFrame::Push(push) ==> spec_dispatch(frame)
            == DispatchAction::HandlePush(push),
        !(spec_dispatch(frame) is HandleRequest),
{
}

/// The sequence id round-trips: whatever a request's handling comes to,
/// the outcome carries exactly the id the request arrived with — a
/// successful response with zero flags and the encoded payload, or the
/// encode error paired with that id.
pub proof fn lemma_sequence_id_round_trip<CE>(sequence_id: u32, encoded: Result<Vec<u8>, CE>)
    ensures
        encoded matches Ok(payload) ==> spec_complete_request(sequence_id, encoded) == Ok::<
            Response,
            (CE, u32),
        >(Response { flags: 0, sequence_id, payload }),
        encoded matches Err(e) ==> spec_complete_request(sequence_id, encoded) == Err::<
            Response,
            (CE, u32),
        >((e, sequence_id)),
{
}

/// Requests in flight at the same time stay independent: with distinct
/// sequence ids, each outcome carries its own request's id whatever
/// order the handlers complete in, so the two responses can never be
/// confused with one another.
pub proof fn lemma_concurrent_requests_keep_ids<CE>(
    first_id: u32,
    second_id: u32,
    first_encoded: Result<Vec<u8>, CE>,
    second_encoded: Result<Vec<u8>, CE>,
)
    requires
        first_id != second_id,
    ensures
        spec_complete_request(first_id, first_encoded) matches Ok(response) ==> response.sequence_id
            == first_id,
        spec_complete_request(second_id, second_encoded) matches Ok(response)
            ==> response.sequence_id == second_id,
        spec_complete_request(first_id, first_encoded) matches Ok(first_response) ==> (
        spec_complete_request(second_id, second_encoded) matches Ok(second_response)
            ==> first_response.sequence_id != second_response.sequence_id),
{
}

} // verus!
