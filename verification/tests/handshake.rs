use loqui_server::errors::{HandlerError, LoquiError};
use loqui_server::frames::{
    GoAway, Hello, LoquiFrame, Ping, Request, UpgradeFrame, OPCODE_HELLO, OPCODE_PING,
    OPCODE_REQUEST, VERSION,
};
use loqui_server::handler::{Config, ConnectionHandler};

fn names(list: &[&str]) -> Vec<String> {
    list.iter().map(|s| s.to_string()).collect()
}

fn test_config() -> Config {
    Config {
        supported_encodings: names(&["json", "msgpack"]),
        supported_compressions: names(&["gzip"]),
        ping_interval_ms: 30_000,
        max_payload_size: 5_000_000,
    }
}

fn handler() -> ConnectionHandler {
    ConnectionHandler::new(test_config())
}

fn hello(version: u8, encodings: &[&str], compressions: &[&str]) -> Hello {
    Hello {
        flags: 3,
        version,
        encodings: names(encodings),
        compressions: names(compressions),
    }
}

#[test]
fn accepted_hello_builds_ready_and_ack() {
    let r = handler().handle_handshake_hello(hello(VERSION, &["json"], &["gzip"]));
    let (ready, ack) = r.expect("hello should be accepted");
    assert_eq!(ready.ping_interval_ms, 30_000);
    assert_eq!(ready.transport_options.encoding, "json".to_string());
    assert_eq!(ready.transport_options.compression, Some("gzip".to_string()));
    assert_eq!(ack.flags, 3);
    assert_eq!(ack.ping_interval_ms, 30_000);
    assert_eq!(ack.encoding, "json".to_string());
    assert_eq!(ack.compression, Some("gzip".to_string()));
}

#[test]
fn empty_compression_candidates_negotiate_none() {
    let r = handler().handle_handshake_hello(hello(VERSION, &["msgpack"], &[]));
    let (ready, ack) = r.expect("hello should be accepted");
    assert_eq!(ready.transport_options.encoding, "msgpack".to_string());
    assert_eq!(ready.transport_options.compression, None);
    assert_eq!(ack.compression, None);
}

#[test]
fn version_mismatch_fails_despite_valid_encodings() {
    let r = handler().handle_handshake_hello(hello(VERSION + 1, &["json"], &["gzip"]));
    assert_eq!(
        r,
        Err(LoquiError::UnsupportedVersion { expected: VERSION, actual: VERSION + 1 })
    );
}

#[test]
fn no_common_encoding_fails() {
    let r = handler().handle_handshake_hello(hello(VERSION, &["xml"], &["gzip"]));
    assert_eq!(r, Err(LoquiError::NoCommonEncoding));
}

#[test]
fn no_common_compression_fails() {
    let r = handler().handle_handshake_hello(hello(VERSION, &["json"], &["lz4"]));
    assert_eq!(r, Err(LoquiError::NoCommonCompression));
}

#[test]
fn go_away_fails_with_told_to_go_away() {
    let go_away = GoAway { flags: 0, code: 1, payload: vec![] };
    let r = handler().handle_handshake_frame(LoquiFrame::GoAway(go_away.clone()));
    assert_eq!(r, Err(LoquiError::ToldToGoAway { go_away }));
}

#[test]
fn non_hello_non_go_away_fails_with_invalid_opcode() {
    let ping = Ping { flags: 0, sequence_id: 1 };
    let r = handler().handle_handshake_frame(LoquiFrame::Ping(ping));
    assert_eq!(
        r,
        Err(LoquiError::InvalidOpcode { actual: OPCODE_PING, expected: Some(OPCODE_HELLO) })
    );

    let request = Request { payload: vec![1], flags: 0, sequence_id: 2 };
    let r = handler().handle_handshake_frame(LoquiFrame::Request(request));
    assert_eq!(
        r,
        Err(LoquiError::InvalidOpcode { actual: OPCODE_REQUEST, expected: Some(OPCODE_HELLO) })
    );
}

#[test]
fn handshake_stage_accepts_hello_event() {
    let event: Option<Result<LoquiFrame, String>> =
        Some(Ok(LoquiFrame::Hello(hello(VERSION, &["json"], &[]))));
    let r = handler().handshake(event);
    let (ready, ack) = r.expect("handshake should succeed");
    assert_eq!(ready.transport_options.encoding, "json".to_string());
    assert_eq!(ack.encoding, "json".to_string());
}

#[test]
fn handshake_stage_wraps_protocol_errors() {
    let go_away = GoAway { flags: 0, code: 1, payload: vec![] };
    let event: Option<Result<LoquiFrame, String>> =
        Some(Ok(LoquiFrame::GoAway(go_away.clone())));
    let r = handler().handshake(event);
    assert_eq!(
        r,
        Err(HandlerError::Protocol(LoquiError::ToldToGoAway { go_away }))
    );
}

#[test]
fn handshake_stage_propagates_transport_errors() {
    let event: Option<Result<LoquiFrame, String>> = Some(Err("connection reset".to_string()));
    let r = handler().handshake(event);
    assert_eq!(r, Err(HandlerError::Transport("connection reset".to_string())));
}

#[test]
fn handshake_stage_reports_clean_close() {
    let event: Option<Result<LoquiFrame, String>> = None;
    let r = handler().handshake(event);
    assert_eq!(r, Err(HandlerError::Protocol(LoquiError::TcpStreamClosed)));
}

#[test]
fn upgrade_request_is_answered_with_response() {
    let event: Option<Result<UpgradeFrame, String>> = Some(Ok(UpgradeFrame::Request));
    let r = handler().upgrade(event);
    assert_eq!(r, Ok(UpgradeFrame::Response));
}

#[test]
fn wrong_upgrade_frame_is_fatal() {
    let event: Option<Result<UpgradeFrame, String>> = Some(Ok(UpgradeFrame::Response));
    let r = handler().upgrade(event);
    assert_eq!(
        r,
        Err(HandlerError::Protocol(LoquiError::InvalidUpgradeFrame {
            frame: UpgradeFrame::Response
        }))
    );
}

#[test]
fn upgrade_propagates_transport_errors() {
    let event: Option<Result<UpgradeFrame, String>> = Some(Err("broken pipe".to_string()));
    let r = handler().upgrade(event);
    assert_eq!(r, Err(HandlerError::Transport("broken pipe".to_string())));
}

#[test]
fn upgrade_reports_clean_close() {
    let event: Option<Result<UpgradeFrame, String>> = None;
    let r = handler().upgrade(event);
    assert_eq!(r, Err(HandlerError::Protocol(LoquiError::TcpStreamClosed)));
}

#[test]
fn handler_exposes_configured_limits() {
    let h = handler();
    assert_eq!(h.max_payload_size(), 5_000_000);
    assert!(h.send_go_away());
    assert_eq!(h.handle_internal_event(), None);
    h.handle_ping();
}
