use loqui_server::frames::{ErrorFrame, Push, Request, Response};
use loqui_server::handler::{
    complete_request, handle_push, handle_request, Config, ConnectionHandler, DelegatedFrame,
    DispatchAction,
};

fn handler() -> ConnectionHandler {
    ConnectionHandler::new(Config {
        supported_encodings: vec!["json".to_string()],
        supported_compressions: vec![],
        ping_interval_ms: 30_000,
        max_payload_size: 5_000_000,
    })
}

fn request(sequence_id: u32, payload: &[u8]) -> Request {
    Request { payload: payload.to_vec(), flags: 0, sequence_id }
}

#[test]
fn push_is_dispatched_fire_and_forget() {
    let push = Push { payload: vec![1, 2], flags: 0 };
    let action = handler().handle_frame(DelegatedFrame::Push(push.clone()));
    assert_eq!(action, DispatchAction::HandlePush(push));
}

#[test]
fn request_is_dispatched_for_handling() {
    let req = request(7, &[1]);
    let action = handler().handle_frame(DelegatedFrame::Request(req.clone()));
    assert_eq!(action, DispatchAction::HandleRequest(req));
}

#[test]
fn inbound_error_and_response_frames_are_ignored() {
    let error = ErrorFrame { flags: 0, sequence_id: 1, code: 2, payload: vec![] };
    assert_eq!(handler().handle_frame(DelegatedFrame::Error(error)), DispatchAction::Ignore);
    let response = Response { flags: 0, sequence_id: 1, payload: vec![] };
    assert_eq!(handler().handle_frame(DelegatedFrame::Response(response)), DispatchAction::Ignore);
}

#[test]
fn decoded_push_reaches_the_application() {
    let r: Option<&str> = handle_push(Ok::<&str, String>("event"));
    assert_eq!(r, Some("event"));
}

#[test]
fn failed_push_decode_is_dropped_without_a_frame() {
    let r: Option<&str> = handle_push(Err::<&str, String>("bad payload".to_string()));
    assert_eq!(r, None);
}

#[test]
fn failed_request_decode_reports_the_sequence_id() {
    let req = request(41, &[0xff]);
    let r = handle_request::<&str, String>(&req, Err("bad payload".to_string()));
    assert_eq!(r, Err(("bad payload".to_string(), 41)));
}

#[test]
fn decoded_request_keeps_its_sequence_id() {
    let req = request(41, &[1]);
    let pending = handle_request::<&str, String>(&req, Ok("ping")).expect("decode succeeded");
    assert_eq!(pending.value, "ping");
    assert_eq!(pending.sequence_id, 41);
}

#[test]
fn sequence_id_round_trips_into_the_response() {
    let req = request(99, &[1]);
    let pending = handle_request::<&str, String>(&req, Ok("ping")).expect("decode succeeded");
    let encoded: Result<Vec<u8>, String> = Ok(vec![4, 5, 6]);
    let response = complete_request(pending.sequence_id, encoded).expect("encode succeeded");
    assert_eq!(
        response,
        Response { flags: 0, sequence_id: 99, payload: vec![4, 5, 6] }
    );
}

#[test]
fn failed_encode_reports_the_sequence_id() {
    let r = complete_request::<String>(99, Err("cannot encode".to_string()));
    assert_eq!(r, Err(("cannot encode".to_string(), 99)));
}

#[test]
fn out_of_order_completion_keeps_each_sequence_id() {
    // Two requests dispatched back-to-back; the first one's handler is
    // slower, so the second completes first.
    let first = request(1, &[10]);
    let second = request(2, &[20]);
    let first_pending =
        handle_request::<&str, String>(&first, Ok("slow")).expect("decode succeeded");
    let second_pending =
        handle_request::<&str, String>(&second, Ok("fast")).expect("decode succeeded");

    let second_response =
        complete_request::<String>(second_pending.sequence_id, Ok(vec![20])).unwrap();
    let first_response =
        complete_request::<String>(first_pending.sequence_id, Ok(vec![10])).unwrap();

    assert_eq!(second_response.sequence_id, 2);
    assert_eq!(second_response.payload, vec![20]);
    assert_eq!(first_response.sequence_id, 1);
    assert_eq!(first_response.payload, vec![10]);
    assert_ne!(first_response.sequence_id, second_response.sequence_id);
}
