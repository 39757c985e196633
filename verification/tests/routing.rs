use moonsock::jsonrpc::{
    IdCounter, JsonRpcBuildError, JsonRpcError, JsonRpcErrorResponse, JsonRpcNotification,
    JsonRpcRequest, JsonRpcResponse, JsonRpcSuccessResponse, JsonText,
};
use moonsock::pending::{
    Inbound, KeyedInbound, PendingRequests, Routed, DIRTY_PENDING_RESPONSE_TIMEOUT_NANOS,
};
use moonsock::JsonRpcVersion;

const NOTE: &str = "Error: This error may not be associated with this request and may have originated from another. One of your requests had an id that the websocket server could not parse. There is probably something wrong with thewebsocket server is parsing ids.\n";

fn text(s: &str) -> JsonText {
    JsonText { text: s.to_string() }
}

fn success(id: u32, result: &str) -> JsonRpcSuccessResponse {
    JsonRpcSuccessResponse { jsonrpc: JsonRpcVersion::V2, result: text(result), id }
}

fn error(code: i32, message: &str) -> JsonRpcError {
    JsonRpcError { code, message: message.to_string(), data: None }
}

fn error_response(id: Option<u32>, code: i32, message: &str) -> JsonRpcErrorResponse {
    JsonRpcErrorResponse { jsonrpc: JsonRpcVersion::V2, error: error(code, message), id }
}

fn request() -> JsonRpcRequest {
    JsonRpcRequest::build(text("\"server.info\""), None).unwrap()
}

#[test]
fn build_request_with_string_method() {
    let r = JsonRpcRequest::build(text("\"printer.info\""), Some(text("{\"a\":1}"))).unwrap();
    assert_eq!(r.jsonrpc, JsonRpcVersion::V2);
    assert_eq!(r.method, text("\"printer.info\""));
    assert_eq!(r.params, Some(text("{\"a\":1}")));
    assert_eq!(r.id, 0);
}

#[test]
fn build_request_refuses_non_string_method() {
    assert_eq!(JsonRpcRequest::build(text("42"), None), Err(JsonRpcBuildError::MethodNotString));
    assert_eq!(JsonRpcRequest::build(text(""), None), Err(JsonRpcBuildError::MethodNotString));
    assert_eq!(
        JsonRpcRequest::build(text("{\"m\":\"x\"}"), None),
        Err(JsonRpcBuildError::MethodNotString)
    );
}

#[test]
fn notification_build_keeps_method_and_params() {
    let n = JsonRpcNotification::build("notify_gcode_response".to_string(), Some(text("[\"ok\"]")));
    assert_eq!(n.jsonrpc, JsonRpcVersion::V2);
    assert_eq!(n.method, "notify_gcode_response");
    assert_eq!(n.params, Some(text("[\"ok\"]")));
}

#[test]
fn error_describes_itself() {
    assert_eq!(error(-32601, "Method not found").describe(), "-32601: Method not found");
    let with_data = JsonRpcError {
        code: 400,
        message: "Bad".to_string(),
        data: Some(text("{\"x\":1}")),
    };
    assert_eq!(with_data.describe(), "400: message: Bad: , data: {\"x\":1}");
    assert_eq!(error(0, "").describe(), "0: ");
}

#[test]
fn id_counter_counts_from_one() {
    let mut c = IdCounter::new();
    assert_eq!(c.take(), 1);
    assert_eq!(c.take(), 2);
    assert_eq!(c.take(), 3);
}

#[test]
fn open_request_stamps_and_registers() {
    let mut p = PendingRequests::new();
    let mut c = IdCounter::new();
    let mut r1 = request();
    let mut r2 = request();
    let id1 = p.open_request(&mut c, &mut r1);
    let id2 = p.open_request(&mut c, &mut r2);
    assert_eq!((id1, id2), (1, 2));
    assert_eq!((r1.id, r2.id), (1, 2));
    assert_eq!(r1.method, text("\"server.info\""));
    assert!(p.is_pending(1) && p.is_pending(2));
    assert_eq!(p.len(), 2);
}

#[test]
fn success_goes_to_its_request() {
    let mut p = PendingRequests::new();
    p.register(7);
    p.register(8);
    match p.route_success(success(7, "{}")) {
        Routed::Deliver { id, response } => {
            assert_eq!(id, 7);
            assert_eq!(response, JsonRpcResponse::Result(success(7, "{}")));
        }
        other => panic!("unexpected {:?}", other),
    }
    assert!(!p.is_pending(7));
    assert!(p.is_pending(8));
    assert_eq!(p.len(), 1);
}

#[test]
fn unawaited_success_is_forwarded() {
    let mut p = PendingRequests::new();
    p.register(1);
    match p.route_success(success(99, "\"ok\"")) {
        Routed::Forward(r) => assert_eq!(r, JsonRpcResponse::Result(success(99, "\"ok\""))),
        other => panic!("unexpected {:?}", other),
    }
    assert!(p.is_pending(1));
}

#[test]
fn error_with_id_goes_to_its_request() {
    let mut p = PendingRequests::new();
    p.register(3);
    match p.route_error(error_response(Some(3), 404, "no"), 0) {
        Routed::Deliver { id, response } => {
            assert_eq!(id, 3);
            assert_eq!(response, JsonRpcResponse::ReturnedError(error(404, "no")));
        }
        other => panic!("unexpected {:?}", other),
    }
    assert_eq!(p.len(), 0);
    match p.route_error(error_response(Some(3), 404, "no"), 0) {
        Routed::Forward(r) => assert_eq!(r, JsonRpcResponse::ReturnedError(error(404, "no"))),
        other => panic!("unexpected {:?}", other),
    }
}

#[test]
fn idless_error_goes_to_the_only_request() {
    let mut p = PendingRequests::new();
    p.register(11);
    match p.route_error(error_response(None, 500, "bad id"), 1000) {
        Routed::Deliver { id, response } => {
            assert_eq!(id, 11);
            assert_eq!(response, JsonRpcResponse::ReturnedError(error(500, "bad id")));
        }
        other => panic!("unexpected {:?}", other),
    }
    assert_eq!(p.len(), 0);
}

#[test]
fn idless_error_defers_and_sweep_delivers_with_note() {
    let mut p = PendingRequests::new();
    p.register(1);
    p.register(2);
    let dirtied = match p.route_error(error_response(None, 500, "bad id"), 1000) {
        Routed::Deferred { dirtied } => dirtied,
        other => panic!("unexpected {:?}", other),
    };
    let mut sorted = dirtied.clone();
    sorted.sort();
    assert_eq!(sorted, vec![1, 2]);
    assert_eq!(p.len(), 2);

    // Before the deadline nothing happens.
    let s = p.sweep(1000 + DIRTY_PENDING_RESPONSE_TIMEOUT_NANOS - 1);
    assert!(s.expired.is_empty());
    assert!(s.deliveries.is_empty());
    assert_eq!(p.len(), 2);

    // At the deadline both get the error, with the note since they share it.
    let s = p.sweep(1000 + DIRTY_PENDING_RESPONSE_TIMEOUT_NANOS);
    assert_eq!(s.expired, vec![1000 + DIRTY_PENDING_RESPONSE_TIMEOUT_NANOS]);
    assert_eq!(s.deliveries.len(), 2);
    let expected = format!("{}bad id", NOTE);
    for (k, (id, e)) in s.deliveries.iter().enumerate() {
        assert_eq!(*id, dirtied[k]);
        assert_eq!(e.code, 500);
        assert_eq!(e.message, expected);
        assert_eq!(e.data, None);
    }
    assert_eq!(p.len(), 0);
    let again = p.sweep(u64::MAX);
    assert!(again.expired.is_empty() && again.deliveries.is_empty());
}

#[test]
fn sweep_gives_plain_error_to_a_lone_survivor() {
    let mut p = PendingRequests::new();
    p.register(1);
    p.register(2);
    let _ = p.route_error(error_response(None, 7, "lost"), 0);
    // Request 1 gets its own response first.
    match p.route_success(success(1, "{}")) {
        Routed::Deliver { id, .. } => assert_eq!(id, 1),
        other => panic!("unexpected {:?}", other),
    }
    let s = p.sweep(DIRTY_PENDING_RESPONSE_TIMEOUT_NANOS);
    assert_eq!(s.deliveries, vec![(2, error(7, "lost"))]);
    assert_eq!(p.len(), 0);
}

#[test]
fn idless_error_with_nothing_pending_delivers_nothing() {
    let mut p = PendingRequests::new();
    match p.route_error(error_response(None, 1, "x"), 5) {
        Routed::Deferred { dirtied } => assert!(dirtied.is_empty()),
        other => panic!("unexpected {:?}", other),
    }
    let s = p.sweep(u64::MAX);
    assert!(s.deliveries.is_empty());
    assert!(s.expired.is_empty());
}

#[test]
fn a_dirty_request_keeps_its_first_error() {
    let mut p = PendingRequests::new();
    p.register(1);
    p.register(2);
    let _ = p.route_error(error_response(None, 1, "first"), 0);
    match p.route_error(error_response(None, 2, "second"), 10) {
        Routed::Deferred { dirtied } => assert!(dirtied.is_empty()),
        other => panic!("unexpected {:?}", other),
    }
    let s = p.sweep(DIRTY_PENDING_RESPONSE_TIMEOUT_NANOS + 10);
    assert_eq!(s.deliveries.len(), 2);
    for (_, e) in s.deliveries.iter() {
        assert_eq!(e.code, 1);
        assert!(e.message.ends_with("first"));
    }
}

#[test]
fn receive_prefers_notification_then_success_then_error() {
    let mut p = PendingRequests::new();
    p.register(5);
    let n = JsonRpcNotification::build("notify_klippy_ready".to_string(), None);
    match p.receive(Some(n.clone()), Some(success(5, "{}")), None, 0) {
        Inbound::Notify(got) => assert_eq!(got, n),
        other => panic!("unexpected {:?}", other),
    }
    assert!(p.is_pending(5));
    match p.receive(None, Some(success(5, "{}")), Some(error_response(Some(5), 1, "e")), 0) {
        Inbound::Response(Routed::Deliver { id, response }) => {
            assert_eq!(id, 5);
            assert_eq!(response, JsonRpcResponse::Result(success(5, "{}")));
        }
        other => panic!("unexpected {:?}", other),
    }
    match p.receive(None, None, None, 0) {
        Inbound::Unreadable => {}
        other => panic!("unexpected {:?}", other),
    }
}

#[test]
fn receive_keyed_tells_notifications_by_missing_id() {
    let mut p = PendingRequests::new();
    p.register(9);
    match p.receive_keyed(text("{\"method\":\"x\"}"), false, None, None, 0) {
        KeyedInbound::Notify(raw) => assert_eq!(raw, text("{\"method\":\"x\"}")),
        other => panic!("unexpected {:?}", other),
    }
    match p.receive_keyed(text("{}"), true, None, Some(error_response(Some(9), 3, "no")), 0) {
        KeyedInbound::Response(Routed::Deliver { id, response }) => {
            assert_eq!(id, 9);
            assert_eq!(response, JsonRpcResponse::ReturnedError(error(3, "no")));
        }
        other => panic!("unexpected {:?}", other),
    }
    match p.receive_keyed(text("{\"id\":1}"), true, None, None, 0) {
        KeyedInbound::Unreadable => {}
        other => panic!("unexpected {:?}", other),
    }
}

#[test]
fn take_reports_whether_pending() {
    let mut p = PendingRequests::new();
    p.register(4);
    assert!(p.take(4));
    assert!(!p.take(4));
}

#[test]
fn build_error_text() {
    assert_eq!(
        JsonRpcBuildError::MethodNotString.describe(),
        "Method must be type serializable into a String"
    );
}

#[test]
fn deadline_is_thirty_seconds_in_nanoseconds() {
    assert_eq!(DIRTY_PENDING_RESPONSE_TIMEOUT_NANOS, 30_000_000_000);
}

#[test]
fn frames_are_told_apart_by_their_id_member() {
    let mut p = PendingRequests::new();
    p.register(4);
    match p.receive_frame("{\"jsonrpc\":\"2.0\",\"method\":\"notify_klippy_ready\"}", None, None, 0) {
        Some(KeyedInbound::Notify(raw)) => {
            assert_eq!(raw, text("{\"jsonrpc\":\"2.0\",\"method\":\"notify_klippy_ready\"}"))
        }
        other => panic!("unexpected {:?}", other),
    }
    let frame = "{\"jsonrpc\":\"2.0\",\"result\":{},\"id\":4}";
    match p.receive_frame(frame, Some(success(4, "{}")), None, 0) {
        Some(KeyedInbound::Response(Routed::Deliver { id, .. })) => assert_eq!(id, 4),
        other => panic!("unexpected {:?}", other),
    }
    // A null id is an id member all the same.
    match p.receive_frame("{\"id\":null}", None, None, 0) {
        Some(KeyedInbound::Unreadable) => {}
        other => panic!("unexpected {:?}", other),
    }
    assert!(p.receive_frame("not json", None, None, 0).is_none());
    assert_eq!(p.len(), 0);
}

#[test]
fn idless_error_needs_no_clock_room_for_a_lone_request() {
    let mut p = PendingRequests::new();
    p.register(1);
    match p.route_error(error_response(None, 2, "x"), u64::MAX) {
        Routed::Deliver { id, .. } => assert_eq!(id, 1),
        other => panic!("unexpected {:?}", other),
    }
}
