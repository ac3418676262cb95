use chromiumoxide_cdp::cdp::browser_protocol::browser::GetVersionReturns;
use downstage::connection::endpoint_of;
use downstage::{
    encode_call, finish_call, parse_endpoint, read_frame, CallOutcome, CdpSession, Connection,
    Dispatch, Error, Frame, Inbound, OutboundFrame, ProtocolError, ResponseEnvelope, Skipped,
};
use serde_json::Value;

fn json(text: &str) -> Value {
    serde_json::from_str(text).unwrap()
}

fn begin(connection: &mut Connection<u32>, method: &str, slot: u32) -> OutboundFrame {
    connection.begin_call(None, method.to_string(), Ok(json("{}")), slot).unwrap()
}

fn deliver(connection: &mut Connection<u32>, text: &str) -> (u32, ResponseEnvelope) {
    match connection.dispatch(Inbound::Text(text.to_string())) {
        Dispatch::Deliver { slot, response } => (slot, response),
        other => panic!("expected a delivery, got {:?}", other),
    }
}

#[test]
fn version_reaches_its_caller() {
    let mut connection: Connection<u32> = Connection::new();
    let frame = begin(&mut connection, "Browser.getVersion", 7);
    assert_eq!(frame.id, 0);
    assert_eq!(frame.text, r#"{"id":0,"method":"Browser.getVersion","params":{}}"#);
    assert!(connection.is_pending(0));

    let (slot, response) = deliver(
        &mut connection,
        r#"{"id":0,"result":{"protocolVersion":"1.3","product":"Chrome/120.0","revision":"@abc","userAgent":"Mozilla/5.0","jsVersion":"12.0"}}"#,
    );
    assert_eq!(slot, 7);
    assert_eq!(connection.in_flight(), 0);

    let value = finish_call(CallOutcome::Answered(response)).unwrap();
    let version: GetVersionReturns = serde_json::from_value(value).unwrap();
    assert_eq!(version.protocol_version, "1.3");
    assert_eq!(version.product, "Chrome/120.0");
    assert_eq!(version.revision, "@abc");
    assert_eq!(version.user_agent, "Mozilla/5.0");
    assert_eq!(version.js_version, "12.0");
}

#[test]
fn responses_out_of_order_reach_their_own_callers() {
    let mut connection: Connection<u32> = Connection::new();
    let first = begin(&mut connection, "Target.getTargets", 100);
    let second = begin(&mut connection, "Browser.getVersion", 200);
    assert_eq!(first.id, 0);
    assert_eq!(second.id, 1);

    let (slot, response) = deliver(&mut connection, r#"{"id":1,"result":{"who":"second"}}"#);
    assert_eq!(slot, 200);
    assert_eq!(response.id, 1);
    assert_eq!(response.result, Some(json(r#"{"who":"second"}"#)));
    assert!(connection.is_pending(0));
    assert!(!connection.is_pending(1));

    let (slot, response) = deliver(&mut connection, r#"{"id":0,"result":{"who":"first"}}"#);
    assert_eq!(slot, 100);
    assert_eq!(response.id, 0);
    assert_eq!(response.result, Some(json(r#"{"who":"first"}"#)));
    assert_eq!(connection.in_flight(), 0);
}

#[test]
fn malformed_frame_does_not_stop_the_loop() {
    let mut connection: Connection<u32> = Connection::new();
    begin(&mut connection, "Page.enable", 5);

    let out = connection.dispatch(Inbound::Text("this is not json".to_string()));
    assert!(matches!(out, Dispatch::Skip(Skipped::Malformed(_))));
    assert!(connection.is_pending(0));

    let (slot, response) = deliver(&mut connection, r#"{"id":0,"result":{}}"#);
    assert_eq!(slot, 5);
    assert_eq!(finish_call(CallOutcome::Answered(response)).unwrap(), json("{}"));
}

#[test]
fn many_calls_any_interleaving() {
    let mut connection: Connection<u32> = Connection::new();
    for k in 0..5u32 {
        let frame = begin(&mut connection, "Runtime.evaluate", 10 + k);
        assert_eq!(frame.id, k as usize);
    }
    assert_eq!(connection.in_flight(), 5);
    for id in [3usize, 0, 4, 1, 2] {
        let text = format!(r#"{{"id":{},"result":{{"n":{}}}}}"#, id, id);
        let (slot, response) = deliver(&mut connection, &text);
        assert_eq!(slot, 10 + id as u32);
        assert_eq!(response.id, id);
        assert_eq!(response.result, Some(json(&format!(r#"{{"n":{}}}"#, id))));
    }
    assert_eq!(connection.in_flight(), 0);
}

#[test]
fn ids_count_up_from_zero() {
    let mut connection: Connection<u32> = Connection::new();
    let ids: Vec<usize> = (0..4).map(|_| begin(&mut connection, "A.b", 0).id).collect();
    assert_eq!(ids, vec![0, 1, 2, 3]);
}

#[test]
fn two_connections_do_not_share_ids() {
    let mut one: Connection<u32> = Connection::new();
    let mut other: Connection<u32> = Connection::new();
    assert_eq!(begin(&mut one, "A.b", 1).id, 0);
    assert_eq!(begin(&mut one, "A.b", 2).id, 1);
    assert_eq!(begin(&mut other, "A.b", 3).id, 0);
    assert!(!other.is_pending(1));
}

#[test]
fn unknown_response_is_discarded() {
    let mut connection: Connection<u32> = Connection::new();
    begin(&mut connection, "A.b", 1);
    begin(&mut connection, "A.c", 2);

    let out = connection.dispatch(Inbound::Text(r#"{"id":9,"result":{}}"#.to_string()));
    assert!(matches!(out, Dispatch::Skip(Skipped::Unroutable(9))));
    assert_eq!(connection.in_flight(), 2);
    assert_eq!(deliver(&mut connection, r#"{"id":0,"result":{}}"#).0, 1);
    assert_eq!(deliver(&mut connection, r#"{"id":1,"result":{}}"#).0, 2);
}

#[test]
fn second_response_to_one_call_is_discarded() {
    let mut connection: Connection<u32> = Connection::new();
    begin(&mut connection, "A.b", 1);
    begin(&mut connection, "A.c", 2);

    assert_eq!(deliver(&mut connection, r#"{"id":0,"result":{"n":1}}"#).0, 1);
    let out = connection.dispatch(Inbound::Text(r#"{"id":0,"result":{"n":2}}"#.to_string()));
    assert!(matches!(out, Dispatch::Skip(Skipped::Unroutable(0))));
    assert!(connection.is_pending(1));
    assert_eq!(deliver(&mut connection, r#"{"id":1,"result":{}}"#).0, 2);
}

#[test]
fn event_shaped_frame_is_passed_over() {
    let mut connection: Connection<u32> = Connection::new();
    begin(&mut connection, "A.b", 1);
    let out = connection
        .dispatch(Inbound::Text(r#"{"method":"Target.targetCreated","params":{}}"#.to_string()));
    assert!(matches!(out, Dispatch::Skip(Skipped::Malformed(_))));
    assert!(connection.is_pending(0));
}

#[test]
fn frames_that_are_not_responses_change_nothing() {
    let mut connection: Connection<u32> = Connection::new();
    begin(&mut connection, "A.b", 1);
    assert!(matches!(connection.dispatch(Inbound::ReadFailed), Dispatch::Skip(Skipped::ReadFailed)));
    assert!(matches!(connection.dispatch(Inbound::NotText), Dispatch::Skip(Skipped::NotText)));
    assert_eq!(connection.in_flight(), 1);
    assert_eq!(deliver(&mut connection, r#"{"id":0,"result":{}}"#).0, 1);
}

#[test]
fn end_of_stream_stops_the_loop_and_gives_up_the_waiters() {
    let mut connection: Connection<u32> = Connection::new();
    begin(&mut connection, "A.b", 1);
    begin(&mut connection, "A.c", 2);
    assert!(!connection.closed());
    assert!(matches!(connection.dispatch(Inbound::Closed), Dispatch::Stop));
    assert!(connection.closed());
    assert!(!connection.is_pending(0));
    assert!(!connection.is_pending(1));
    assert_eq!(connection.in_flight(), 0);
}

#[test]
fn waiter_observes_the_end_of_the_stream() {
    let mut connection = Connection::new();
    let (sender, receiver) = tokio::sync::oneshot::channel::<ResponseEnvelope>();
    connection.begin_call(None, "A.b".to_string(), Ok(json("{}")), sender).unwrap();
    assert!(matches!(connection.dispatch(Inbound::Closed), Dispatch::Stop));

    let gone = receiver.blocking_recv().unwrap_err();
    assert!(matches!(finish_call(CallOutcome::Abandoned(gone)), Err(Error::Recv(_))));
}

#[test]
fn call_begun_after_the_end_of_the_stream_is_given_up_at_once() {
    let mut connection = Connection::new();
    assert!(matches!(connection.dispatch(Inbound::Closed), Dispatch::Stop));

    let (sender, receiver) = tokio::sync::oneshot::channel::<ResponseEnvelope>();
    let frame = connection.begin_call(None, "A.b".to_string(), Ok(json("{}")), sender).unwrap();
    assert_eq!(frame.id, 0);
    assert_eq!(connection.in_flight(), 0);
    assert!(receiver.blocking_recv().is_err());
}

#[test]
fn response_after_the_end_of_the_stream_is_unroutable() {
    let mut connection: Connection<u32> = Connection::new();
    begin(&mut connection, "A.b", 1);
    connection.dispatch(Inbound::Closed);
    let out = connection.dispatch(Inbound::Text(r#"{"id":0,"result":{}}"#.to_string()));
    assert!(matches!(out, Dispatch::Skip(Skipped::Unroutable(0))));
}

#[test]
fn cancel_takes_the_slot_back() {
    let mut connection: Connection<u32> = Connection::new();
    begin(&mut connection, "A.b", 1);
    begin(&mut connection, "A.c", 2);
    assert_eq!(connection.cancel(0), Some(1));
    assert_eq!(connection.cancel(0), None);
    assert_eq!(connection.cancel(7), None);
    assert_eq!(connection.in_flight(), 1);

    let late = connection.dispatch(Inbound::Text(r#"{"id":0,"result":{}}"#.to_string()));
    assert!(matches!(late, Dispatch::Skip(Skipped::Unroutable(0))));
    assert_eq!(deliver(&mut connection, r#"{"id":1,"result":{}}"#).0, 2);
    assert_eq!(begin(&mut connection, "A.d", 3).id, 2);
}

#[test]
fn read_then_apply_is_dispatch() {
    let mut connection: Connection<u32> = Connection::new();
    begin(&mut connection, "A.b", 1);

    assert!(matches!(read_frame(Inbound::ReadFailed), Frame::Noise(Skipped::ReadFailed)));
    assert!(matches!(read_frame(Inbound::NotText), Frame::Noise(Skipped::NotText)));
    assert!(matches!(
        read_frame(Inbound::Text("{".to_string())),
        Frame::Noise(Skipped::Malformed(_))
    ));
    assert!(matches!(read_frame(Inbound::Closed), Frame::End));

    let read = read_frame(Inbound::Text(r#"{"id":0,"result":{"n":1}}"#.to_string()));
    match &read {
        Frame::Response(response) => {
            assert_eq!(
                *response,
                ResponseEnvelope { id: 0, result: Some(json(r#"{"n":1}"#)), error: None }
            );
        }
        other => panic!("expected a response, got {:?}", other),
    }
    match connection.apply(read) {
        Dispatch::Deliver { slot, response } => {
            assert_eq!(slot, 1);
            assert_eq!(response.id, 0);
        }
        other => panic!("expected a delivery, got {:?}", other),
    }
    assert!(matches!(
        connection.apply(Frame::Noise(Skipped::NotText)),
        Dispatch::Skip(Skipped::NotText)
    ));
    assert!(matches!(connection.apply(Frame::End), Dispatch::Stop));
}

#[test]
fn reserve_encode_enqueue_is_begin_call() {
    let mut connection: Connection<u32> = Connection::new();
    let id = connection.reserve_id();
    assert_eq!(id, 0);
    assert_eq!(connection.in_flight(), 0);

    let encoded = encode_call(id, Some("S".to_string()), "A.b".to_string(), Ok(json("[]")));
    assert_eq!(
        encoded.as_deref().unwrap(),
        r#"{"id":0,"method":"A.b","sessionId":"S","params":[]}"#
    );
    let frame = connection.enqueue(id, encoded, 9).unwrap();
    assert_eq!(frame.id, 0);
    assert!(connection.is_pending(0));
    assert_eq!(connection.reserve_id(), 1);

    let session = CdpSession::new(()).with_session_id(Some("S".to_string()));
    let by_session = session.encode_call(0, "A.b".to_string(), Ok(json("[]"))).unwrap();
    assert_eq!(by_session, frame.text);
}

#[test]
fn encode_call_hands_the_failure_on() {
    let broken = serde_json::from_str::<Value>("[").unwrap_err();
    let text = broken.to_string();
    let encoded = encode_call(0, None, "A.b".to_string(), Err(broken));
    assert_eq!(encoded.unwrap_err().to_string(), text);
}

#[test]
fn route_hands_back_slot_and_response() {
    let mut connection: Connection<&'static str> = Connection::new();
    let frame = connection.enqueue(4, Ok("text".to_string()), "waiter").unwrap();
    assert_eq!(frame, OutboundFrame { id: 4, text: "text".to_string() });
    let response = ResponseEnvelope { id: 4, result: Some(json("[1,2]")), error: None };
    match connection.route(response) {
        Dispatch::Deliver { slot, response } => {
            assert_eq!(slot, "waiter");
            assert_eq!(response, ResponseEnvelope { id: 4, result: Some(json("[1,2]")), error: None });
        }
        other => panic!("expected a delivery, got {:?}", other),
    }
    let again = ResponseEnvelope { id: 4, result: None, error: None };
    assert!(matches!(connection.route(again), Dispatch::Skip(Skipped::Unroutable(4))));
}

#[test]
fn session_id_is_framed() {
    let mut connection: Connection<u32> = Connection::new();
    let frame = connection
        .begin_call(
            Some("SESSION-1".to_string()),
            "Page.navigate".to_string(),
            Ok(json(r#"{"url":"https://example.com"}"#)),
            1,
        )
        .unwrap();
    assert_eq!(
        frame.text,
        r#"{"id":0,"method":"Page.navigate","sessionId":"SESSION-1","params":{"url":"https://example.com"}}"#
    );
}

#[test]
fn failed_serialisation_uses_up_the_id_and_registers_nothing() {
    let mut connection: Connection<u32> = Connection::new();
    let broken = serde_json::from_str::<Value>("{").unwrap_err();
    let started = connection.begin_call(None, "A.b".to_string(), Err(broken), 1);
    assert!(matches!(started, Err(Error::Serialize(_))));
    assert_eq!(connection.in_flight(), 0);
    assert!(!connection.is_pending(0));
    assert_eq!(begin(&mut connection, "A.b", 2).id, 1);
}

#[test]
fn enqueue_registers_nothing_without_a_frame() {
    let mut connection: Connection<u32> = Connection::new();
    let broken = serde_json::from_str::<Value>("nope").unwrap_err();
    assert!(matches!(connection.enqueue(3, Err(broken), 1), Err(Error::Serialize(_))));
    assert!(!connection.is_pending(3));
}

#[test]
fn response_with_error_payload_fails_the_call() {
    let mut connection: Connection<u32> = Connection::new();
    begin(&mut connection, "A.b", 1);
    let (_, response) =
        deliver(&mut connection, r#"{"id":0,"error":{"code":-32601,"message":"'A.b' wasn't found"}}"#);
    assert_eq!(
        response.error,
        Some(ProtocolError { code: -32601, message: "'A.b' wasn't found".to_string() })
    );
    match finish_call(CallOutcome::Answered(response)) {
        Err(Error::Response(Some(error))) => {
            assert_eq!(error.code, -32601);
            assert_eq!(error.message, "'A.b' wasn't found");
        }
        other => panic!("expected a protocol error, got {:?}", other),
    }
}

#[test]
fn response_without_result_or_error_fails_the_call() {
    let response = ResponseEnvelope { id: 0, result: None, error: None };
    assert!(matches!(finish_call(CallOutcome::Answered(response)), Err(Error::Response(None))));
}

#[test]
fn error_payload_fails_the_call_even_beside_a_result() {
    let response = ResponseEnvelope {
        id: 0,
        result: Some(json("1")),
        error: Some(ProtocolError { code: 1, message: "m".to_string() }),
    };
    match finish_call(CallOutcome::Answered(response)) {
        Err(Error::Response(Some(error))) => {
            assert_eq!(error, ProtocolError { code: 1, message: "m".to_string() });
        }
        other => panic!("expected a protocol error, got {:?}", other),
    }

    let mut connection: Connection<u32> = Connection::new();
    begin(&mut connection, "A.b", 1);
    let (_, response) = deliver(
        &mut connection,
        r#"{"id":0,"result":{"ok":true},"error":{"code":-1,"message":"both"}}"#,
    );
    assert!(matches!(
        finish_call(CallOutcome::Answered(response)),
        Err(Error::Response(Some(_)))
    ));
}

#[test]
fn null_result_counts_as_no_result() {
    let mut connection: Connection<u32> = Connection::new();
    begin(&mut connection, "A.b", 1);
    let (_, response) = deliver(&mut connection, r#"{"id":0,"result":null}"#);
    assert_eq!(response.result, None);
    assert!(matches!(finish_call(CallOutcome::Answered(response)), Err(Error::Response(None))));
}

#[test]
fn abandoned_slot_reports_closed_connection() {
    let (sender, receiver) = tokio::sync::oneshot::channel::<ResponseEnvelope>();
    drop(sender);
    let gone = receiver.blocking_recv().unwrap_err();
    assert!(matches!(finish_call(CallOutcome::Abandoned(gone)), Err(Error::Recv(_))));
}

#[test]
fn failed_write_reports_socket_error() {
    let outcome = CallOutcome::WriteFailed(tokio_websockets::Error::AlreadyClosed);
    assert!(matches!(
        finish_call(outcome),
        Err(Error::Socket(tokio_websockets::Error::AlreadyClosed))
    ));
}

#[test]
fn endpoint_must_be_a_uri() {
    let uri = parse_endpoint("ws://127.0.0.1:9222/devtools/browser/abc").unwrap();
    assert_eq!(uri.scheme_str(), Some("ws"));
    assert_eq!(uri.host(), Some("127.0.0.1"));
    assert_eq!(uri.port_u16(), Some(9222));
    assert_eq!(uri.path(), "/devtools/browser/abc");
    assert!(matches!(parse_endpoint(""), Err(Error::InvalidUri(_))));
    assert!(matches!(parse_endpoint("ws://host/a b"), Err(Error::InvalidUri(_))));
}

#[test]
fn endpoint_of_maps_the_parse_result() {
    let parsed = "ws://h:1/p".parse::<http::Uri>();
    assert_eq!(endpoint_of(parsed).unwrap().to_string(), "ws://h:1/p");
    let failed = "".parse::<http::Uri>();
    assert!(matches!(endpoint_of(failed), Err(Error::InvalidUri(_))));
}
