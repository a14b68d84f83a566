//! Session behaviour: correlation of concurrent calls, orphan responses,
//! cancellation, the bounded admission window, and the stream-fed
//! transport's decisions.

use rmcp::flow::{find_endpoint_event, next_inbound, HandshakeUnit, InboundAction, InboundUnit};
use rmcp::model::{ServerNotification, ServerRequest, ServerResult};
use rmcp::model::{ArgumentInfo, CompleteRequestParam, LoggingLevel, PromptReference, Reference, SetLevelRequestParam};
use rmcp::rpc::JsonRpcMessage;
use rmcp::{CallRecord, JsonValue, SendWindow, Session, SessionPhase, WINDOW_SIZE};

#[test]
fn correlation_resolves_in_any_order() {
    let mut s = Session::new();
    s.activate();
    // N concurrent requests with distinct ids...
    let id_a = s.begin_call(100);
    let id_b = s.begin_call(200);
    let id_c = s.begin_call(300);
    assert!(id_a != id_b && id_b != id_c && id_a != id_c);
    // ...whose responses arrive in reverse order...
    let rc = s.resolve(id_c).expect("c is outstanding");
    let rb = s.resolve(id_b).expect("b is outstanding");
    let ra = s.resolve(id_a).expect("a is outstanding");
    // ...each resolve its own caller, never another's.
    assert_eq!(rc, CallRecord { id: id_c, handle: 300 });
    assert_eq!(rb, CallRecord { id: id_b, handle: 200 });
    assert_eq!(ra, CallRecord { id: id_a, handle: 100 });
    assert!(s.pending.is_empty());
}

#[test]
fn orphan_response_is_dropped() {
    let mut s = Session::new();
    s.activate();
    let id_a = s.begin_call(1);
    // A response with an id no record holds is dropped without touching
    // any live record.
    assert!(s.resolve(id_a + 17).is_none());
    assert_eq!(s.pending.len(), 1);
    assert_eq!(s.resolve(id_a), Some(CallRecord { id: id_a, handle: 1 }));
}

#[test]
fn late_response_after_cancel_is_discarded() {
    let mut s = Session::new();
    s.activate();
    let id_x = s.begin_call(5);
    // Cancelling takes the record out: only then is the fire-and-forget
    // cancellation notification worth sending.
    let rec = s.cancel(id_x).expect("x was outstanding");
    assert_eq!(rec.handle, 5);
    // A late response for the same id finds nothing: it cannot re-trigger
    // the already-cancelled caller.
    assert!(s.resolve(id_x).is_none());
    // Cancelling an id with no record is a no-op.
    assert!(s.cancel(id_x).is_none());
}

#[test]
fn close_fails_all_outstanding_calls() {
    let mut s = Session::new();
    s.activate();
    let a = s.begin_call(1);
    let b = s.begin_call(2);
    let failed = s.close();
    assert_eq!(s.phase, SessionPhase::Closed);
    assert_eq!(
        failed,
        vec![
            CallRecord { id: a, handle: 1 },
            CallRecord { id: b, handle: 2 }
        ]
    );
    assert!(s.pending.is_empty());
}

#[test]
fn window_blocks_at_sixteen() {
    let mut w = SendWindow::new();
    let mut n: u64 = 0;
    while w.has_room() {
        w.accept(n);
        n += 1;
    }
    // Admission was refused exactly at the window size.
    assert_eq!(n as usize, WINDOW_SIZE);
    assert_eq!(WINDOW_SIZE, 16);
    assert!(!w.has_room());
    // One completed delivery frees exactly one admission slot.
    assert_eq!(w.complete_oldest(), Some(0));
    assert!(w.has_room());
    w.accept(16);
    assert!(!w.has_room());
    // A flush may only return once every admitted unit has completed.
    assert!(!w.is_flushed());
    let mut drained = 0;
    while w.complete_oldest().is_some() {
        drained += 1;
    }
    assert_eq!(drained, 16);
    assert!(w.is_flushed());
}

#[test]
fn endpoint_handshake_needs_one_event() {
    // The transport becomes usable only after one data event names the
    // endpoint; chatter before it is skipped.
    let units = vec![
        HandshakeUnit::Connected,
        HandshakeUnit::Comment,
        HandshakeUnit::Event,
        HandshakeUnit::Event,
    ];
    assert_eq!(find_endpoint_event(&units), Some(2));
    // A stream that ends first fails construction.
    let silent = vec![HandshakeUnit::Connected, HandshakeUnit::Comment];
    assert_eq!(find_endpoint_event(&silent), None);
    assert_eq!(find_endpoint_event(&vec![]), None);
}

#[test]
fn inbound_units_are_delivered_skipped_or_terminal() {
    // A well-formed server unit is delivered.
    let ping = JsonValue::Obj(vec![
        ("jsonrpc".to_string(), JsonValue::Str("2.0".to_string())),
        ("id".to_string(), JsonValue::Int(1)),
        ("method".to_string(), JsonValue::Str("ping".to_string())),
    ]);
    match next_inbound(Some(InboundUnit::Event(ping))) {
        InboundAction::Deliver(JsonRpcMessage::Request(r)) => {
            assert_eq!(r.request, ServerRequest::PingRequest);
        }
        _ => panic!("Expected a delivered ping"),
    }
    // A malformed unit is skipped, it does not end the stream.
    assert!(matches!(
        next_inbound(Some(InboundUnit::Malformed)),
        InboundAction::Skip
    ));
    assert!(matches!(
        next_inbound(Some(InboundUnit::Event(JsonValue::Int(3)))),
        InboundAction::Skip
    ));
    assert!(matches!(
        next_inbound(Some(InboundUnit::Comment)),
        InboundAction::Skip
    ));
    assert!(matches!(
        next_inbound(Some(InboundUnit::Connected)),
        InboundAction::Skip
    ));
    // The stream's end terminates the inbound duty.
    assert!(matches!(next_inbound(None), InboundAction::Terminate));
}

#[test]
fn server_result_decode_order_prefers_earlier_variants() {
    // {} matches only the empty result: every richer variant has a
    // required key that is absent.
    let empty = JsonValue::Obj(vec![
        ("jsonrpc".to_string(), JsonValue::Str("2.0".to_string())),
        ("id".to_string(), JsonValue::Int(1)),
        ("result".to_string(), JsonValue::Obj(vec![])),
    ]);
    let m = rmcp::model::ServerJsonRpcMessage::from_json(&empty).expect("decodes");
    match m {
        JsonRpcMessage::Response(r) => {
            assert_eq!(r.result, ServerResult::EmptyResult(rmcp::EmptyObject {}))
        }
        _ => panic!("Expected Response"),
    }
    // An unknown notification method is no unit at all.
    let unknown = JsonValue::Obj(vec![
        ("jsonrpc".to_string(), JsonValue::Str("2.0".to_string())),
        (
            "method".to_string(),
            JsonValue::Str("notifications/unheard_of".to_string()),
        ),
    ]);
    assert!(rmcp::model::ServerJsonRpcMessage::from_json(&unknown).is_none());
    // A known one decodes to its variant.
    let known = JsonValue::Obj(vec![
        ("jsonrpc".to_string(), JsonValue::Str("2.0".to_string())),
        (
            "method".to_string(),
            JsonValue::Str("notifications/tools/list_changed".to_string()),
        ),
    ]);
    let m = rmcp::model::ServerJsonRpcMessage::from_json(&known).expect("decodes");
    match m {
        JsonRpcMessage::Notification(n) => {
            assert_eq!(
                n.notification,
                ServerNotification::ToolListChangedNotification
            );
        }
        _ => panic!("Expected Notification"),
    }
}

#[test]
fn cancelled_notification_round_trips() {
    let raw = JsonValue::Obj(vec![
        ("jsonrpc".to_string(), JsonValue::Str("2.0".to_string())),
        (
            "method".to_string(),
            JsonValue::Str("notifications/cancelled".to_string()),
        ),
        (
            "params".to_string(),
            JsonValue::Obj(vec![
                ("requestId".to_string(), JsonValue::Int(42)),
                (
                    "reason".to_string(),
                    JsonValue::Str("no longer needed".to_string()),
                ),
            ]),
        ),
    ]);
    let m = rmcp::model::ServerJsonRpcMessage::from_json(&raw).expect("decodes");
    match &m {
        JsonRpcMessage::Notification(n) => match &n.notification {
            ServerNotification::CancelledNotification(p) => {
                assert_eq!(p.request_id, rmcp::NumberOrString::Number(42));
                assert_eq!(p.reason.as_deref(), Some("no longer needed"));
            }
            _ => panic!("Expected CancelledNotification"),
        },
        _ => panic!("Expected Notification"),
    }
    let json = m.to_json();
    assert_eq!(json, raw);
}

#[test]
fn tool_results_mark_success_and_error() {
    let ok = rmcp::CallToolResult::success(vec![rmcp::Content::Text(rmcp::TextContent {
        text: "4".to_string(),
    })]);
    assert_eq!(ok.is_error, Some(false));
    let bad = rmcp::CallToolResult::error(vec![rmcp::Content::Text(rmcp::TextContent {
        text: "denominator is zero".to_string(),
    })]);
    assert_eq!(bad.is_error, Some(true));
    let m = rmcp::model::ServerJsonRpcMessage::Response(rmcp::rpc::JsonRpcResponse {
        jsonrpc: rmcp::JsonRpcVersion2_0,
        id: rmcp::NumberOrString::Number(6),
        result: ServerResult::CallToolResult(ok),
    });
    let json = m.to_json();
    let back = rmcp::model::ServerJsonRpcMessage::from_json(&json).expect("decodes");
    assert_eq!(back, m);
}

#[test]
fn logging_level_spellings_round_trip() {
    let levels = vec![
        (LoggingLevel::Debug, "debug"),
        (LoggingLevel::Info, "info"),
        (LoggingLevel::Notice, "notice"),
        (LoggingLevel::Warning, "warning"),
        (LoggingLevel::Error, "error"),
        (LoggingLevel::Critical, "critical"),
        (LoggingLevel::Alert, "alert"),
        (LoggingLevel::Emergency, "emergency"),
    ];
    for (level, spelling) in levels {
        let m = rmcp::model::ClientJsonRpcMessage::Request(rmcp::rpc::JsonRpcRequest {
            jsonrpc: rmcp::JsonRpcVersion2_0,
            id: rmcp::NumberOrString::Number(1),
            request: rmcp::ClientRequest::SetLevelRequest(SetLevelRequestParam { level }),
        });
        let json = m.to_json();
        match &json {
            JsonValue::Obj(env) => match env.iter().find(|e| e.0 == "params") {
                Some((_, JsonValue::Obj(params))) => {
                    assert_eq!(params[0], ("level".to_string(), JsonValue::Str(spelling.to_string())));
                }
                _ => panic!("params must be an object"),
            },
            _ => panic!("an envelope is an object"),
        }
        let back = rmcp::model::ClientJsonRpcMessage::from_json(&json).expect("level decodes");
        assert_eq!(back, m);
    }
}

#[test]
fn completion_reference_round_trips() {
    let m = rmcp::model::ClientJsonRpcMessage::Request(rmcp::rpc::JsonRpcRequest {
        jsonrpc: rmcp::JsonRpcVersion2_0,
        id: rmcp::NumberOrString::Number(8),
        request: rmcp::ClientRequest::CompleteRequest(CompleteRequestParam {
            reference: Reference::Prompt(PromptReference {
                name: "greeting".to_string(),
            }),
            argument: ArgumentInfo {
                name: "tone".to_string(),
                value: "for".to_string(),
            },
        }),
    });
    let json = m.to_json();
    // The reference is tagged by its `type` field on the wire.
    match &json {
        JsonValue::Obj(env) => match env.iter().find(|e| e.0 == "params") {
            Some((_, JsonValue::Obj(params))) => match params.iter().find(|e| e.0 == "ref") {
                Some((_, JsonValue::Obj(r))) => {
                    assert_eq!(
                        r[0],
                        ("type".to_string(), JsonValue::Str("ref/prompt".to_string()))
                    );
                }
                _ => panic!("ref must be an object"),
            },
            _ => panic!("params must be an object"),
        },
        _ => panic!("an envelope is an object"),
    }
    let back = rmcp::model::ClientJsonRpcMessage::from_json(&json).expect("decodes");
    assert_eq!(back, m);
}
