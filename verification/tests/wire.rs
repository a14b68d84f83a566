//! Wire-level behaviour: envelope decoding, method-tag strictness, the
//! decode order of the untagged unions, pagination payloads, and the
//! handshake exchange, each against concrete JSON values.

use rmcp::model::{
    ClientCapabilities, ClientJsonRpcMessage, ClientMessage, ClientNotification, ClientRequest,
    ClientResult, DefaultResponse, EmptyObject, Implementation, InitializeRequestParam,
    ListResourcesResult, Notification, PaginatedRequestParam, ProtocolVersion, Request,
    RequestMeta, Resource, RootsCapabilities, ServerJsonRpcMessage, ServerResult, WithMeta,
};
use rmcp::rpc::{JsonRpcMessage, JsonRpcRequest, JsonRpcVersion2_0, Message};
use rmcp::{ErrorData, JsonValue, NumberOrString};

fn obj(entries: Vec<(&str, JsonValue)>) -> JsonValue {
    JsonValue::Obj(entries.into_iter().map(|(k, v)| (k.to_string(), v)).collect())
}

fn s(x: &str) -> JsonValue {
    JsonValue::Str(x.to_string())
}

#[test]
fn test_notification_serde() {
    let raw = obj(vec![
        ("jsonrpc", s("2.0")),
        ("method", s("notifications/initialized")),
    ]);
    let message = ClientJsonRpcMessage::from_json(&raw).expect("invalid notification");
    let message = message.into_message();
    match &message {
        ClientMessage::Notification(ClientNotification::InitializedNotification) => {}
        _ => panic!("Expected Notification"),
    }
    let json = message.into_json_rpc_message().to_json();
    let raw = obj(vec![
        ("jsonrpc", s("2.0")),
        ("method", s("notifications/initialized")),
    ]);
    assert_eq!(json, raw);
}

#[test]
fn test_request_conversion() {
    let raw = obj(vec![
        ("jsonrpc", s("2.0")),
        ("id", JsonValue::Int(1)),
        ("method", s("request")),
        ("params", obj(vec![("key", s("value"))])),
    ]);
    let message =
        JsonRpcMessage::<Request, DefaultResponse, Notification>::from_json(&raw)
            .expect("invalid request");

    match &message {
        JsonRpcMessage::Request(r) => {
            assert_eq!(r.id, NumberOrString::Number(1));
            assert_eq!(r.request.method, "request");
            let params = r.request.params.as_ref().unwrap();
            assert!(params._meta.is_none());
            assert_eq!(
                params.inner,
                vec![("key".to_string(), s("value"))],
                "should be an object"
            );
        }
        _ => panic!("Expected Request"),
    }
    let json = message.to_json();
    let raw = obj(vec![
        ("jsonrpc", s("2.0")),
        ("id", JsonValue::Int(1)),
        ("method", s("request")),
        ("params", obj(vec![("key", s("value"))])),
    ]);
    assert_eq!(json, raw);
}

fn initial_response_json() -> JsonValue {
    obj(vec![
        ("jsonrpc", s("2.0")),
        ("id", JsonValue::Int(1)),
        (
            "result",
            obj(vec![
                ("protocolVersion", s("2024-11-05")),
                (
                    "capabilities",
                    obj(vec![
                        ("logging", obj(vec![])),
                        ("prompts", obj(vec![("listChanged", JsonValue::Bool(true))])),
                        (
                            "resources",
                            obj(vec![
                                ("subscribe", JsonValue::Bool(true)),
                                ("listChanged", JsonValue::Bool(true)),
                            ]),
                        ),
                        ("tools", obj(vec![("listChanged", JsonValue::Bool(true))])),
                    ]),
                ),
                (
                    "serverInfo",
                    obj(vec![("name", s("ExampleServer")), ("version", s("1.0.0"))]),
                ),
            ]),
        ),
    ])
}

#[test]
fn test_initial_request_response_serde() {
    let request = obj(vec![
        ("jsonrpc", s("2.0")),
        ("id", JsonValue::Int(1)),
        ("method", s("initialize")),
        (
            "params",
            obj(vec![
                ("protocolVersion", s("2024-11-05")),
                (
                    "capabilities",
                    obj(vec![
                        ("roots", obj(vec![("listChanged", JsonValue::Bool(true))])),
                        ("sampling", obj(vec![])),
                    ]),
                ),
                (
                    "clientInfo",
                    obj(vec![("name", s("ExampleClient")), ("version", s("1.0.0"))]),
                ),
            ]),
        ),
    ]);
    let request = ClientJsonRpcMessage::from_json(&request).expect("invalid request");
    let (request, id) = request
        .into_message()
        .into_request()
        .expect("expect request");
    assert_eq!(id, NumberOrString::Number(1));
    match request {
        ClientRequest::InitializeRequest(InitializeRequestParam {
            protocol_version: _,
            capabilities,
            client_info,
        }) => {
            assert_eq!(capabilities.roots.unwrap().list_changed, Some(true));
            assert_eq!(capabilities.sampling.unwrap().len(), 0);
            assert_eq!(client_info.name, "ExampleClient");
            assert_eq!(client_info.version, "1.0.0");
        }
        _ => panic!("Expected InitializeRequest"),
    }
    let server_response =
        ServerJsonRpcMessage::from_json(&initial_response_json()).expect("invalid response");
    let reencoded = server_response.to_json();
    let (response, id) = server_response
        .into_message()
        .into_response()
        .expect("expect response");
    assert_eq!(id, NumberOrString::Number(1));
    match response {
        ServerResult::InitializeResult(rmcp::model::InitializeResult {
            protocol_version: _,
            capabilities,
            server_info,
            instructions,
        }) => {
            assert_eq!(capabilities.logging.unwrap().len(), 0);
            assert_eq!(capabilities.prompts.unwrap().list_changed, Some(true));
            assert_eq!(
                capabilities.resources.as_ref().unwrap().subscribe,
                Some(true)
            );
            assert_eq!(capabilities.resources.unwrap().list_changed, Some(true));
            assert_eq!(capabilities.tools.unwrap().list_changed, Some(true));
            assert_eq!(server_info.name, "ExampleServer");
            assert_eq!(server_info.version, "1.0.0");
            assert_eq!(instructions, None);
        }
        other => panic!("Expected InitializeResult, got {other:?}"),
    }

    assert_eq!(reencoded, initial_response_json());
}

#[test]
fn round_trip_ping_request() {
    let m = ClientJsonRpcMessage::Request(JsonRpcRequest {
        jsonrpc: JsonRpcVersion2_0,
        id: NumberOrString::Number(7),
        request: ClientRequest::PingRequest,
    });
    let json = m.to_json();
    let back = ClientJsonRpcMessage::from_json(&json).expect("ping survives the wire");
    assert_eq!(back, m);
}

#[test]
fn round_trip_initialize_request() {
    let m = ClientJsonRpcMessage::Request(JsonRpcRequest {
        jsonrpc: JsonRpcVersion2_0,
        id: NumberOrString::String("req-1".to_string()),
        request: ClientRequest::InitializeRequest(InitializeRequestParam {
            protocol_version: ProtocolVersion::latest(),
            capabilities: ClientCapabilities {
                experimental: None,
                roots: Some(RootsCapabilities {
                    list_changed: Some(true),
                }),
                sampling: Some(vec![]),
            },
            client_info: Implementation {
                name: "c".to_string(),
                version: "0".to_string(),
            },
        }),
    });
    let json = m.to_json();
    let back = ClientJsonRpcMessage::from_json(&json).expect("initialize survives the wire");
    assert_eq!(back, m);
}

#[test]
fn round_trip_empty_result() {
    let m = ClientJsonRpcMessage::Response(rmcp::rpc::JsonRpcResponse {
        jsonrpc: JsonRpcVersion2_0,
        id: NumberOrString::Number(3),
        result: ClientResult::empty(()),
    });
    let json = m.to_json();
    let back = ClientJsonRpcMessage::from_json(&json).expect("empty result survives the wire");
    match &back {
        JsonRpcMessage::Response(r) => {
            assert_eq!(r.result, ClientResult::EmptyResult(EmptyObject {}))
        }
        _ => panic!("Expected Response"),
    }
    assert_eq!(back, m);
}

#[test]
fn method_tag_rejects_inexact_strings() {
    // Neither case folding nor trimming: any string but the literal fails.
    for wrong in ["Ping", "PING", " ping", "ping ", "pingg", ""] {
        let raw = obj(vec![
            ("jsonrpc", s("2.0")),
            ("id", JsonValue::Int(1)),
            ("method", s(wrong)),
        ]);
        assert!(ClientJsonRpcMessage::from_json(&raw).is_none());
    }
    let exact = obj(vec![
        ("jsonrpc", s("2.0")),
        ("id", JsonValue::Int(1)),
        ("method", s("ping")),
    ]);
    let m = ClientJsonRpcMessage::from_json(&exact).expect("the literal is accepted");
    match m {
        JsonRpcMessage::Request(r) => assert_eq!(r.request, ClientRequest::PingRequest),
        _ => panic!("Expected Request"),
    }
}

#[test]
fn envelope_rejects_wrong_version() {
    let raw = obj(vec![
        ("jsonrpc", s("1.0")),
        ("id", JsonValue::Int(1)),
        ("method", s("ping")),
    ]);
    assert!(ClientJsonRpcMessage::from_json(&raw).is_none());
}

#[test]
fn envelope_decode_order_is_fixed() {
    // An object carrying both a result and an error decodes as a
    // response: the response shape is tried before the error shape.
    let raw = obj(vec![
        ("jsonrpc", s("2.0")),
        ("id", JsonValue::Int(1)),
        ("result", obj(vec![])),
        (
            "error",
            obj(vec![
                ("code", JsonValue::Int(-32600)),
                ("message", s("boom")),
            ]),
        ),
    ]);
    let m = ClientJsonRpcMessage::from_json(&raw).expect("decodes");
    assert!(matches!(m, JsonRpcMessage::Response(_)));
}

#[test]
fn encoder_never_mixes_method_and_result() {
    let m = ClientJsonRpcMessage::Request(JsonRpcRequest {
        jsonrpc: JsonRpcVersion2_0,
        id: NumberOrString::Number(1),
        request: ClientRequest::PingRequest,
    });
    match m.to_json() {
        JsonValue::Obj(entries) => {
            let keys: Vec<&str> = entries.iter().map(|e| e.0.as_str()).collect();
            assert!(keys.contains(&"method"));
            assert!(!keys.contains(&"result"));
        }
        _ => panic!("an envelope is an object"),
    }
}

#[test]
fn pagination_cursor_round_trips() {
    let page = ServerResult::ListResourcesResult(ListResourcesResult {
        next_cursor: Some("abc".to_string()),
        resources: vec![Resource {
            uri: "mem://a".to_string(),
            name: "a".to_string(),
            description: None,
            mime_type: None,
        }],
    });
    let m = ServerJsonRpcMessage::Response(rmcp::rpc::JsonRpcResponse {
        jsonrpc: JsonRpcVersion2_0,
        id: NumberOrString::Number(2),
        result: page,
    });
    let json = m.to_json();
    let back = ServerJsonRpcMessage::from_json(&json).expect("page survives the wire");
    let (result, _) = back.into_message().into_response().expect("response");
    match result {
        ServerResult::ListResourcesResult(r) => {
            // The cursor is opaque: it comes back verbatim, to be passed
            // into the next listing request unmodified.
            assert_eq!(r.next_cursor.as_deref(), Some("abc"));
            let continuation = ClientRequest::ListResourcesRequest(PaginatedRequestParam {
                cursor: r.next_cursor,
            });
            let follow = ClientJsonRpcMessage::Request(JsonRpcRequest {
                jsonrpc: JsonRpcVersion2_0,
                id: NumberOrString::Number(3),
                request: continuation,
            });
            let follow_json = follow.to_json();
            let follow_back =
                ClientJsonRpcMessage::from_json(&follow_json).expect("continuation decodes");
            assert_eq!(follow_back, follow);
        }
        _ => panic!("Expected ListResourcesResult"),
    }
}

#[test]
fn pagination_absent_cursor_ends_listing() {
    let page = ServerResult::ListResourcesResult(ListResourcesResult {
        next_cursor: None,
        resources: vec![],
    });
    let m = ServerJsonRpcMessage::Response(rmcp::rpc::JsonRpcResponse {
        jsonrpc: JsonRpcVersion2_0,
        id: NumberOrString::Number(2),
        result: page,
    });
    let json = m.to_json();
    // An absent cursor is omitted from the wire object, not written null.
    match &json {
        JsonValue::Obj(entries) => match entries.iter().find(|e| e.0 == "result") {
            Some((_, JsonValue::Obj(result))) => {
                assert!(result.iter().all(|e| e.0 != "nextCursor"));
            }
            _ => panic!("result must be an object"),
        },
        _ => panic!("an envelope is an object"),
    }
    let back = ServerJsonRpcMessage::from_json(&json).expect("page decodes");
    let (result, _) = back.into_message().into_response().expect("response");
    match result {
        ServerResult::ListResourcesResult(r) => assert_eq!(r.next_cursor, None),
        _ => panic!("Expected ListResourcesResult"),
    }
}

#[test]
fn error_data_constructors_carry_standard_codes() {
    assert_eq!(ErrorData::parse_error("p".to_string(), None).code.0, -32700);
    assert_eq!(
        ErrorData::invalid_request("r".to_string(), None).code.0,
        -32600
    );
    assert_eq!(
        ErrorData::invalid_params("p".to_string(), None).code.0,
        -32602
    );
    assert_eq!(
        ErrorData::internal_error("i".to_string(), None).code.0,
        -32603
    );
    assert_eq!(
        ErrorData::resource_not_found("m".to_string(), None).code.0,
        -32002
    );
    // A method-not-found error's message is exactly the unmatched tag.
    let e = ErrorData::method_not_found::<rmcp::model::PingRequestMethod>();
    assert_eq!(e.code.0, -32601);
    assert_eq!(e.message, "ping");
    assert_eq!(e.data, None);
}

#[test]
fn error_envelope_round_trips() {
    let m = ClientJsonRpcMessage::Error(rmcp::rpc::JsonRpcError {
        jsonrpc: JsonRpcVersion2_0,
        id: NumberOrString::Number(9),
        error: ErrorData::new(
            rmcp::ErrorCode(-32601),
            "tools/call".to_string(),
            Some(JsonValue::Int(5)),
        ),
    });
    let json = m.to_json();
    let back = ClientJsonRpcMessage::from_json(&json).expect("error survives the wire");
    assert_eq!(back, m);
}

#[test]
fn unknown_protocol_version_round_trips_verbatim() {
    let raw = obj(vec![
        ("jsonrpc", s("2.0")),
        ("id", JsonValue::Int(1)),
        ("method", s("initialize")),
        (
            "params",
            obj(vec![
                ("protocolVersion", s("9999-01-01")),
                ("capabilities", obj(vec![])),
                ("clientInfo", obj(vec![("name", s("x")), ("version", s("y"))])),
            ]),
        ),
    ]);
    let m = ClientJsonRpcMessage::from_json(&raw).expect("custom version accepted");
    match &m {
        JsonRpcMessage::Request(r) => match &r.request {
            ClientRequest::InitializeRequest(p) => {
                assert_eq!(p.protocol_version, ProtocolVersion("9999-01-01".to_string()));
            }
            _ => panic!("Expected InitializeRequest"),
        },
        _ => panic!("Expected Request"),
    }
}

#[test]
fn raw_params_keep_unknown_keys_through_meta_slot() {
    let raw = obj(vec![
        ("jsonrpc", s("2.0")),
        ("id", JsonValue::Int(4)),
        ("method", s("custom/thing")),
        (
            "params",
            obj(vec![
                ("_meta", obj(vec![("progressToken", JsonValue::Int(12))])),
                ("whatever", s("stays")),
            ]),
        ),
    ]);
    let m = JsonRpcMessage::<Request, DefaultResponse, Notification>::from_json(&raw)
        .expect("raw request decodes");
    match &m {
        JsonRpcMessage::Request(r) => {
            let WithMeta { _meta, inner } = r.request.params.as_ref().unwrap();
            let meta: &RequestMeta = _meta.as_ref().unwrap();
            assert_eq!(meta.progress_token, NumberOrString::Number(12));
            assert_eq!(inner, &vec![("whatever".to_string(), s("stays"))]);
        }
        _ => panic!("Expected Request"),
    }
    let json = m.to_json();
    let raw2 = obj(vec![
        ("jsonrpc", s("2.0")),
        ("id", JsonValue::Int(4)),
        ("method", s("custom/thing")),
        (
            "params",
            obj(vec![
                ("_meta", obj(vec![("progressToken", JsonValue::Int(12))])),
                ("whatever", s("stays")),
            ]),
        ),
    ]);
    assert_eq!(json, raw2);
}

#[test]
fn message_conversions_are_inverse() {
    let m = ClientJsonRpcMessage::Request(JsonRpcRequest {
        jsonrpc: JsonRpcVersion2_0,
        id: NumberOrString::Number(11),
        request: ClientRequest::PingRequest,
    });
    let back = m.into_message().into_json_rpc_message();
    match &back {
        JsonRpcMessage::Request(r) => {
            assert_eq!(r.id, NumberOrString::Number(11));
            assert_eq!(r.request, ClientRequest::PingRequest);
        }
        _ => panic!("Expected Request"),
    }
    let err = Message::<ClientRequest, ClientResult, ClientNotification>::Error(
        ErrorData::new(rmcp::ErrorCode(-32603), "x".to_string(), None),
        NumberOrString::Number(1),
    );
    let (res, id) = err.into_result().expect("an error resolves a call");
    assert_eq!(id, NumberOrString::Number(1));
    assert!(res.is_err());
}

#[test]
fn id_display_text_is_decimal_or_verbatim() {
    assert_eq!(NumberOrString::Number(0).to_display_string(), "0");
    assert_eq!(NumberOrString::Number(7).to_display_string(), "7");
    assert_eq!(NumberOrString::Number(42).to_display_string(), "42");
    assert_eq!(NumberOrString::Number(1005).to_display_string(), "1005");
    assert_eq!(
        NumberOrString::Number(u32::MAX).to_display_string(),
        "4294967295"
    );
    assert_eq!(
        NumberOrString::String("req-9".to_string()).to_display_string(),
        "req-9"
    );
}
