//! The wire codec for whole units: the closed unions of requests,
//! notifications and results for each side, and the four-shape JSON-RPC
//! envelope around them, with the proofs that every unit survives the
//! wire and that the envelope shapes stay mutually exclusive.

use vstd::prelude::*;

use crate::codec_base::{
    dec_content, dec_empty_object, enc_content, enc_empty_object, get_role,
    lemma_rt_empty_object, lemma_rt_content, lemma_rt_role, role_from_string,
    role_str, role_string, get_id,
};
use crate::codec_payload::{dec_call_tool_request_param, dec_call_tool_result, dec_cancelled_notification_param, dec_complete_request_param, dec_complete_result, dec_create_message_request_param, dec_get_prompt_request_param, dec_get_prompt_result, dec_initialize_request_param, dec_initialize_result, dec_list_prompts_result, dec_list_resource_templates_result, dec_list_resources_result, dec_list_roots_result, dec_list_tools_result, dec_logging_message_notification_param, dec_paginated_request_param, dec_progress_notification_param, dec_read_resource_request_param, dec_read_resource_result, dec_resource_updated_notification_param, dec_set_level_request_param, dec_subscribe_request_param, dec_unsubscribe_request_param, enc_call_tool_request_param, enc_call_tool_result, enc_cancelled_notification_param, enc_complete_request_param, enc_complete_result, enc_create_message_request_param, enc_get_prompt_request_param, enc_get_prompt_result, enc_initialize_request_param, enc_initialize_result, enc_list_prompts_result, enc_list_resource_templates_result, enc_list_resources_result, enc_list_roots_result, enc_list_tools_result, enc_logging_message_notification_param, enc_paginated_request_param, enc_progress_notification_param, enc_read_resource_request_param, enc_read_resource_result, enc_resource_updated_notification_param, enc_set_level_request_param, enc_subscribe_request_param, enc_unsubscribe_request_param, lemma_rt_call_tool_request_param, lemma_rt_call_tool_result, lemma_rt_cancelled_notification_param, lemma_rt_complete_request_param, lemma_rt_complete_result, lemma_rt_create_message_request_param, lemma_rt_get_prompt_request_param, lemma_rt_get_prompt_result, lemma_rt_initialize_request_param, lemma_rt_initialize_result, lemma_rt_list_prompts_result, lemma_rt_list_resource_templates_result, lemma_rt_list_resources_result, lemma_rt_list_roots_result, lemma_rt_list_tools_result, lemma_rt_logging_message_notification_param, lemma_rt_paginated_request_param, lemma_rt_progress_notification_param, lemma_rt_read_resource_request_param, lemma_rt_read_resource_result, lemma_rt_resource_updated_notification_param, lemma_rt_set_level_request_param, lemma_rt_subscribe_request_param, lemma_rt_unsubscribe_request_param};
use crate::json::{
    centry, fget, get_opt_s, get_s, has_key, jv, lemma_jv_obj, lookup, nilobj, oentry, opt_str,
    string_eq, JsonObjV, JsonV, JsonValue,
};
use crate::model::{CallToolRequestParam, CallToolRequestParamV, CallToolResult, CallToolResultV, CancelledNotificationParam, CancelledNotificationParamV, ClientNotification, ClientNotificationV, ClientRequest, ClientRequestV, ClientResult, ClientResultV, CompleteRequestParam, CompleteRequestParamV, CompleteResult, CompleteResultV, Content, ContentV, CreateMessageRequestParam, CreateMessageRequestParamV, CreateMessageResult, CreateMessageResultV, EmptyObject, GetPromptRequestParam, GetPromptRequestParamV, GetPromptResult, GetPromptResultV, InitializeRequestParam, InitializeRequestParamV, InitializeResult, InitializeResultV, ListPromptsResult, ListPromptsResultV, ListResourceTemplatesResult, ListResourceTemplatesResultV, ListResourcesResult, ListResourcesResultV, ListRootsResult, ListRootsResultV, ListToolsResult, ListToolsResultV, LoggingMessageNotificationParam, LoggingMessageNotificationParamV, PaginatedRequestParam, PaginatedRequestParamV, ProgressNotificationParam, ProgressNotificationParamV, ReadResourceRequestParam, ReadResourceRequestParamV, ReadResourceResult, ReadResourceResultV, ResourceUpdatedNotificationParam, ResourceUpdatedNotificationParamV, SamplingMessage, SamplingMessageV, ServerNotification, ServerNotificationV, ServerRequest, ServerRequestV, ServerResult, ServerResultV, SetLevelRequestParam, SetLevelRequestParamV, SubscribeRequestParam, SubscribeRequestParamV, UnsubscribeRequestParam, UnsubscribeRequestParamV};
use crate::rpc::{
    dec_id, enc_id, lemma_id_round_trip, ErrorCode, ErrorData, ErrorDataV, JsonRpcError,
    JsonRpcErrorV, JsonRpcMessage, JsonRpcMessageV, JsonRpcNotification, JsonRpcNotificationV,
    JsonRpcRequest, JsonRpcRequestV, JsonRpcResponse, JsonRpcResponseV, JsonRpcVersion2_0,
    NumberOrString, NumberOrStringV,
};

verus! {

broadcast use crate::json::group_obj_lemmas;

/// How the error record of an error envelope stands on the wire.
pub open spec fn enc_error_data(e: ErrorDataV) -> JsonV {
    JsonV::Obj(
        centry(
            "code"@,
            JsonV::Int(e.code.0 as int),
            centry("message"@, JsonV::Str(e.message), oentry("data"@, e.data, nilobj())),
        ),
    )
}

/// The error record a JSON value holds, if it matches the shape.
pub open spec fn dec_error_data(v: JsonV) -> Option<ErrorDataV> {
    if !(v matches JsonV::Obj(_)) {
        None
    } else {
        match fget(v, "code"@) {
            Some(JsonV::Int(c)) => if i32::MIN <= c <= i32::MAX {
                match get_s(v, "message"@) {
                    Some(msg) => Some(
                        ErrorDataV {
                            code: ErrorCode(c as i32),
                            message: msg,
                            data: crate::json::get_oj(v, "data"@),
                        },
                    ),
                    None => None,
                }
            } else {
                None
            },
            _ => None,
        }
    }
}

/// An error record survives the wire.
pub proof fn lemma_rt_error_data(e: ErrorDataV)
    requires
        e.data != Some(JsonV::Null),
    ensures
        dec_error_data(enc_error_data(e)) == Some(e),
{
    reveal_strlit("code");
    reveal_strlit("message");
    reveal_strlit("data");
    assert("code"@.len() == 4);
    assert("message"@.len() == 7);
    assert("data"@.len() == 4);
    assert("code"@.index(0) == 'c');
    assert("data"@.index(0) == 'd');
}

impl ErrorData {
    /// This error record as a JSON object.
    pub fn to_json(&self) -> (r: JsonValue)
        ensures
            jv(r) == enc_error_data(self.deep_view()),
    {
        let mut o: Vec<(String, JsonValue)> = Vec::new();
        o.push(("code".to_owned(), JsonValue::Int(self.code.0 as i64)));
        o.push(("message".to_owned(), JsonValue::Str(self.message.clone())));
        if let Some(d) = &self.data {
            o.push(("data".to_owned(), d.duplicate()));
        }
        proof {
            lemma_jv_obj(o);
            assert(o.deep_view() =~= enc_error_data(self.deep_view())->Obj_0);
        }
        JsonValue::Obj(o)
    }

    /// The error record a JSON value holds, if any.
    pub fn from_json(v: &JsonValue) -> (r: Option<ErrorData>)
        ensures
            r.deep_view() == dec_error_data(jv(*v)),
    {
        if !v.is_obj() {
            return None;
        }
        let code = match v.get("code") {
            Some(JsonValue::Int(c)) => {
                if i32::MIN as i64 <= *c && *c <= i32::MAX as i64 {
                    ErrorCode(*c as i32)
                } else {
                    return None;
                }
            },
            _ => {
                return None;
            },
        };
        let message = match v.f_str("message") {
            Some(s) => s,
            None => {
                return None;
            },
        };
        let data = v.f_opt_any("data");
        Some(ErrorData { code, message, data })
    }
}

/// How a sampled completion stands on the wire: the message flattened
/// beside the model name.
pub open spec fn enc_create_message_result(x: CreateMessageResultV) -> JsonV {
    JsonV::Obj(
        centry(
            "model"@,
            JsonV::Str(x.model),
            oentry(
                "stopReason"@,
                opt_str(x.stop_reason),
                centry(
                    "role"@,
                    JsonV::Str(role_str(x.message.role)),
                    centry("content"@, enc_content(x.message.content), nilobj()),
                ),
            ),
        ),
    )
}

/// The sampled completion a JSON value holds, if it matches the shape.
pub open spec fn dec_create_message_result(v: JsonV) -> Option<CreateMessageResultV> {
    if !(v matches JsonV::Obj(_)) {
        None
    } else {
        match get_s(v, "model"@) {
            Some(model) => match get_opt_s(v, "stopReason"@) {
                Some(stop_reason) => match get_role(v, "role"@) {
                    Some(role) => match fget(v, "content"@) {
                        Some(cw) => match dec_content(cw) {
                            Some(content) => Some(
                                CreateMessageResultV {
                                    model,
                                    stop_reason,
                                    message: SamplingMessageV { role, content },
                                },
                            ),
                            None => None,
                        },
                        None => None,
                    },
                    None => None,
                },
                None => None,
            },
            None => None,
        }
    }
}

/// A sampled completion survives the wire.
pub proof fn lemma_rt_create_message_result(x: CreateMessageResultV)
    ensures
        dec_create_message_result(enc_create_message_result(x)) == Some(x),
{
    reveal_strlit("model");
    reveal_strlit("stopReason");
    reveal_strlit("role");
    reveal_strlit("content");
    assert("model"@.len() == 5);
    assert("stopReason"@.len() == 10);
    assert("role"@.len() == 4);
    assert("content"@.len() == 7);
    lemma_rt_role(x.message.role);
    lemma_rt_content(x.message.content);
}

impl CreateMessageResult {
    /// This payload as a JSON object.
    pub fn to_json(&self) -> (r: JsonValue)
        ensures
            jv(r) == enc_create_message_result(self.deep_view()),
    {
        let mut o: Vec<(String, JsonValue)> = Vec::new();
        o.push(("model".to_owned(), JsonValue::Str(self.model.clone())));
        if let Some(s) = &self.stop_reason {
            o.push(("stopReason".to_owned(), JsonValue::Str(s.clone())));
        }
        o.push(("role".to_owned(), JsonValue::Str(role_string(&self.message.role))));
        o.push(("content".to_owned(), self.message.content.to_json()));
        proof {
            lemma_jv_obj(o);
            assert(o.deep_view() =~= enc_create_message_result(self.deep_view())->Obj_0);
        }
        JsonValue::Obj(o)
    }

    /// The payload a JSON value holds, if it matches this shape.
    pub fn from_json(v: &JsonValue) -> (r: Option<CreateMessageResult>)
        ensures
            r.deep_view() == dec_create_message_result(jv(*v)),
    {
        if !v.is_obj() {
            return None;
        }
        let model = match v.f_str("model") {
            Some(s) => s,
            None => {
                return None;
            },
        };
        let stop_reason = match v.f_opt_str("stopReason") {
            Some(s) => s,
            None => {
                return None;
            },
        };
        let role = match v.f_str("role") {
            Some(s) => match role_from_string(&s) {
                Some(l) => l,
                None => {
                    return None;
                },
            },
            None => {
                return None;
            },
        };
        let content = match v.get("content") {
            Some(w) => match Content::from_json(w) {
                Some(c) => c,
                None => {
                    return None;
                },
            },
            None => {
                return None;
            },
        };
        Some(CreateMessageResult { model, stop_reason, message: SamplingMessage { role, content } })
    }
}

/// The method literal each request carries.
pub open spec fn client_request_method(r: ClientRequestV) -> Seq<char> {
    match r {
        ClientRequestV::PingRequest => "ping"@,
        ClientRequestV::InitializeRequest(_) => "initialize"@,
        ClientRequestV::CompleteRequest(_) => "completion/complete"@,
        ClientRequestV::SetLevelRequest(_) => "logging/setLevel"@,
        ClientRequestV::GetPromptRequest(_) => "prompts/get"@,
        ClientRequestV::ListPromptsRequest(_) => "prompts/list"@,
        ClientRequestV::ListResourcesRequest(_) => "resources/list"@,
        ClientRequestV::ListResourceTemplatesRequest(_) => "resources/templates/list"@,
        ClientRequestV::ReadResourceRequest(_) => "resources/read"@,
        ClientRequestV::SubscribeRequest(_) => "resources/subscribe"@,
        ClientRequestV::UnsubscribeRequest(_) => "resources/unsubscribe"@,
        ClientRequestV::CallToolRequest(_) => "tools/call"@,
        ClientRequestV::ListToolsRequest(_) => "tools/list"@,
    }
}

/// The method and params entries of a request, ahead of `rest`.
pub open spec fn enc_client_request_obj(r: ClientRequestV, rest: JsonObjV) -> JsonObjV {
    match r {
        ClientRequestV::PingRequest => centry("method"@, JsonV::Str("ping"@), rest),
        ClientRequestV::InitializeRequest(x) => centry("method"@, JsonV::Str("initialize"@), centry("params"@, enc_initialize_request_param(x), rest)),
        ClientRequestV::CompleteRequest(x) => centry("method"@, JsonV::Str("completion/complete"@), centry("params"@, enc_complete_request_param(x), rest)),
        ClientRequestV::SetLevelRequest(x) => centry("method"@, JsonV::Str("logging/setLevel"@), centry("params"@, enc_set_level_request_param(x), rest)),
        ClientRequestV::GetPromptRequest(x) => centry("method"@, JsonV::Str("prompts/get"@), centry("params"@, enc_get_prompt_request_param(x), rest)),
        ClientRequestV::ListPromptsRequest(x) => centry("method"@, JsonV::Str("prompts/list"@), centry("params"@, enc_paginated_request_param(x), rest)),
        ClientRequestV::ListResourcesRequest(x) => centry("method"@, JsonV::Str("resources/list"@), centry("params"@, enc_paginated_request_param(x), rest)),
        ClientRequestV::ListResourceTemplatesRequest(x) => centry("method"@, JsonV::Str("resources/templates/list"@), centry("params"@, enc_paginated_request_param(x), rest)),
        ClientRequestV::ReadResourceRequest(x) => centry("method"@, JsonV::Str("resources/read"@), centry("params"@, enc_read_resource_request_param(x), rest)),
        ClientRequestV::SubscribeRequest(x) => centry("method"@, JsonV::Str("resources/subscribe"@), centry("params"@, enc_subscribe_request_param(x), rest)),
        ClientRequestV::UnsubscribeRequest(x) => centry("method"@, JsonV::Str("resources/unsubscribe"@), centry("params"@, enc_unsubscribe_request_param(x), rest)),
        ClientRequestV::CallToolRequest(x) => centry("method"@, JsonV::Str("tools/call"@), centry("params"@, enc_call_tool_request_param(x), rest)),
        ClientRequestV::ListToolsRequest(x) => centry("method"@, JsonV::Str("tools/list"@), centry("params"@, enc_paginated_request_param(x), rest)),
    }
}

/// The request an envelope object holds: the method string picks the
/// variant, whose params must then be present and well-shaped.
pub open spec fn dec_client_request(v: JsonV) -> Option<ClientRequestV> {
    match get_s(v, "method"@) {
        Some(m) => {
            if m == "ping"@ {
                Some(ClientRequestV::PingRequest)
            } else if m == "initialize"@ {
                match fget(v, "params"@) {
                    Some(pv) => match dec_initialize_request_param(pv) {
                        Some(x) => Some(ClientRequestV::InitializeRequest(x)),
                        None => None,
                    },
                    None => None,
                }
            } else if m == "completion/complete"@ {
                match fget(v, "params"@) {
                    Some(pv) => match dec_complete_request_param(pv) {
                        Some(x) => Some(ClientRequestV::CompleteRequest(x)),
                        None => None,
                    },
                    None => None,
                }
            } else if m == "logging/setLevel"@ {
                match fget(v, "params"@) {
                    Some(pv) => match dec_set_level_request_param(pv) {
                        Some(x) => Some(ClientRequestV::SetLevelRequest(x)),
                        None => None,
                    },
                    None => None,
                }
            } else if m == "prompts/get"@ {
                match fget(v, "params"@) {
                    Some(pv) => match dec_get_prompt_request_param(pv) {
                        Some(x) => Some(ClientRequestV::GetPromptRequest(x)),
                        None => None,
                    },
                    None => None,
                }
            } else if m == "prompts/list"@ {
                match fget(v, "params"@) {
                    Some(pv) => match dec_paginated_request_param(pv) {
                        Some(x) => Some(ClientRequestV::ListPromptsRequest(x)),
                        None => None,
                    },
                    None => None,
                }
            } else if m == "resources/list"@ {
                match fget(v, "params"@) {
                    Some(pv) => match dec_paginated_request_param(pv) {
                        Some(x) => Some(ClientRequestV::ListResourcesRequest(x)),
                        None => None,
                    },
                    None => None,
                }
            } else if m == "resources/templates/list"@ {
                match fget(v, "params"@) {
                    Some(pv) => match dec_paginated_request_param(pv) {
                        Some(x) => Some(ClientRequestV::ListResourceTemplatesRequest(x)),
                        None => None,
                    },
                    None => None,
                }
            } else if m == "resources/read"@ {
                match fget(v, "params"@) {
                    Some(pv) => match dec_read_resource_request_param(pv) {
                        Some(x) => Some(ClientRequestV::ReadResourceRequest(x)),
                        None => None,
                    },
                    None => None,
                }
            } else if m == "resources/subscribe"@ {
                match fget(v, "params"@) {
                    Some(pv) => match dec_subscribe_request_param(pv) {
                        Some(x) => Some(ClientRequestV::SubscribeRequest(x)),
                        None => None,
                    },
                    None => None,
                }
            } else if m == "resources/unsubscribe"@ {
                match fget(v, "params"@) {
                    Some(pv) => match dec_unsubscribe_request_param(pv) {
                        Some(x) => Some(ClientRequestV::UnsubscribeRequest(x)),
                        None => None,
                    },
                    None => None,
                }
            } else if m == "tools/call"@ {
                match fget(v, "params"@) {
                    Some(pv) => match dec_call_tool_request_param(pv) {
                        Some(x) => Some(ClientRequestV::CallToolRequest(x)),
                        None => None,
                    },
                    None => None,
                }
            } else if m == "tools/list"@ {
                match fget(v, "params"@) {
                    Some(pv) => match dec_paginated_request_param(pv) {
                        Some(x) => Some(ClientRequestV::ListToolsRequest(x)),
                        None => None,
                    },
                    None => None,
                }
            } else {
                None
            }
        },
        None => None,
    }
}

/// The request an envelope object holds, if any.
pub fn client_request_from_json(v: &JsonValue) -> (r: Option<ClientRequest>)
    ensures
        r.deep_view() == dec_client_request(jv(*v)),
{
    let m = match v.f_str("method") {
        Some(s) => s,
        None => {
            return None;
        },
    };
    if string_eq(&m, "ping") {
        return Some(ClientRequest::PingRequest);
    }
    if string_eq(&m, "initialize") {
        return match v.get("params") {
            Some(pv) => match InitializeRequestParam::from_json(pv) {
                Some(x) => Some(ClientRequest::InitializeRequest(x)),
                None => None,
            },
            None => None,
        };
    }
    if string_eq(&m, "completion/complete") {
        return match v.get("params") {
            Some(pv) => match CompleteRequestParam::from_json(pv) {
                Some(x) => Some(ClientRequest::CompleteRequest(x)),
                None => None,
            },
            None => None,
        };
    }
    if string_eq(&m, "logging/setLevel") {
        return match v.get("params") {
            Some(pv) => match SetLevelRequestParam::from_json(pv) {
                Some(x) => Some(ClientRequest::SetLevelRequest(x)),
                None => None,
            },
            None => None,
        };
    }
    if string_eq(&m, "prompts/get") {
        return match v.get("params") {
            Some(pv) => match GetPromptRequestParam::from_json(pv) {
                Some(x) => Some(ClientRequest::GetPromptRequest(x)),
                None => None,
            },
            None => None,
        };
    }
    if string_eq(&m, "prompts/list") {
        return match v.get("params") {
            Some(pv) => match PaginatedRequestParam::from_json(pv) {
                Some(x) => Some(ClientRequest::ListPromptsRequest(x)),
                None => None,
            },
            None => None,
        };
    }
    if string_eq(&m, "resources/list") {
        return match v.get("params") {
            Some(pv) => match PaginatedRequestParam::from_json(pv) {
                Some(x) => Some(ClientRequest::ListResourcesRequest(x)),
                None => None,
            },
            None => None,
        };
    }
    if string_eq(&m, "resources/templates/list") {
        return match v.get("params") {
            Some(pv) => match PaginatedRequestParam::from_json(pv) {
                Some(x) => Some(ClientRequest::ListResourceTemplatesRequest(x)),
                None => None,
            },
            None => None,
        };
    }
    if string_eq(&m, "resources/read") {
        return match v.get("params") {
            Some(pv) => match ReadResourceRequestParam::from_json(pv) {
                Some(x) => Some(ClientRequest::ReadResourceRequest(x)),
                None => None,
            },
            None => None,
        };
    }
    if string_eq(&m, "resources/subscribe") {
        return match v.get("params") {
            Some(pv) => match SubscribeRequestParam::from_json(pv) {
                Some(x) => Some(ClientRequest::SubscribeRequest(x)),
                None => None,
            },
            None => None,
        };
    }
    if string_eq(&m, "resources/unsubscribe") {
        return match v.get("params") {
            Some(pv) => match UnsubscribeRequestParam::from_json(pv) {
                Some(x) => Some(ClientRequest::UnsubscribeRequest(x)),
                None => None,
            },
            None => None,
        };
    }
    if string_eq(&m, "tools/call") {
        return match v.get("params") {
            Some(pv) => match CallToolRequestParam::from_json(pv) {
                Some(x) => Some(ClientRequest::CallToolRequest(x)),
                None => None,
            },
            None => None,
        };
    }
    if string_eq(&m, "tools/list") {
        return match v.get("params") {
            Some(pv) => match PaginatedRequestParam::from_json(pv) {
                Some(x) => Some(ClientRequest::ListToolsRequest(x)),
                None => None,
            },
            None => None,
        };
    }
    None
}

/// The method literal each notification carries.
pub open spec fn client_notification_method(r: ClientNotificationV) -> Seq<char> {
    match r {
        ClientNotificationV::CancelledNotification(_) => "notifications/cancelled"@,
        ClientNotificationV::ProgressNotification(_) => "notifications/progress"@,
        ClientNotificationV::InitializedNotification => "notifications/initialized"@,
        ClientNotificationV::RootsListChangedNotification => "notifications/roots/list_changed"@,
    }
}

/// The method and params entries of a notification, ahead of `rest`.
pub open spec fn enc_client_notification_obj(r: ClientNotificationV, rest: JsonObjV) -> JsonObjV {
    match r {
        ClientNotificationV::CancelledNotification(x) => centry("method"@, JsonV::Str("notifications/cancelled"@), centry("params"@, enc_cancelled_notification_param(x), rest)),
        ClientNotificationV::ProgressNotification(x) => centry("method"@, JsonV::Str("notifications/progress"@), centry("params"@, enc_progress_notification_param(x), rest)),
        ClientNotificationV::InitializedNotification => centry("method"@, JsonV::Str("notifications/initialized"@), rest),
        ClientNotificationV::RootsListChangedNotification => centry("method"@, JsonV::Str("notifications/roots/list_changed"@), rest),
    }
}

/// The notification an envelope object holds: the method string picks the
/// variant, whose params must then be present and well-shaped.
pub open spec fn dec_client_notification(v: JsonV) -> Option<ClientNotificationV> {
    match get_s(v, "method"@) {
        Some(m) => {
            if m == "notifications/cancelled"@ {
                match fget(v, "params"@) {
                    Some(pv) => match dec_cancelled_notification_param(pv) {
                        Some(x) => Some(ClientNotificationV::CancelledNotification(x)),
                        None => None,
                    },
                    None => None,
                }
            } else if m == "notifications/progress"@ {
                match fget(v, "params"@) {
                    Some(pv) => match dec_progress_notification_param(pv) {
                        Some(x) => Some(ClientNotificationV::ProgressNotification(x)),
                        None => None,
                    },
                    None => None,
                }
            } else if m == "notifications/initialized"@ {
                Some(ClientNotificationV::InitializedNotification)
            } else if m == "notifications/roots/list_changed"@ {
                Some(ClientNotificationV::RootsListChangedNotification)
            } else {
                None
            }
        },
        None => None,
    }
}

/// The notification an envelope object holds, if any.
pub fn client_notification_from_json(v: &JsonValue) -> (r: Option<ClientNotification>)
    ensures
        r.deep_view() == dec_client_notification(jv(*v)),
{
    let m = match v.f_str("method") {
        Some(s) => s,
        None => {
            return None;
        },
    };
    if string_eq(&m, "notifications/cancelled") {
        return match v.get("params") {
            Some(pv) => match CancelledNotificationParam::from_json(pv) {
                Some(x) => Some(ClientNotification::CancelledNotification(x)),
                None => None,
            },
            None => None,
        };
    }
    if string_eq(&m, "notifications/progress") {
        return match v.get("params") {
            Some(pv) => match ProgressNotificationParam::from_json(pv) {
                Some(x) => Some(ClientNotification::ProgressNotification(x)),
                None => None,
            },
            None => None,
        };
    }
    if string_eq(&m, "notifications/initialized") {
        return Some(ClientNotification::InitializedNotification);
    }
    if string_eq(&m, "notifications/roots/list_changed") {
        return Some(ClientNotification::RootsListChangedNotification);
    }
    None
}

/// The method literal each request carries.
pub open spec fn server_request_method(r: ServerRequestV) -> Seq<char> {
    match r {
        ServerRequestV::PingRequest => "ping"@,
        ServerRequestV::CreateMessageRequest(_) => "sampling/createMessage"@,
        ServerRequestV::ListRootsRequest => "roots/list"@,
    }
}

/// The method and params entries of a request, ahead of `rest`.
pub open spec fn enc_server_request_obj(r: ServerRequestV, rest: JsonObjV) -> JsonObjV {
    match r {
        ServerRequestV::PingRequest => centry("method"@, JsonV::Str("ping"@), rest),
        ServerRequestV::CreateMessageRequest(x) => centry("method"@, JsonV::Str("sampling/createMessage"@), centry("params"@, enc_create_message_request_param(x), rest)),
        ServerRequestV::ListRootsRequest => centry("method"@, JsonV::Str("roots/list"@), rest),
    }
}

/// The request an envelope object holds: the method string picks the
/// variant, whose params must then be present and well-shaped.
pub open spec fn dec_server_request(v: JsonV) -> Option<ServerRequestV> {
    match get_s(v, "method"@) {
        Some(m) => {
            if m == "ping"@ {
                Some(ServerRequestV::PingRequest)
            } else if m == "sampling/createMessage"@ {
                match fget(v, "params"@) {
                    Some(pv) => match dec_create_message_request_param(pv) {
                        Some(x) => Some(ServerRequestV::CreateMessageRequest(x)),
                        None => None,
                    },
                    None => None,
                }
            } else if m == "roots/list"@ {
                Some(ServerRequestV::ListRootsRequest)
            } else {
                None
            }
        },
        None => None,
    }
}

/// The request an envelope object holds, if any.
pub fn server_request_from_json(v: &JsonValue) -> (r: Option<ServerRequest>)
    ensures
        r.deep_view() == dec_server_request(jv(*v)),
{
    let m = match v.f_str("method") {
        Some(s) => s,
        None => {
            return None;
        },
    };
    if string_eq(&m, "ping") {
        return Some(ServerRequest::PingRequest);
    }
    if string_eq(&m, "sampling/createMessage") {
        return match v.get("params") {
            Some(pv) => match CreateMessageRequestParam::from_json(pv) {
                Some(x) => Some(ServerRequest::CreateMessageRequest(x)),
                None => None,
            },
            None => None,
        };
    }
    if string_eq(&m, "roots/list") {
        return Some(ServerRequest::ListRootsRequest);
    }
    None
}

/// The method literal each notification carries.
pub open spec fn server_notification_method(r: ServerNotificationV) -> Seq<char> {
    match r {
        ServerNotificationV::CancelledNotification(_) => "notifications/cancelled"@,
        ServerNotificationV::ProgressNotification(_) => "notifications/progress"@,
        ServerNotificationV::LoggingMessageNotification(_) => "notifications/message"@,
        ServerNotificationV::ResourceUpdatedNotification(_) => "notifications/resources/updated"@,
        ServerNotificationV::ResourceListChangedNotification => "notifications/resources/list_changed"@,
        ServerNotificationV::ToolListChangedNotification => "notifications/tools/list_changed"@,
        ServerNotificationV::PromptListChangedNotification => "notifications/prompts/list_changed"@,
    }
}

/// The method and params entries of a notification, ahead of `rest`.
pub open spec fn enc_server_notification_obj(r: ServerNotificationV, rest: JsonObjV) -> JsonObjV {
    match r {
        ServerNotificationV::CancelledNotification(x) => centry("method"@, JsonV::Str("notifications/cancelled"@), centry("params"@, enc_cancelled_notification_param(x), rest)),
        ServerNotificationV::ProgressNotification(x) => centry("method"@, JsonV::Str("notifications/progress"@), centry("params"@, enc_progress_notification_param(x), rest)),
        ServerNotificationV::LoggingMessageNotification(x) => centry("method"@, JsonV::Str("notifications/message"@), centry("params"@, enc_logging_message_notification_param(x), rest)),
        ServerNotificationV::ResourceUpdatedNotification(x) => centry("method"@, JsonV::Str("notifications/resources/updated"@), centry("params"@, enc_resource_updated_notification_param(x), rest)),
        ServerNotificationV::ResourceListChangedNotification => centry("method"@, JsonV::Str("notifications/resources/list_changed"@), rest),
        ServerNotificationV::ToolListChangedNotification => centry("method"@, JsonV::Str("notifications/tools/list_changed"@), rest),
        ServerNotificationV::PromptListChangedNotification => centry("method"@, JsonV::Str("notifications/prompts/list_changed"@), rest),
    }
}

/// The notification an envelope object holds: the method string picks the
/// variant, whose params must then be present and well-shaped.
pub open spec fn dec_server_notification(v: JsonV) -> Option<ServerNotificationV> {
    match get_s(v, "method"@) {
        Some(m) => {
            if m == "notifications/cancelled"@ {
                match fget(v, "params"@) {
                    Some(pv) => match dec_cancelled_notification_param(pv) {
                        Some(x) => Some(ServerNotificationV::CancelledNotification(x)),
                        None => None,
                    },
                    None => None,
                }
            } else if m == "notifications/progress"@ {
                match fget(v, "params"@) {
                    Some(pv) => match dec_progress_notification_param(pv) {
                        Some(x) => Some(ServerNotificationV::ProgressNotification(x)),
                        None => None,
                    },
                    None => None,
                }
            } else if m == "notifications/message"@ {
                match fget(v, "params"@) {
                    Some(pv) => match dec_logging_message_notification_param(pv) {
                        Some(x) => Some(ServerNotificationV::LoggingMessageNotification(x)),
                        None => None,
                    },
                    None => None,
                }
            } else if m == "notifications/resources/updated"@ {
                match fget(v, "params"@) {
                    Some(pv) => match dec_resource_updated_notification_param(pv) {
                        Some(x) => Some(ServerNotificationV::ResourceUpdatedNotification(x)),
                        None => None,
                    },
                    None => None,
                }
            } else if m == "notifications/resources/list_changed"@ {
                Some(ServerNotificationV::ResourceListChangedNotification)
            } else if m == "notifications/tools/list_changed"@ {
                Some(ServerNotificationV::ToolListChangedNotification)
            } else if m == "notifications/prompts/list_changed"@ {
                Some(ServerNotificationV::PromptListChangedNotification)
            } else {
                None
            }
        },
        None => None,
    }
}

/// The notification an envelope object holds, if any.
pub fn server_notification_from_json(v: &JsonValue) -> (r: Option<ServerNotification>)
    ensures
        r.deep_view() == dec_server_notification(jv(*v)),
{
    let m = match v.f_str("method") {
        Some(s) => s,
        None => {
            return None;
        },
    };
    if string_eq(&m, "notifications/cancelled") {
        return match v.get("params") {
            Some(pv) => match CancelledNotificationParam::from_json(pv) {
                Some(x) => Some(ServerNotification::CancelledNotification(x)),
                None => None,
            },
            None => None,
        };
    }
    if string_eq(&m, "notifications/progress") {
        return match v.get("params") {
            Some(pv) => match ProgressNotificationParam::from_json(pv) {
                Some(x) => Some(ServerNotification::ProgressNotification(x)),
                None => None,
            },
            None => None,
        };
    }
    if string_eq(&m, "notifications/message") {
        return match v.get("params") {
            Some(pv) => match LoggingMessageNotificationParam::from_json(pv) {
                Some(x) => Some(ServerNotification::LoggingMessageNotification(x)),
                None => None,
            },
            None => None,
        };
    }
    if string_eq(&m, "notifications/resources/updated") {
        return match v.get("params") {
            Some(pv) => match ResourceUpdatedNotificationParam::from_json(pv) {
                Some(x) => Some(ServerNotification::ResourceUpdatedNotification(x)),
                None => None,
            },
            None => None,
        };
    }
    if string_eq(&m, "notifications/resources/list_changed") {
        return Some(ServerNotification::ResourceListChangedNotification);
    }
    if string_eq(&m, "notifications/tools/list_changed") {
        return Some(ServerNotification::ToolListChangedNotification);
    }
    if string_eq(&m, "notifications/prompts/list_changed") {
        return Some(ServerNotification::PromptListChangedNotification);
    }
    None
}

/// How a client result stands on the wire.
pub open spec fn enc_client_result(r: ClientResultV) -> JsonV {
    match r {
        ClientResultV::CreateMessageResult(x) => enc_create_message_result(x),
        ClientResultV::ListRootsResult(x) => enc_list_roots_result(x),
        ClientResultV::EmptyResult(x) => enc_empty_object(x),
    }
}

/// The result a JSON value holds: each variant is tried in
/// declaration order and the first structural match wins, so the
/// order here is part of the wire contract.
pub open spec fn dec_client_result(v: JsonV) -> Option<ClientResultV> {
    match dec_create_message_result(v) {
        Some(x) => Some(ClientResultV::CreateMessageResult(x)),
        None =>
        match dec_list_roots_result(v) {
            Some(x) => Some(ClientResultV::ListRootsResult(x)),
            None =>
            match dec_empty_object(v) {
                Some(x) => Some(ClientResultV::EmptyResult(x)),
                None =>
                 None
                ,
            }
            ,
        }
        ,
    }
}

/// The result a JSON value holds, if any.
pub fn client_result_from_json(v: &JsonValue) -> (r: Option<ClientResult>)
    ensures
        r.deep_view() == dec_client_result(jv(*v)),
{
    if let Some(x) = CreateMessageResult::from_json(v) {
        return Some(ClientResult::CreateMessageResult(x));
    }
    if let Some(x) = ListRootsResult::from_json(v) {
        return Some(ClientResult::ListRootsResult(x));
    }
    if let Some(x) = EmptyObject::from_json(v) {
        return Some(ClientResult::EmptyResult(x));
    }
    None
}

/// This result as a JSON value.
pub fn client_result_to_json(r: &ClientResult) -> (out: JsonValue)
    ensures
        jv(out) == enc_client_result(r.deep_view()),
{
    match r {
        ClientResult::CreateMessageResult(x) => x.to_json(),
        ClientResult::ListRootsResult(x) => x.to_json(),
        ClientResult::EmptyResult(x) => x.to_json(),
    }
}

/// A result survives the wire: decoding in declaration order finds
/// exactly the variant that was encoded.
pub proof fn lemma_rt_client_result(r: ClientResultV)
    ensures
        dec_client_result(enc_client_result(r)) == Some(r),
{
    reveal_strlit("capabilities");
    reveal_strlit("completion");
    reveal_strlit("content");
    reveal_strlit("contents");
    reveal_strlit("description");
    reveal_strlit("hasMore");
    reveal_strlit("instructions");
    reveal_strlit("isError");
    reveal_strlit("messages");
    reveal_strlit("model");
    reveal_strlit("name");
    reveal_strlit("nextCursor");
    reveal_strlit("prompts");
    reveal_strlit("protocolVersion");
    reveal_strlit("resourceTemplates");
    reveal_strlit("resources");
    reveal_strlit("role");
    reveal_strlit("roots");
    reveal_strlit("serverInfo");
    reveal_strlit("stopReason");
    reveal_strlit("tools");
    reveal_strlit("total");
    reveal_strlit("type");
    reveal_strlit("uri");
    reveal_strlit("values");
    assert("capabilities"@.len() == 12);
    assert("capabilities"@.index(0) == 'c');
    assert("capabilities"@.index(1) == 'a');
    assert("capabilities"@.index(2) == 'p');
    assert("capabilities"@.index(3) == 'a');
    assert("capabilities"@.index(4) == 'b');
    assert("capabilities"@.index(5) == 'i');
    assert("capabilities"@.index(6) == 'l');
    assert("capabilities"@.index(7) == 'i');
    assert("capabilities"@.index(8) == 't');
    assert("capabilities"@.index(9) == 'i');
    assert("capabilities"@.index(10) == 'e');
    assert("capabilities"@.index(11) == 's');
    assert("completion"@.len() == 10);
    assert("completion"@.index(0) == 'c');
    assert("completion"@.index(1) == 'o');
    assert("completion"@.index(2) == 'm');
    assert("completion"@.index(3) == 'p');
    assert("completion"@.index(4) == 'l');
    assert("completion"@.index(5) == 'e');
    assert("completion"@.index(6) == 't');
    assert("completion"@.index(7) == 'i');
    assert("completion"@.index(8) == 'o');
    assert("completion"@.index(9) == 'n');
    assert("content"@.len() == 7);
    assert("content"@.index(0) == 'c');
    assert("content"@.index(1) == 'o');
    assert("content"@.index(2) == 'n');
    assert("content"@.index(3) == 't');
    assert("content"@.index(4) == 'e');
    assert("content"@.index(5) == 'n');
    assert("content"@.index(6) == 't');
    assert("contents"@.len() == 8);
    assert("contents"@.index(0) == 'c');
    assert("contents"@.index(1) == 'o');
    assert("contents"@.index(2) == 'n');
    assert("contents"@.index(3) == 't');
    assert("contents"@.index(4) == 'e');
    assert("contents"@.index(5) == 'n');
    assert("contents"@.index(6) == 't');
    assert("contents"@.index(7) == 's');
    assert("description"@.len() == 11);
    assert("description"@.index(0) == 'd');
    assert("description"@.index(1) == 'e');
    assert("description"@.index(2) == 's');
    assert("description"@.index(3) == 'c');
    assert("description"@.index(4) == 'r');
    assert("description"@.index(5) == 'i');
    assert("description"@.index(6) == 'p');
    assert("description"@.index(7) == 't');
    assert("description"@.index(8) == 'i');
    assert("description"@.index(9) == 'o');
    assert("description"@.index(10) == 'n');
    assert("hasMore"@.len() == 7);
    assert("hasMore"@.index(0) == 'h');
    assert("hasMore"@.index(1) == 'a');
    assert("hasMore"@.index(2) == 's');
    assert("hasMore"@.index(3) == 'M');
    assert("hasMore"@.index(4) == 'o');
    assert("hasMore"@.index(5) == 'r');
    assert("hasMore"@.index(6) == 'e');
    assert("instructions"@.len() == 12);
    assert("instructions"@.index(0) == 'i');
    assert("instructions"@.index(1) == 'n');
    assert("instructions"@.index(2) == 's');
    assert("instructions"@.index(3) == 't');
    assert("instructions"@.index(4) == 'r');
    assert("instructions"@.index(5) == 'u');
    assert("instructions"@.index(6) == 'c');
    assert("instructions"@.index(7) == 't');
    assert("instructions"@.index(8) == 'i');
    assert("instructions"@.index(9) == 'o');
    assert("instructions"@.index(10) == 'n');
    assert("instructions"@.index(11) == 's');
    assert("isError"@.len() == 7);
    assert("isError"@.index(0) == 'i');
    assert("isError"@.index(1) == 's');
    assert("isError"@.index(2) == 'E');
    assert("isError"@.index(3) == 'r');
    assert("isError"@.index(4) == 'r');
    assert("isError"@.index(5) == 'o');
    assert("isError"@.index(6) == 'r');
    assert("messages"@.len() == 8);
    assert("messages"@.index(0) == 'm');
    assert("messages"@.index(1) == 'e');
    assert("messages"@.index(2) == 's');
    assert("messages"@.index(3) == 's');
    assert("messages"@.index(4) == 'a');
    assert("messages"@.index(5) == 'g');
    assert("messages"@.index(6) == 'e');
    assert("messages"@.index(7) == 's');
    assert("model"@.len() == 5);
    assert("model"@.index(0) == 'm');
    assert("model"@.index(1) == 'o');
    assert("model"@.index(2) == 'd');
    assert("model"@.index(3) == 'e');
    assert("model"@.index(4) == 'l');
    assert("name"@.len() == 4);
    assert("name"@.index(0) == 'n');
    assert("name"@.index(1) == 'a');
    assert("name"@.index(2) == 'm');
    assert("name"@.index(3) == 'e');
    assert("nextCursor"@.len() == 10);
    assert("nextCursor"@.index(0) == 'n');
    assert("nextCursor"@.index(1) == 'e');
    assert("nextCursor"@.index(2) == 'x');
    assert("nextCursor"@.index(3) == 't');
    assert("nextCursor"@.index(4) == 'C');
    assert("nextCursor"@.index(5) == 'u');
    assert("nextCursor"@.index(6) == 'r');
    assert("nextCursor"@.index(7) == 's');
    assert("nextCursor"@.index(8) == 'o');
    assert("nextCursor"@.index(9) == 'r');
    assert("prompts"@.len() == 7);
    assert("prompts"@.index(0) == 'p');
    assert("prompts"@.index(1) == 'r');
    assert("prompts"@.index(2) == 'o');
    assert("prompts"@.index(3) == 'm');
    assert("prompts"@.index(4) == 'p');
    assert("prompts"@.index(5) == 't');
    assert("prompts"@.index(6) == 's');
    assert("protocolVersion"@.len() == 15);
    assert("protocolVersion"@.index(0) == 'p');
    assert("protocolVersion"@.index(1) == 'r');
    assert("protocolVersion"@.index(2) == 'o');
    assert("protocolVersion"@.index(3) == 't');
    assert("protocolVersion"@.index(4) == 'o');
    assert("protocolVersion"@.index(5) == 'c');
    assert("protocolVersion"@.index(6) == 'o');
    assert("protocolVersion"@.index(7) == 'l');
    assert("protocolVersion"@.index(8) == 'V');
    assert("protocolVersion"@.index(9) == 'e');
    assert("protocolVersion"@.index(10) == 'r');
    assert("protocolVersion"@.index(11) == 's');
    assert("protocolVersion"@.index(12) == 'i');
    assert("protocolVersion"@.index(13) == 'o');
    assert("protocolVersion"@.index(14) == 'n');
    assert("resourceTemplates"@.len() == 17);
    assert("resourceTemplates"@.index(0) == 'r');
    assert("resourceTemplates"@.index(1) == 'e');
    assert("resourceTemplates"@.index(2) == 's');
    assert("resourceTemplates"@.index(3) == 'o');
    assert("resourceTemplates"@.index(4) == 'u');
    assert("resourceTemplates"@.index(5) == 'r');
    assert("resourceTemplates"@.index(6) == 'c');
    assert("resourceTemplates"@.index(7) == 'e');
    assert("resourceTemplates"@.index(8) == 'T');
    assert("resourceTemplates"@.index(9) == 'e');
    assert("resourceTemplates"@.index(10) == 'm');
    assert("resourceTemplates"@.index(11) == 'p');
    assert("resourceTemplates"@.index(12) == 'l');
    assert("resourceTemplates"@.index(13) == 'a');
    assert("resourceTemplates"@.index(14) == 't');
    assert("resourceTemplates"@.index(15) == 'e');
    assert("resourceTemplates"@.index(16) == 's');
    assert("resources"@.len() == 9);
    assert("resources"@.index(0) == 'r');
    assert("resources"@.index(1) == 'e');
    assert("resources"@.index(2) == 's');
    assert("resources"@.index(3) == 'o');
    assert("resources"@.index(4) == 'u');
    assert("resources"@.index(5) == 'r');
    assert("resources"@.index(6) == 'c');
    assert("resources"@.index(7) == 'e');
    assert("resources"@.index(8) == 's');
    assert("role"@.len() == 4);
    assert("role"@.index(0) == 'r');
    assert("role"@.index(1) == 'o');
    assert("role"@.index(2) == 'l');
    assert("role"@.index(3) == 'e');
    assert("roots"@.len() == 5);
    assert("roots"@.index(0) == 'r');
    assert("roots"@.index(1) == 'o');
    assert("roots"@.index(2) == 'o');
    assert("roots"@.index(3) == 't');
    assert("roots"@.index(4) == 's');
    assert("serverInfo"@.len() == 10);
    assert("serverInfo"@.index(0) == 's');
    assert("serverInfo"@.index(1) == 'e');
    assert("serverInfo"@.index(2) == 'r');
    assert("serverInfo"@.index(3) == 'v');
    assert("serverInfo"@.index(4) == 'e');
    assert("serverInfo"@.index(5) == 'r');
    assert("serverInfo"@.index(6) == 'I');
    assert("serverInfo"@.index(7) == 'n');
    assert("serverInfo"@.index(8) == 'f');
    assert("serverInfo"@.index(9) == 'o');
    assert("stopReason"@.len() == 10);
    assert("stopReason"@.index(0) == 's');
    assert("stopReason"@.index(1) == 't');
    assert("stopReason"@.index(2) == 'o');
    assert("stopReason"@.index(3) == 'p');
    assert("stopReason"@.index(4) == 'R');
    assert("stopReason"@.index(5) == 'e');
    assert("stopReason"@.index(6) == 'a');
    assert("stopReason"@.index(7) == 's');
    assert("stopReason"@.index(8) == 'o');
    assert("stopReason"@.index(9) == 'n');
    assert("tools"@.len() == 5);
    assert("tools"@.index(0) == 't');
    assert("tools"@.index(1) == 'o');
    assert("tools"@.index(2) == 'o');
    assert("tools"@.index(3) == 'l');
    assert("tools"@.index(4) == 's');
    assert("total"@.len() == 5);
    assert("total"@.index(0) == 't');
    assert("total"@.index(1) == 'o');
    assert("total"@.index(2) == 't');
    assert("total"@.index(3) == 'a');
    assert("total"@.index(4) == 'l');
    assert("type"@.len() == 4);
    assert("type"@.index(0) == 't');
    assert("type"@.index(1) == 'y');
    assert("type"@.index(2) == 'p');
    assert("type"@.index(3) == 'e');
    assert("uri"@.len() == 3);
    assert("uri"@.index(0) == 'u');
    assert("uri"@.index(1) == 'r');
    assert("uri"@.index(2) == 'i');
    assert("values"@.len() == 6);
    assert("values"@.index(0) == 'v');
    assert("values"@.index(1) == 'a');
    assert("values"@.index(2) == 'l');
    assert("values"@.index(3) == 'u');
    assert("values"@.index(4) == 'e');
    assert("values"@.index(5) == 's');
    match r {
        ClientResultV::CreateMessageResult(x) => {
            lemma_rt_create_message_result(x);
        },
        ClientResultV::ListRootsResult(x) => {
            lemma_rt_list_roots_result(x);
        },
        ClientResultV::EmptyResult(x) => {
            lemma_rt_empty_object(x);
        },
    }
}

/// How a server result stands on the wire.
pub open spec fn enc_server_result(r: ServerResultV) -> JsonV {
    match r {
        ServerResultV::InitializeResult(x) => enc_initialize_result(x),
        ServerResultV::CompleteResult(x) => enc_complete_result(x),
        ServerResultV::GetPromptResult(x) => enc_get_prompt_result(x),
        ServerResultV::ListPromptsResult(x) => enc_list_prompts_result(x),
        ServerResultV::ListResourcesResult(x) => enc_list_resources_result(x),
        ServerResultV::ListResourceTemplatesResult(x) => enc_list_resource_templates_result(x),
        ServerResultV::ReadResourceResult(x) => enc_read_resource_result(x),
        ServerResultV::CallToolResult(x) => enc_call_tool_result(x),
        ServerResultV::ListToolsResult(x) => enc_list_tools_result(x),
        ServerResultV::EmptyResult(x) => enc_empty_object(x),
    }
}

/// The result a JSON value holds: each variant is tried in
/// declaration order and the first structural match wins, so the
/// order here is part of the wire contract.
pub open spec fn dec_server_result(v: JsonV) -> Option<ServerResultV> {
    match dec_initialize_result(v) {
        Some(x) => Some(ServerResultV::InitializeResult(x)),
        None =>
        match dec_complete_result(v) {
            Some(x) => Some(ServerResultV::CompleteResult(x)),
            None =>
            match dec_get_prompt_result(v) {
                Some(x) => Some(ServerResultV::GetPromptResult(x)),
                None =>
                match dec_list_prompts_result(v) {
                    Some(x) => Some(ServerResultV::ListPromptsResult(x)),
                    None =>
                    match dec_list_resources_result(v) {
                        Some(x) => Some(ServerResultV::ListResourcesResult(x)),
                        None =>
                        match dec_list_resource_templates_result(v) {
                            Some(x) => Some(ServerResultV::ListResourceTemplatesResult(x)),
                            None =>
                            match dec_read_resource_result(v) {
                                Some(x) => Some(ServerResultV::ReadResourceResult(x)),
                                None =>
                                match dec_call_tool_result(v) {
                                    Some(x) => Some(ServerResultV::CallToolResult(x)),
                                    None =>
                                    match dec_list_tools_result(v) {
                                        Some(x) => Some(ServerResultV::ListToolsResult(x)),
                                        None =>
                                        match dec_empty_object(v) {
                                            Some(x) => Some(ServerResultV::EmptyResult(x)),
                                            None =>
                                             None
                                            ,
                                        }
                                        ,
                                    }
                                    ,
                                }
                                ,
                            }
                            ,
                        }
                        ,
                    }
                    ,
                }
                ,
            }
            ,
        }
        ,
    }
}

/// The result a JSON value holds, if any.
pub fn server_result_from_json(v: &JsonValue) -> (r: Option<ServerResult>)
    ensures
        r.deep_view() == dec_server_result(jv(*v)),
{
    if let Some(x) = InitializeResult::from_json(v) {
        return Some(ServerResult::InitializeResult(x));
    }
    if let Some(x) = CompleteResult::from_json(v) {
        return Some(ServerResult::CompleteResult(x));
    }
    if let Some(x) = GetPromptResult::from_json(v) {
        return Some(ServerResult::GetPromptResult(x));
    }
    if let Some(x) = ListPromptsResult::from_json(v) {
        return Some(ServerResult::ListPromptsResult(x));
    }
    if let Some(x) = ListResourcesResult::from_json(v) {
        return Some(ServerResult::ListResourcesResult(x));
    }
    if let Some(x) = ListResourceTemplatesResult::from_json(v) {
        return Some(ServerResult::ListResourceTemplatesResult(x));
    }
    if let Some(x) = ReadResourceResult::from_json(v) {
        return Some(ServerResult::ReadResourceResult(x));
    }
    if let Some(x) = CallToolResult::from_json(v) {
        return Some(ServerResult::CallToolResult(x));
    }
    if let Some(x) = ListToolsResult::from_json(v) {
        return Some(ServerResult::ListToolsResult(x));
    }
    if let Some(x) = EmptyObject::from_json(v) {
        return Some(ServerResult::EmptyResult(x));
    }
    None
}

/// This result as a JSON value.
pub fn server_result_to_json(r: &ServerResult) -> (out: JsonValue)
    ensures
        jv(out) == enc_server_result(r.deep_view()),
{
    match r {
        ServerResult::InitializeResult(x) => x.to_json(),
        ServerResult::CompleteResult(x) => x.to_json(),
        ServerResult::GetPromptResult(x) => x.to_json(),
        ServerResult::ListPromptsResult(x) => x.to_json(),
        ServerResult::ListResourcesResult(x) => x.to_json(),
        ServerResult::ListResourceTemplatesResult(x) => x.to_json(),
        ServerResult::ReadResourceResult(x) => x.to_json(),
        ServerResult::CallToolResult(x) => x.to_json(),
        ServerResult::ListToolsResult(x) => x.to_json(),
        ServerResult::EmptyResult(x) => x.to_json(),
    }
}

/// A result survives the wire: decoding in declaration order finds
/// exactly the variant that was encoded.
pub proof fn lemma_rt_server_result(r: ServerResultV)
    ensures
        dec_server_result(enc_server_result(r)) == Some(r),
{
    reveal_strlit("capabilities");
    reveal_strlit("completion");
    reveal_strlit("content");
    reveal_strlit("contents");
    reveal_strlit("description");
    reveal_strlit("hasMore");
    reveal_strlit("instructions");
    reveal_strlit("isError");
    reveal_strlit("messages");
    reveal_strlit("model");
    reveal_strlit("name");
    reveal_strlit("nextCursor");
    reveal_strlit("prompts");
    reveal_strlit("protocolVersion");
    reveal_strlit("resourceTemplates");
    reveal_strlit("resources");
    reveal_strlit("role");
    reveal_strlit("roots");
    reveal_strlit("serverInfo");
    reveal_strlit("stopReason");
    reveal_strlit("tools");
    reveal_strlit("total");
    reveal_strlit("type");
    reveal_strlit("uri");
    reveal_strlit("values");
    assert("capabilities"@.len() == 12);
    assert("capabilities"@.index(0) == 'c');
    assert("capabilities"@.index(1) == 'a');
    assert("capabilities"@.index(2) == 'p');
    assert("capabilities"@.index(3) == 'a');
    assert("capabilities"@.index(4) == 'b');
    assert("capabilities"@.index(5) == 'i');
    assert("capabilities"@.index(6) == 'l');
    assert("capabilities"@.index(7) == 'i');
    assert("capabilities"@.index(8) == 't');
    assert("capabilities"@.index(9) == 'i');
    assert("capabilities"@.index(10) == 'e');
    assert("capabilities"@.index(11) == 's');
    assert("completion"@.len() == 10);
    assert("completion"@.index(0) == 'c');
    assert("completion"@.index(1) == 'o');
    assert("completion"@.index(2) == 'm');
    assert("completion"@.index(3) == 'p');
    assert("completion"@.index(4) == 'l');
    assert("completion"@.index(5) == 'e');
    assert("completion"@.index(6) == 't');
    assert("completion"@.index(7) == 'i');
    assert("completion"@.index(8) == 'o');
    assert("completion"@.index(9) == 'n');
    assert("content"@.len() == 7);
    assert("content"@.index(0) == 'c');
    assert("content"@.index(1) == 'o');
    assert("content"@.index(2) == 'n');
    assert("content"@.index(3) == 't');
    assert("content"@.index(4) == 'e');
    assert("content"@.index(5) == 'n');
    assert("content"@.index(6) == 't');
    assert("contents"@.len() == 8);
    assert("contents"@.index(0) == 'c');
    assert("contents"@.index(1) == 'o');
    assert("contents"@.index(2) == 'n');
    assert("contents"@.index(3) == 't');
    assert("contents"@.index(4) == 'e');
    assert("contents"@.index(5) == 'n');
    assert("contents"@.index(6) == 't');
    assert("contents"@.index(7) == 's');
    assert("description"@.len() == 11);
    assert("description"@.index(0) == 'd');
    assert("description"@.index(1) == 'e');
    assert("description"@.index(2) == 's');
    assert("description"@.index(3) == 'c');
    assert("description"@.index(4) == 'r');
    assert("description"@.index(5) == 'i');
    assert("description"@.index(6) == 'p');
    assert("description"@.index(7) == 't');
    assert("description"@.index(8) == 'i');
    assert("description"@.index(9) == 'o');
    assert("description"@.index(10) == 'n');
    assert("hasMore"@.len() == 7);
    assert("hasMore"@.index(0) == 'h');
    assert("hasMore"@.index(1) == 'a');
    assert("hasMore"@.index(2) == 's');
    assert("hasMore"@.index(3) == 'M');
    assert("hasMore"@.index(4) == 'o');
    assert("hasMore"@.index(5) == 'r');
    assert("hasMore"@.index(6) == 'e');
    assert("instructions"@.len() == 12);
    assert("instructions"@.index(0) == 'i');
    assert("instructions"@.index(1) == 'n');
    assert("instructions"@.index(2) == 's');
    assert("instructions"@.index(3) == 't');
    assert("instructions"@.index(4) == 'r');
    assert("instructions"@.index(5) == 'u');
    assert("instructions"@.index(6) == 'c');
    assert("instructions"@.index(7) == 't');
    assert("instructions"@.index(8) == 'i');
    assert("instructions"@.index(9) == 'o');
    assert("instructions"@.index(10) == 'n');
    assert("instructions"@.index(11) == 's');
    assert("isError"@.len() == 7);
    assert("isError"@.index(0) == 'i');
    assert("isError"@.index(1) == 's');
    assert("isError"@.index(2) == 'E');
    assert("isError"@.index(3) == 'r');
    assert("isError"@.index(4) == 'r');
    assert("isError"@.index(5) == 'o');
    assert("isError"@.index(6) == 'r');
    assert("messages"@.len() == 8);
    assert("messages"@.index(0) == 'm');
    assert("messages"@.index(1) == 'e');
    assert("messages"@.index(2) == 's');
    assert("messages"@.index(3) == 's');
    assert("messages"@.index(4) == 'a');
    assert("messages"@.index(5) == 'g');
    assert("messages"@.index(6) == 'e');
    assert("messages"@.index(7) == 's');
    assert("model"@.len() == 5);
    assert("model"@.index(0) == 'm');
    assert("model"@.index(1) == 'o');
    assert("model"@.index(2) == 'd');
    assert("model"@.index(3) == 'e');
    assert("model"@.index(4) == 'l');
    assert("name"@.len() == 4);
    assert("name"@.index(0) == 'n');
    assert("name"@.index(1) == 'a');
    assert("name"@.index(2) == 'm');
    assert("name"@.index(3) == 'e');
    assert("nextCursor"@.len() == 10);
    assert("nextCursor"@.index(0) == 'n');
    assert("nextCursor"@.index(1) == 'e');
    assert("nextCursor"@.index(2) == 'x');
    assert("nextCursor"@.index(3) == 't');
    assert("nextCursor"@.index(4) == 'C');
    assert("nextCursor"@.index(5) == 'u');
    assert("nextCursor"@.index(6) == 'r');
    assert("nextCursor"@.index(7) == 's');
    assert("nextCursor"@.index(8) == 'o');
    assert("nextCursor"@.index(9) == 'r');
    assert("prompts"@.len() == 7);
    assert("prompts"@.index(0) == 'p');
    assert("prompts"@.index(1) == 'r');
    assert("prompts"@.index(2) == 'o');
    assert("prompts"@.index(3) == 'm');
    assert("prompts"@.index(4) == 'p');
    assert("prompts"@.index(5) == 't');
    assert("prompts"@.index(6) == 's');
    assert("protocolVersion"@.len() == 15);
    assert("protocolVersion"@.index(0) == 'p');
    assert("protocolVersion"@.index(1) == 'r');
    assert("protocolVersion"@.index(2) == 'o');
    assert("protocolVersion"@.index(3) == 't');
    assert("protocolVersion"@.index(4) == 'o');
    assert("protocolVersion"@.index(5) == 'c');
    assert("protocolVersion"@.index(6) == 'o');
    assert("protocolVersion"@.index(7) == 'l');
    assert("protocolVersion"@.index(8) == 'V');
    assert("protocolVersion"@.index(9) == 'e');
    assert("protocolVersion"@.index(10) == 'r');
    assert("protocolVersion"@.index(11) == 's');
    assert("protocolVersion"@.index(12) == 'i');
    assert("protocolVersion"@.index(13) == 'o');
    assert("protocolVersion"@.index(14) == 'n');
    assert("resourceTemplates"@.len() == 17);
    assert("resourceTemplates"@.index(0) == 'r');
    assert("resourceTemplates"@.index(1) == 'e');
    assert("resourceTemplates"@.index(2) == 's');
    assert("resourceTemplates"@.index(3) == 'o');
    assert("resourceTemplates"@.index(4) == 'u');
    assert("resourceTemplates"@.index(5) == 'r');
    assert("resourceTemplates"@.index(6) == 'c');
    assert("resourceTemplates"@.index(7) == 'e');
    assert("resourceTemplates"@.index(8) == 'T');
    assert("resourceTemplates"@.index(9) == 'e');
    assert("resourceTemplates"@.index(10) == 'm');
    assert("resourceTemplates"@.index(11) == 'p');
    assert("resourceTemplates"@.index(12) == 'l');
    assert("resourceTemplates"@.index(13) == 'a');
    assert("resourceTemplates"@.index(14) == 't');
    assert("resourceTemplates"@.index(15) == 'e');
    assert("resourceTemplates"@.index(16) == 's');
    assert("resources"@.len() == 9);
    assert("resources"@.index(0) == 'r');
    assert("resources"@.index(1) == 'e');
    assert("resources"@.index(2) == 's');
    assert("resources"@.index(3) == 'o');
    assert("resources"@.index(4) == 'u');
    assert("resources"@.index(5) == 'r');
    assert("resources"@.index(6) == 'c');
    assert("resources"@.index(7) == 'e');
    assert("resources"@.index(8) == 's');
    assert("role"@.len() == 4);
    assert("role"@.index(0) == 'r');
    assert("role"@.index(1) == 'o');
    assert("role"@.index(2) == 'l');
    assert("role"@.index(3) == 'e');
    assert("roots"@.len() == 5);
    assert("roots"@.index(0) == 'r');
    assert("roots"@.index(1) == 'o');
    assert("roots"@.index(2) == 'o');
    assert("roots"@.index(3) == 't');
    assert("roots"@.index(4) == 's');
    assert("serverInfo"@.len() == 10);
    assert("serverInfo"@.index(0) == 's');
    assert("serverInfo"@.index(1) == 'e');
    assert("serverInfo"@.index(2) == 'r');
    assert("serverInfo"@.index(3) == 'v');
    assert("serverInfo"@.index(4) == 'e');
    assert("serverInfo"@.index(5) == 'r');
    assert("serverInfo"@.index(6) == 'I');
    assert("serverInfo"@.index(7) == 'n');
    assert("serverInfo"@.index(8) == 'f');
    assert("serverInfo"@.index(9) == 'o');
    assert("stopReason"@.len() == 10);
    assert("stopReason"@.index(0) == 's');
    assert("stopReason"@.index(1) == 't');
    assert("stopReason"@.index(2) == 'o');
    assert("stopReason"@.index(3) == 'p');
    assert("stopReason"@.index(4) == 'R');
    assert("stopReason"@.index(5) == 'e');
    assert("stopReason"@.index(6) == 'a');
    assert("stopReason"@.index(7) == 's');
    assert("stopReason"@.index(8) == 'o');
    assert("stopReason"@.index(9) == 'n');
    assert("tools"@.len() == 5);
    assert("tools"@.index(0) == 't');
    assert("tools"@.index(1) == 'o');
    assert("tools"@.index(2) == 'o');
    assert("tools"@.index(3) == 'l');
    assert("tools"@.index(4) == 's');
    assert("total"@.len() == 5);
    assert("total"@.index(0) == 't');
    assert("total"@.index(1) == 'o');
    assert("total"@.index(2) == 't');
    assert("total"@.index(3) == 'a');
    assert("total"@.index(4) == 'l');
    assert("type"@.len() == 4);
    assert("type"@.index(0) == 't');
    assert("type"@.index(1) == 'y');
    assert("type"@.index(2) == 'p');
    assert("type"@.index(3) == 'e');
    assert("uri"@.len() == 3);
    assert("uri"@.index(0) == 'u');
    assert("uri"@.index(1) == 'r');
    assert("uri"@.index(2) == 'i');
    assert("values"@.len() == 6);
    assert("values"@.index(0) == 'v');
    assert("values"@.index(1) == 'a');
    assert("values"@.index(2) == 'l');
    assert("values"@.index(3) == 'u');
    assert("values"@.index(4) == 'e');
    assert("values"@.index(5) == 's');
    match r {
        ServerResultV::InitializeResult(x) => {
            lemma_rt_initialize_result(x);
        },
        ServerResultV::CompleteResult(x) => {
            lemma_rt_complete_result(x);
        },
        ServerResultV::GetPromptResult(x) => {
            lemma_rt_get_prompt_result(x);
        },
        ServerResultV::ListPromptsResult(x) => {
            lemma_rt_list_prompts_result(x);
        },
        ServerResultV::ListResourcesResult(x) => {
            lemma_rt_list_resources_result(x);
        },
        ServerResultV::ListResourceTemplatesResult(x) => {
            lemma_rt_list_resource_templates_result(x);
        },
        ServerResultV::ReadResourceResult(x) => {
            lemma_rt_read_resource_result(x);
        },
        ServerResultV::CallToolResult(x) => {
            lemma_rt_call_tool_result(x);
        },
        ServerResultV::ListToolsResult(x) => {
            lemma_rt_list_tools_result(x);
        },
        ServerResultV::EmptyResult(x) => {
            lemma_rt_empty_object(x);
        },
    }
}

/// Mirror of the client-side wire unit.
pub type ClientJsonRpcMessageV = JsonRpcMessageV<ClientRequestV, ClientResultV, ClientNotificationV>;

/// How a client-side unit stands on the wire: one JSON object per
/// envelope, every envelope carrying the `"2.0"` version literal.
pub open spec fn enc_client(m: ClientJsonRpcMessageV) -> JsonV {
    match m {
        JsonRpcMessageV::Request(e) => JsonV::Obj(
            centry(
                "jsonrpc"@,
                JsonV::Str("2.0"@),
                centry("id"@, enc_id(e.id), enc_client_request_obj(e.request, nilobj())),
            ),
        ),
        JsonRpcMessageV::Response(e) => JsonV::Obj(
            centry(
                "jsonrpc"@,
                JsonV::Str("2.0"@),
                centry(
                    "id"@,
                    enc_id(e.id),
                    centry("result"@, enc_client_result(e.result), nilobj()),
                ),
            ),
        ),
        JsonRpcMessageV::Notification(e) => JsonV::Obj(
            centry(
                "jsonrpc"@,
                JsonV::Str("2.0"@),
                enc_client_notification_obj(e.notification, nilobj()),
            ),
        ),
        JsonRpcMessageV::Error(e) => JsonV::Obj(
            centry(
                "jsonrpc"@,
                JsonV::Str("2.0"@),
                centry("id"@, enc_id(e.id), centry("error"@, enc_error_data(e.error), nilobj())),
            ),
        ),
    }
}

/// The client-side unit a JSON value holds. The four envelope shapes
/// are tried in a fixed, documented order — request, response,
/// notification, error — and the first structural match wins.
pub open spec fn dec_client(v: JsonV) -> Option<ClientJsonRpcMessageV> {
    if get_s(v, "jsonrpc"@) != Some("2.0"@) {
        None
    } else {
        match (get_id(v, "id"@), dec_client_request(v)) {
            (Some(id), Some(request)) => Some(
                JsonRpcMessageV::Request(JsonRpcRequestV { id, request }),
            ),
            _ => match (
                get_id(v, "id"@),
                match fget(v, "result"@) {
                    Some(w) => dec_client_result(w),
                    None => None,
                },
            ) {
                (Some(id), Some(result)) => Some(
                    JsonRpcMessageV::Response(JsonRpcResponseV { id, result }),
                ),
                _ => match dec_client_notification(v) {
                    Some(notification) => Some(
                        JsonRpcMessageV::Notification(JsonRpcNotificationV { notification }),
                    ),
                    None => match (
                        get_id(v, "id"@),
                        match fget(v, "error"@) {
                            Some(w) => dec_error_data(w),
                            None => None,
                        },
                    ) {
                        (Some(id), Some(error)) => Some(
                            JsonRpcMessageV::Error(JsonRpcErrorV { id, error }),
                        ),
                        _ => None,
                    },
                },
            },
        }
    }
}

impl JsonRpcMessage<ClientRequest, ClientResult, ClientNotification> {
    /// This unit as its wire JSON object.
    pub fn to_json(&self) -> (r: JsonValue)
        ensures
            jv(r) == enc_client(self.deep_view()),
    {
        let mut o: Vec<(String, JsonValue)> = Vec::new();
        o.push(("jsonrpc".to_owned(), JsonValue::Str("2.0".to_owned())));
        match self {
            JsonRpcMessage::Request(e) => {
                o.push(("id".to_owned(), e.id.to_json()));
                match &e.request {
                    ClientRequest::PingRequest => {
                        o.push(("method".to_owned(), JsonValue::Str("ping".to_owned())));
                    },
                    ClientRequest::InitializeRequest(x) => {
                        o.push(("method".to_owned(), JsonValue::Str("initialize".to_owned())));
                        o.push(("params".to_owned(), x.to_json()));
                    },
                    ClientRequest::CompleteRequest(x) => {
                        o.push(("method".to_owned(), JsonValue::Str("completion/complete".to_owned())));
                        o.push(("params".to_owned(), x.to_json()));
                    },
                    ClientRequest::SetLevelRequest(x) => {
                        o.push(("method".to_owned(), JsonValue::Str("logging/setLevel".to_owned())));
                        o.push(("params".to_owned(), x.to_json()));
                    },
                    ClientRequest::GetPromptRequest(x) => {
                        o.push(("method".to_owned(), JsonValue::Str("prompts/get".to_owned())));
                        o.push(("params".to_owned(), x.to_json()));
                    },
                    ClientRequest::ListPromptsRequest(x) => {
                        o.push(("method".to_owned(), JsonValue::Str("prompts/list".to_owned())));
                        o.push(("params".to_owned(), x.to_json()));
                    },
                    ClientRequest::ListResourcesRequest(x) => {
                        o.push(("method".to_owned(), JsonValue::Str("resources/list".to_owned())));
                        o.push(("params".to_owned(), x.to_json()));
                    },
                    ClientRequest::ListResourceTemplatesRequest(x) => {
                        o.push(("method".to_owned(), JsonValue::Str("resources/templates/list".to_owned())));
                        o.push(("params".to_owned(), x.to_json()));
                    },
                    ClientRequest::ReadResourceRequest(x) => {
                        o.push(("method".to_owned(), JsonValue::Str("resources/read".to_owned())));
                        o.push(("params".to_owned(), x.to_json()));
                    },
                    ClientRequest::SubscribeRequest(x) => {
                        o.push(("method".to_owned(), JsonValue::Str("resources/subscribe".to_owned())));
                        o.push(("params".to_owned(), x.to_json()));
                    },
                    ClientRequest::UnsubscribeRequest(x) => {
                        o.push(("method".to_owned(), JsonValue::Str("resources/unsubscribe".to_owned())));
                        o.push(("params".to_owned(), x.to_json()));
                    },
                    ClientRequest::CallToolRequest(x) => {
                        o.push(("method".to_owned(), JsonValue::Str("tools/call".to_owned())));
                        o.push(("params".to_owned(), x.to_json()));
                    },
                    ClientRequest::ListToolsRequest(x) => {
                        o.push(("method".to_owned(), JsonValue::Str("tools/list".to_owned())));
                        o.push(("params".to_owned(), x.to_json()));
                    },
                }
            },
            JsonRpcMessage::Response(e) => {
                o.push(("id".to_owned(), e.id.to_json()));
                o.push(("result".to_owned(), client_result_to_json(&e.result)));
            },
            JsonRpcMessage::Notification(e) => {
                match &e.notification {
                    ClientNotification::CancelledNotification(x) => {
                        o.push(("method".to_owned(), JsonValue::Str("notifications/cancelled".to_owned())));
                        o.push(("params".to_owned(), x.to_json()));
                    },
                    ClientNotification::ProgressNotification(x) => {
                        o.push(("method".to_owned(), JsonValue::Str("notifications/progress".to_owned())));
                        o.push(("params".to_owned(), x.to_json()));
                    },
                    ClientNotification::InitializedNotification => {
                        o.push(("method".to_owned(), JsonValue::Str("notifications/initialized".to_owned())));
                    },
                    ClientNotification::RootsListChangedNotification => {
                        o.push(("method".to_owned(), JsonValue::Str("notifications/roots/list_changed".to_owned())));
                    },
                }
            },
            JsonRpcMessage::Error(e) => {
                o.push(("id".to_owned(), e.id.to_json()));
                o.push(("error".to_owned(), e.error.to_json()));
            },
        }
        proof {
            lemma_jv_obj(o);
            assert(o.deep_view() =~= enc_client(self.deep_view())->Obj_0);
        }
        JsonValue::Obj(o)
    }

    /// The unit a JSON value holds, if any: request, then response,
    /// then notification, then error.
    pub fn from_json(v: &JsonValue) -> (r: Option<JsonRpcMessage<ClientRequest, ClientResult, ClientNotification>>)
        ensures
            r.deep_view() == dec_client(jv(*v)),
    {
        let ver = match v.f_str("jsonrpc") {
            Some(s) => s,
            None => {
                return None;
            },
        };
        if !string_eq(&ver, "2.0") {
            return None;
        }
        let id_r = match v.get("id") {
            Some(w) => NumberOrString::from_json(w),
            None => None,
        };
        let rq = client_request_from_json(v);
        match (id_r, rq) {
            (Some(id), Some(request)) => {
                return Some(JsonRpcMessage::Request(JsonRpcRequest {
                    jsonrpc: JsonRpcVersion2_0,
                    id,
                    request,
                }));
            },
            _ => {},
        }
        let id_s = match v.get("id") {
            Some(w) => NumberOrString::from_json(w),
            None => None,
        };
        let res = match v.get("result") {
            Some(w) => client_result_from_json(w),
            None => None,
        };
        match (id_s, res) {
            (Some(id), Some(result)) => {
                return Some(JsonRpcMessage::Response(JsonRpcResponse {
                    jsonrpc: JsonRpcVersion2_0,
                    id,
                    result,
                }));
            },
            _ => {},
        }
        match client_notification_from_json(v) {
            Some(notification) => {
                return Some(JsonRpcMessage::Notification(JsonRpcNotification {
                    jsonrpc: JsonRpcVersion2_0,
                    notification,
                }));
            },
            None => {},
        }
        let id_e = match v.get("id") {
            Some(w) => NumberOrString::from_json(w),
            None => None,
        };
        let err = match v.get("error") {
            Some(w) => ErrorData::from_json(w),
            None => None,
        };
        match (id_e, err) {
            (Some(id), Some(error)) => {
                return Some(JsonRpcMessage::Error(JsonRpcError {
                    jsonrpc: JsonRpcVersion2_0,
                    id,
                    error,
                }));
            },
            _ => {},
        }
        None
    }
}

/// The one shape the wire cannot carry: an optional field that is
/// explicitly null, which re-reads as absent.
pub open spec fn wf_client(m: ClientJsonRpcMessageV) -> bool {
    &&& match m {
        JsonRpcMessageV::Error(e) => e.error.data != Some(JsonV::Null),
        _ => true,
    }
}

/// Every client-side unit survives the wire: decoding an encoded unit
/// restores it exactly, for arbitrary field values.
pub proof fn lemma_rt_client(m: ClientJsonRpcMessageV)
    requires
        wf_client(m),
    ensures
        dec_client(enc_client(m)) == Some(m),
{
    reveal_strlit("2.0");
    reveal_strlit("code");
    reveal_strlit("completion/complete");
    reveal_strlit("data");
    reveal_strlit("error");
    reveal_strlit("id");
    reveal_strlit("initialize");
    reveal_strlit("jsonrpc");
    reveal_strlit("logging/setLevel");
    reveal_strlit("message");
    reveal_strlit("method");
    reveal_strlit("notifications/cancelled");
    reveal_strlit("notifications/initialized");
    reveal_strlit("notifications/message");
    reveal_strlit("notifications/progress");
    reveal_strlit("notifications/prompts/list_changed");
    reveal_strlit("notifications/resources/list_changed");
    reveal_strlit("notifications/resources/updated");
    reveal_strlit("notifications/roots/list_changed");
    reveal_strlit("notifications/tools/list_changed");
    reveal_strlit("params");
    reveal_strlit("ping");
    reveal_strlit("prompts/get");
    reveal_strlit("prompts/list");
    reveal_strlit("resources/list");
    reveal_strlit("resources/read");
    reveal_strlit("resources/subscribe");
    reveal_strlit("resources/templates/list");
    reveal_strlit("resources/unsubscribe");
    reveal_strlit("result");
    reveal_strlit("roots/list");
    reveal_strlit("sampling/createMessage");
    reveal_strlit("tools/call");
    reveal_strlit("tools/list");
    assert("2.0"@.len() == 3);
    assert("2.0"@.index(0) == '2');
    assert("2.0"@.index(1) == '.');
    assert("2.0"@.index(2) == '0');
    assert("code"@.len() == 4);
    assert("code"@.index(0) == 'c');
    assert("code"@.index(1) == 'o');
    assert("code"@.index(2) == 'd');
    assert("code"@.index(3) == 'e');
    assert("completion/complete"@.len() == 19);
    assert("completion/complete"@.index(0) == 'c');
    assert("completion/complete"@.index(1) == 'o');
    assert("completion/complete"@.index(2) == 'm');
    assert("completion/complete"@.index(3) == 'p');
    assert("completion/complete"@.index(4) == 'l');
    assert("completion/complete"@.index(5) == 'e');
    assert("completion/complete"@.index(6) == 't');
    assert("completion/complete"@.index(7) == 'i');
    assert("completion/complete"@.index(8) == 'o');
    assert("completion/complete"@.index(9) == 'n');
    assert("completion/complete"@.index(10) == '/');
    assert("completion/complete"@.index(11) == 'c');
    assert("completion/complete"@.index(12) == 'o');
    assert("completion/complete"@.index(13) == 'm');
    assert("completion/complete"@.index(14) == 'p');
    assert("completion/complete"@.index(15) == 'l');
    assert("completion/complete"@.index(16) == 'e');
    assert("completion/complete"@.index(17) == 't');
    assert("completion/complete"@.index(18) == 'e');
    assert("data"@.len() == 4);
    assert("data"@.index(0) == 'd');
    assert("data"@.index(1) == 'a');
    assert("data"@.index(2) == 't');
    assert("data"@.index(3) == 'a');
    assert("error"@.len() == 5);
    assert("error"@.index(0) == 'e');
    assert("error"@.index(1) == 'r');
    assert("error"@.index(2) == 'r');
    assert("error"@.index(3) == 'o');
    assert("error"@.index(4) == 'r');
    assert("id"@.len() == 2);
    assert("id"@.index(0) == 'i');
    assert("id"@.index(1) == 'd');
    assert("initialize"@.len() == 10);
    assert("initialize"@.index(0) == 'i');
    assert("initialize"@.index(1) == 'n');
    assert("initialize"@.index(2) == 'i');
    assert("initialize"@.index(3) == 't');
    assert("initialize"@.index(4) == 'i');
    assert("initialize"@.index(5) == 'a');
    assert("initialize"@.index(6) == 'l');
    assert("initialize"@.index(7) == 'i');
    assert("initialize"@.index(8) == 'z');
    assert("initialize"@.index(9) == 'e');
    assert("jsonrpc"@.len() == 7);
    assert("jsonrpc"@.index(0) == 'j');
    assert("jsonrpc"@.index(1) == 's');
    assert("jsonrpc"@.index(2) == 'o');
    assert("jsonrpc"@.index(3) == 'n');
    assert("jsonrpc"@.index(4) == 'r');
    assert("jsonrpc"@.index(5) == 'p');
    assert("jsonrpc"@.index(6) == 'c');
    assert("logging/setLevel"@.len() == 16);
    assert("logging/setLevel"@.index(0) == 'l');
    assert("logging/setLevel"@.index(1) == 'o');
    assert("logging/setLevel"@.index(2) == 'g');
    assert("logging/setLevel"@.index(3) == 'g');
    assert("logging/setLevel"@.index(4) == 'i');
    assert("logging/setLevel"@.index(5) == 'n');
    assert("logging/setLevel"@.index(6) == 'g');
    assert("logging/setLevel"@.index(7) == '/');
    assert("logging/setLevel"@.index(8) == 's');
    assert("logging/setLevel"@.index(9) == 'e');
    assert("logging/setLevel"@.index(10) == 't');
    assert("logging/setLevel"@.index(11) == 'L');
    assert("logging/setLevel"@.index(12) == 'e');
    assert("logging/setLevel"@.index(13) == 'v');
    assert("logging/setLevel"@.index(14) == 'e');
    assert("logging/setLevel"@.index(15) == 'l');
    assert("message"@.len() == 7);
    assert("message"@.index(0) == 'm');
    assert("message"@.index(1) == 'e');
    assert("message"@.index(2) == 's');
    assert("message"@.index(3) == 's');
    assert("message"@.index(4) == 'a');
    assert("message"@.index(5) == 'g');
    assert("message"@.index(6) == 'e');
    assert("method"@.len() == 6);
    assert("method"@.index(0) == 'm');
    assert("method"@.index(1) == 'e');
    assert("method"@.index(2) == 't');
    assert("method"@.index(3) == 'h');
    assert("method"@.index(4) == 'o');
    assert("method"@.index(5) == 'd');
    assert("notifications/cancelled"@.len() == 23);
    assert("notifications/cancelled"@.index(0) == 'n');
    assert("notifications/cancelled"@.index(1) == 'o');
    assert("notifications/cancelled"@.index(2) == 't');
    assert("notifications/cancelled"@.index(3) == 'i');
    assert("notifications/cancelled"@.index(4) == 'f');
    assert("notifications/cancelled"@.index(5) == 'i');
    assert("notifications/cancelled"@.index(6) == 'c');
    assert("notifications/cancelled"@.index(7) == 'a');
    assert("notifications/cancelled"@.index(8) == 't');
    assert("notifications/cancelled"@.index(9) == 'i');
    assert("notifications/cancelled"@.index(10) == 'o');
    assert("notifications/cancelled"@.index(11) == 'n');
    assert("notifications/cancelled"@.index(12) == 's');
    assert("notifications/cancelled"@.index(13) == '/');
    assert("notifications/cancelled"@.index(14) == 'c');
    assert("notifications/cancelled"@.index(15) == 'a');
    assert("notifications/cancelled"@.index(16) == 'n');
    assert("notifications/cancelled"@.index(17) == 'c');
    assert("notifications/cancelled"@.index(18) == 'e');
    assert("notifications/cancelled"@.index(19) == 'l');
    assert("notifications/cancelled"@.index(20) == 'l');
    assert("notifications/cancelled"@.index(21) == 'e');
    assert("notifications/cancelled"@.index(22) == 'd');
    assert("notifications/initialized"@.len() == 25);
    assert("notifications/initialized"@.index(0) == 'n');
    assert("notifications/initialized"@.index(1) == 'o');
    assert("notifications/initialized"@.index(2) == 't');
    assert("notifications/initialized"@.index(3) == 'i');
    assert("notifications/initialized"@.index(4) == 'f');
    assert("notifications/initialized"@.index(5) == 'i');
    assert("notifications/initialized"@.index(6) == 'c');
    assert("notifications/initialized"@.index(7) == 'a');
    assert("notifications/initialized"@.index(8) == 't');
    assert("notifications/initialized"@.index(9) == 'i');
    assert("notifications/initialized"@.index(10) == 'o');
    assert("notifications/initialized"@.index(11) == 'n');
    assert("notifications/initialized"@.index(12) == 's');
    assert("notifications/initialized"@.index(13) == '/');
    assert("notifications/initialized"@.index(14) == 'i');
    assert("notifications/initialized"@.index(15) == 'n');
    assert("notifications/initialized"@.index(16) == 'i');
    assert("notifications/initialized"@.index(17) == 't');
    assert("notifications/initialized"@.index(18) == 'i');
    assert("notifications/initialized"@.index(19) == 'a');
    assert("notifications/initialized"@.index(20) == 'l');
    assert("notifications/initialized"@.index(21) == 'i');
    assert("notifications/initialized"@.index(22) == 'z');
    assert("notifications/initialized"@.index(23) == 'e');
    assert("notifications/initialized"@.index(24) == 'd');
    assert("notifications/message"@.len() == 21);
    assert("notifications/message"@.index(0) == 'n');
    assert("notifications/message"@.index(1) == 'o');
    assert("notifications/message"@.index(2) == 't');
    assert("notifications/message"@.index(3) == 'i');
    assert("notifications/message"@.index(4) == 'f');
    assert("notifications/message"@.index(5) == 'i');
    assert("notifications/message"@.index(6) == 'c');
    assert("notifications/message"@.index(7) == 'a');
    assert("notifications/message"@.index(8) == 't');
    assert("notifications/message"@.index(9) == 'i');
    assert("notifications/message"@.index(10) == 'o');
    assert("notifications/message"@.index(11) == 'n');
    assert("notifications/message"@.index(12) == 's');
    assert("notifications/message"@.index(13) == '/');
    assert("notifications/message"@.index(14) == 'm');
    assert("notifications/message"@.index(15) == 'e');
    assert("notifications/message"@.index(16) == 's');
    assert("notifications/message"@.index(17) == 's');
    assert("notifications/message"@.index(18) == 'a');
    assert("notifications/message"@.index(19) == 'g');
    assert("notifications/message"@.index(20) == 'e');
    assert("notifications/progress"@.len() == 22);
    assert("notifications/progress"@.index(0) == 'n');
    assert("notifications/progress"@.index(1) == 'o');
    assert("notifications/progress"@.index(2) == 't');
    assert("notifications/progress"@.index(3) == 'i');
    assert("notifications/progress"@.index(4) == 'f');
    assert("notifications/progress"@.index(5) == 'i');
    assert("notifications/progress"@.index(6) == 'c');
    assert("notifications/progress"@.index(7) == 'a');
    assert("notifications/progress"@.index(8) == 't');
    assert("notifications/progress"@.index(9) == 'i');
    assert("notifications/progress"@.index(10) == 'o');
    assert("notifications/progress"@.index(11) == 'n');
    assert("notifications/progress"@.index(12) == 's');
    assert("notifications/progress"@.index(13) == '/');
    assert("notifications/progress"@.index(14) == 'p');
    assert("notifications/progress"@.index(15) == 'r');
    assert("notifications/progress"@.index(16) == 'o');
    assert("notifications/progress"@.index(17) == 'g');
    assert("notifications/progress"@.index(18) == 'r');
    assert("notifications/progress"@.index(19) == 'e');
    assert("notifications/progress"@.index(20) == 's');
    assert("notifications/progress"@.index(21) == 's');
    assert("notifications/prompts/list_changed"@.len() == 34);
    assert("notifications/prompts/list_changed"@.index(0) == 'n');
    assert("notifications/prompts/list_changed"@.index(1) == 'o');
    assert("notifications/prompts/list_changed"@.index(2) == 't');
    assert("notifications/prompts/list_changed"@.index(3) == 'i');
    assert("notifications/prompts/list_changed"@.index(4) == 'f');
    assert("notifications/prompts/list_changed"@.index(5) == 'i');
    assert("notifications/prompts/list_changed"@.index(6) == 'c');
    assert("notifications/prompts/list_changed"@.index(7) == 'a');
    assert("notifications/prompts/list_changed"@.index(8) == 't');
    assert("notifications/prompts/list_changed"@.index(9) == 'i');
    assert("notifications/prompts/list_changed"@.index(10) == 'o');
    assert("notifications/prompts/list_changed"@.index(11) == 'n');
    assert("notifications/prompts/list_changed"@.index(12) == 's');
    assert("notifications/prompts/list_changed"@.index(13) == '/');
    assert("notifications/prompts/list_changed"@.index(14) == 'p');
    assert("notifications/prompts/list_changed"@.index(15) == 'r');
    assert("notifications/prompts/list_changed"@.index(16) == 'o');
    assert("notifications/prompts/list_changed"@.index(17) == 'm');
    assert("notifications/prompts/list_changed"@.index(18) == 'p');
    assert("notifications/prompts/list_changed"@.index(19) == 't');
    assert("notifications/prompts/list_changed"@.index(20) == 's');
    assert("notifications/prompts/list_changed"@.index(21) == '/');
    assert("notifications/prompts/list_changed"@.index(22) == 'l');
    assert("notifications/prompts/list_changed"@.index(23) == 'i');
    assert("notifications/prompts/list_changed"@.index(24) == 's');
    assert("notifications/prompts/list_changed"@.index(25) == 't');
    assert("notifications/prompts/list_changed"@.index(26) == '_');
    assert("notifications/prompts/list_changed"@.index(27) == 'c');
    assert("notifications/prompts/list_changed"@.index(28) == 'h');
    assert("notifications/prompts/list_changed"@.index(29) == 'a');
    assert("notifications/prompts/list_changed"@.index(30) == 'n');
    assert("notifications/prompts/list_changed"@.index(31) == 'g');
    assert("notifications/prompts/list_changed"@.index(32) == 'e');
    assert("notifications/prompts/list_changed"@.index(33) == 'd');
    assert("notifications/resources/list_changed"@.len() == 36);
    assert("notifications/resources/list_changed"@.index(0) == 'n');
    assert("notifications/resources/list_changed"@.index(1) == 'o');
    assert("notifications/resources/list_changed"@.index(2) == 't');
    assert("notifications/resources/list_changed"@.index(3) == 'i');
    assert("notifications/resources/list_changed"@.index(4) == 'f');
    assert("notifications/resources/list_changed"@.index(5) == 'i');
    assert("notifications/resources/list_changed"@.index(6) == 'c');
    assert("notifications/resources/list_changed"@.index(7) == 'a');
    assert("notifications/resources/list_changed"@.index(8) == 't');
    assert("notifications/resources/list_changed"@.index(9) == 'i');
    assert("notifications/resources/list_changed"@.index(10) == 'o');
    assert("notifications/resources/list_changed"@.index(11) == 'n');
    assert("notifications/resources/list_changed"@.index(12) == 's');
    assert("notifications/resources/list_changed"@.index(13) == '/');
    assert("notifications/resources/list_changed"@.index(14) == 'r');
    assert("notifications/resources/list_changed"@.index(15) == 'e');
    assert("notifications/resources/list_changed"@.index(16) == 's');
    assert("notifications/resources/list_changed"@.index(17) == 'o');
    assert("notifications/resources/list_changed"@.index(18) == 'u');
    assert("notifications/resources/list_changed"@.index(19) == 'r');
    assert("notifications/resources/list_changed"@.index(20) == 'c');
    assert("notifications/resources/list_changed"@.index(21) == 'e');
    assert("notifications/resources/list_changed"@.index(22) == 's');
    assert("notifications/resources/list_changed"@.index(23) == '/');
    assert("notifications/resources/list_changed"@.index(24) == 'l');
    assert("notifications/resources/list_changed"@.index(25) == 'i');
    assert("notifications/resources/list_changed"@.index(26) == 's');
    assert("notifications/resources/list_changed"@.index(27) == 't');
    assert("notifications/resources/list_changed"@.index(28) == '_');
    assert("notifications/resources/list_changed"@.index(29) == 'c');
    assert("notifications/resources/list_changed"@.index(30) == 'h');
    assert("notifications/resources/list_changed"@.index(31) == 'a');
    assert("notifications/resources/list_changed"@.index(32) == 'n');
    assert("notifications/resources/list_changed"@.index(33) == 'g');
    assert("notifications/resources/list_changed"@.index(34) == 'e');
    assert("notifications/resources/list_changed"@.index(35) == 'd');
    assert("notifications/resources/updated"@.len() == 31);
    assert("notifications/resources/updated"@.index(0) == 'n');
    assert("notifications/resources/updated"@.index(1) == 'o');
    assert("notifications/resources/updated"@.index(2) == 't');
    assert("notifications/resources/updated"@.index(3) == 'i');
    assert("notifications/resources/updated"@.index(4) == 'f');
    assert("notifications/resources/updated"@.index(5) == 'i');
    assert("notifications/resources/updated"@.index(6) == 'c');
    assert("notifications/resources/updated"@.index(7) == 'a');
    assert("notifications/resources/updated"@.index(8) == 't');
    assert("notifications/resources/updated"@.index(9) == 'i');
    assert("notifications/resources/updated"@.index(10) == 'o');
    assert("notifications/resources/updated"@.index(11) == 'n');
    assert("notifications/resources/updated"@.index(12) == 's');
    assert("notifications/resources/updated"@.index(13) == '/');
    assert("notifications/resources/updated"@.index(14) == 'r');
    assert("notifications/resources/updated"@.index(15) == 'e');
    assert("notifications/resources/updated"@.index(16) == 's');
    assert("notifications/resources/updated"@.index(17) == 'o');
    assert("notifications/resources/updated"@.index(18) == 'u');
    assert("notifications/resources/updated"@.index(19) == 'r');
    assert("notifications/resources/updated"@.index(20) == 'c');
    assert("notifications/resources/updated"@.index(21) == 'e');
    assert("notifications/resources/updated"@.index(22) == 's');
    assert("notifications/resources/updated"@.index(23) == '/');
    assert("notifications/resources/updated"@.index(24) == 'u');
    assert("notifications/resources/updated"@.index(25) == 'p');
    assert("notifications/resources/updated"@.index(26) == 'd');
    assert("notifications/resources/updated"@.index(27) == 'a');
    assert("notifications/resources/updated"@.index(28) == 't');
    assert("notifications/resources/updated"@.index(29) == 'e');
    assert("notifications/resources/updated"@.index(30) == 'd');
    assert("notifications/roots/list_changed"@.len() == 32);
    assert("notifications/roots/list_changed"@.index(0) == 'n');
    assert("notifications/roots/list_changed"@.index(1) == 'o');
    assert("notifications/roots/list_changed"@.index(2) == 't');
    assert("notifications/roots/list_changed"@.index(3) == 'i');
    assert("notifications/roots/list_changed"@.index(4) == 'f');
    assert("notifications/roots/list_changed"@.index(5) == 'i');
    assert("notifications/roots/list_changed"@.index(6) == 'c');
    assert("notifications/roots/list_changed"@.index(7) == 'a');
    assert("notifications/roots/list_changed"@.index(8) == 't');
    assert("notifications/roots/list_changed"@.index(9) == 'i');
    assert("notifications/roots/list_changed"@.index(10) == 'o');
    assert("notifications/roots/list_changed"@.index(11) == 'n');
    assert("notifications/roots/list_changed"@.index(12) == 's');
    assert("notifications/roots/list_changed"@.index(13) == '/');
    assert("notifications/roots/list_changed"@.index(14) == 'r');
    assert("notifications/roots/list_changed"@.index(15) == 'o');
    assert("notifications/roots/list_changed"@.index(16) == 'o');
    assert("notifications/roots/list_changed"@.index(17) == 't');
    assert("notifications/roots/list_changed"@.index(18) == 's');
    assert("notifications/roots/list_changed"@.index(19) == '/');
    assert("notifications/roots/list_changed"@.index(20) == 'l');
    assert("notifications/roots/list_changed"@.index(21) == 'i');
    assert("notifications/roots/list_changed"@.index(22) == 's');
    assert("notifications/roots/list_changed"@.index(23) == 't');
    assert("notifications/roots/list_changed"@.index(24) == '_');
    assert("notifications/roots/list_changed"@.index(25) == 'c');
    assert("notifications/roots/list_changed"@.index(26) == 'h');
    assert("notifications/roots/list_changed"@.index(27) == 'a');
    assert("notifications/roots/list_changed"@.index(28) == 'n');
    assert("notifications/roots/list_changed"@.index(29) == 'g');
    assert("notifications/roots/list_changed"@.index(30) == 'e');
    assert("notifications/roots/list_changed"@.index(31) == 'd');
    assert("notifications/tools/list_changed"@.len() == 32);
    assert("notifications/tools/list_changed"@.index(0) == 'n');
    assert("notifications/tools/list_changed"@.index(1) == 'o');
    assert("notifications/tools/list_changed"@.index(2) == 't');
    assert("notifications/tools/list_changed"@.index(3) == 'i');
    assert("notifications/tools/list_changed"@.index(4) == 'f');
    assert("notifications/tools/list_changed"@.index(5) == 'i');
    assert("notifications/tools/list_changed"@.index(6) == 'c');
    assert("notifications/tools/list_changed"@.index(7) == 'a');
    assert("notifications/tools/list_changed"@.index(8) == 't');
    assert("notifications/tools/list_changed"@.index(9) == 'i');
    assert("notifications/tools/list_changed"@.index(10) == 'o');
    assert("notifications/tools/list_changed"@.index(11) == 'n');
    assert("notifications/tools/list_changed"@.index(12) == 's');
    assert("notifications/tools/list_changed"@.index(13) == '/');
    assert("notifications/tools/list_changed"@.index(14) == 't');
    assert("notifications/tools/list_changed"@.index(15) == 'o');
    assert("notifications/tools/list_changed"@.index(16) == 'o');
    assert("notifications/tools/list_changed"@.index(17) == 'l');
    assert("notifications/tools/list_changed"@.index(18) == 's');
    assert("notifications/tools/list_changed"@.index(19) == '/');
    assert("notifications/tools/list_changed"@.index(20) == 'l');
    assert("notifications/tools/list_changed"@.index(21) == 'i');
    assert("notifications/tools/list_changed"@.index(22) == 's');
    assert("notifications/tools/list_changed"@.index(23) == 't');
    assert("notifications/tools/list_changed"@.index(24) == '_');
    assert("notifications/tools/list_changed"@.index(25) == 'c');
    assert("notifications/tools/list_changed"@.index(26) == 'h');
    assert("notifications/tools/list_changed"@.index(27) == 'a');
    assert("notifications/tools/list_changed"@.index(28) == 'n');
    assert("notifications/tools/list_changed"@.index(29) == 'g');
    assert("notifications/tools/list_changed"@.index(30) == 'e');
    assert("notifications/tools/list_changed"@.index(31) == 'd');
    assert("params"@.len() == 6);
    assert("params"@.index(0) == 'p');
    assert("params"@.index(1) == 'a');
    assert("params"@.index(2) == 'r');
    assert("params"@.index(3) == 'a');
    assert("params"@.index(4) == 'm');
    assert("params"@.index(5) == 's');
    assert("ping"@.len() == 4);
    assert("ping"@.index(0) == 'p');
    assert("ping"@.index(1) == 'i');
    assert("ping"@.index(2) == 'n');
    assert("ping"@.index(3) == 'g');
    assert("prompts/get"@.len() == 11);
    assert("prompts/get"@.index(0) == 'p');
    assert("prompts/get"@.index(1) == 'r');
    assert("prompts/get"@.index(2) == 'o');
    assert("prompts/get"@.index(3) == 'm');
    assert("prompts/get"@.index(4) == 'p');
    assert("prompts/get"@.index(5) == 't');
    assert("prompts/get"@.index(6) == 's');
    assert("prompts/get"@.index(7) == '/');
    assert("prompts/get"@.index(8) == 'g');
    assert("prompts/get"@.index(9) == 'e');
    assert("prompts/get"@.index(10) == 't');
    assert("prompts/list"@.len() == 12);
    assert("prompts/list"@.index(0) == 'p');
    assert("prompts/list"@.index(1) == 'r');
    assert("prompts/list"@.index(2) == 'o');
    assert("prompts/list"@.index(3) == 'm');
    assert("prompts/list"@.index(4) == 'p');
    assert("prompts/list"@.index(5) == 't');
    assert("prompts/list"@.index(6) == 's');
    assert("prompts/list"@.index(7) == '/');
    assert("prompts/list"@.index(8) == 'l');
    assert("prompts/list"@.index(9) == 'i');
    assert("prompts/list"@.index(10) == 's');
    assert("prompts/list"@.index(11) == 't');
    assert("resources/list"@.len() == 14);
    assert("resources/list"@.index(0) == 'r');
    assert("resources/list"@.index(1) == 'e');
    assert("resources/list"@.index(2) == 's');
    assert("resources/list"@.index(3) == 'o');
    assert("resources/list"@.index(4) == 'u');
    assert("resources/list"@.index(5) == 'r');
    assert("resources/list"@.index(6) == 'c');
    assert("resources/list"@.index(7) == 'e');
    assert("resources/list"@.index(8) == 's');
    assert("resources/list"@.index(9) == '/');
    assert("resources/list"@.index(10) == 'l');
    assert("resources/list"@.index(11) == 'i');
    assert("resources/list"@.index(12) == 's');
    assert("resources/list"@.index(13) == 't');
    assert("resources/read"@.len() == 14);
    assert("resources/read"@.index(0) == 'r');
    assert("resources/read"@.index(1) == 'e');
    assert("resources/read"@.index(2) == 's');
    assert("resources/read"@.index(3) == 'o');
    assert("resources/read"@.index(4) == 'u');
    assert("resources/read"@.index(5) == 'r');
    assert("resources/read"@.index(6) == 'c');
    assert("resources/read"@.index(7) == 'e');
    assert("resources/read"@.index(8) == 's');
    assert("resources/read"@.index(9) == '/');
    assert("resources/read"@.index(10) == 'r');
    assert("resources/read"@.index(11) == 'e');
    assert("resources/read"@.index(12) == 'a');
    assert("resources/read"@.index(13) == 'd');
    assert("resources/subscribe"@.len() == 19);
    assert("resources/subscribe"@.index(0) == 'r');
    assert("resources/subscribe"@.index(1) == 'e');
    assert("resources/subscribe"@.index(2) == 's');
    assert("resources/subscribe"@.index(3) == 'o');
    assert("resources/subscribe"@.index(4) == 'u');
    assert("resources/subscribe"@.index(5) == 'r');
    assert("resources/subscribe"@.index(6) == 'c');
    assert("resources/subscribe"@.index(7) == 'e');
    assert("resources/subscribe"@.index(8) == 's');
    assert("resources/subscribe"@.index(9) == '/');
    assert("resources/subscribe"@.index(10) == 's');
    assert("resources/subscribe"@.index(11) == 'u');
    assert("resources/subscribe"@.index(12) == 'b');
    assert("resources/subscribe"@.index(13) == 's');
    assert("resources/subscribe"@.index(14) == 'c');
    assert("resources/subscribe"@.index(15) == 'r');
    assert("resources/subscribe"@.index(16) == 'i');
    assert("resources/subscribe"@.index(17) == 'b');
    assert("resources/subscribe"@.index(18) == 'e');
    assert("resources/templates/list"@.len() == 24);
    assert("resources/templates/list"@.index(0) == 'r');
    assert("resources/templates/list"@.index(1) == 'e');
    assert("resources/templates/list"@.index(2) == 's');
    assert("resources/templates/list"@.index(3) == 'o');
    assert("resources/templates/list"@.index(4) == 'u');
    assert("resources/templates/list"@.index(5) == 'r');
    assert("resources/templates/list"@.index(6) == 'c');
    assert("resources/templates/list"@.index(7) == 'e');
    assert("resources/templates/list"@.index(8) == 's');
    assert("resources/templates/list"@.index(9) == '/');
    assert("resources/templates/list"@.index(10) == 't');
    assert("resources/templates/list"@.index(11) == 'e');
    assert("resources/templates/list"@.index(12) == 'm');
    assert("resources/templates/list"@.index(13) == 'p');
    assert("resources/templates/list"@.index(14) == 'l');
    assert("resources/templates/list"@.index(15) == 'a');
    assert("resources/templates/list"@.index(16) == 't');
    assert("resources/templates/list"@.index(17) == 'e');
    assert("resources/templates/list"@.index(18) == 's');
    assert("resources/templates/list"@.index(19) == '/');
    assert("resources/templates/list"@.index(20) == 'l');
    assert("resources/templates/list"@.index(21) == 'i');
    assert("resources/templates/list"@.index(22) == 's');
    assert("resources/templates/list"@.index(23) == 't');
    assert("resources/unsubscribe"@.len() == 21);
    assert("resources/unsubscribe"@.index(0) == 'r');
    assert("resources/unsubscribe"@.index(1) == 'e');
    assert("resources/unsubscribe"@.index(2) == 's');
    assert("resources/unsubscribe"@.index(3) == 'o');
    assert("resources/unsubscribe"@.index(4) == 'u');
    assert("resources/unsubscribe"@.index(5) == 'r');
    assert("resources/unsubscribe"@.index(6) == 'c');
    assert("resources/unsubscribe"@.index(7) == 'e');
    assert("resources/unsubscribe"@.index(8) == 's');
    assert("resources/unsubscribe"@.index(9) == '/');
    assert("resources/unsubscribe"@.index(10) == 'u');
    assert("resources/unsubscribe"@.index(11) == 'n');
    assert("resources/unsubscribe"@.index(12) == 's');
    assert("resources/unsubscribe"@.index(13) == 'u');
    assert("resources/unsubscribe"@.index(14) == 'b');
    assert("resources/unsubscribe"@.index(15) == 's');
    assert("resources/unsubscribe"@.index(16) == 'c');
    assert("resources/unsubscribe"@.index(17) == 'r');
    assert("resources/unsubscribe"@.index(18) == 'i');
    assert("resources/unsubscribe"@.index(19) == 'b');
    assert("resources/unsubscribe"@.index(20) == 'e');
    assert("result"@.len() == 6);
    assert("result"@.index(0) == 'r');
    assert("result"@.index(1) == 'e');
    assert("result"@.index(2) == 's');
    assert("result"@.index(3) == 'u');
    assert("result"@.index(4) == 'l');
    assert("result"@.index(5) == 't');
    assert("roots/list"@.len() == 10);
    assert("roots/list"@.index(0) == 'r');
    assert("roots/list"@.index(1) == 'o');
    assert("roots/list"@.index(2) == 'o');
    assert("roots/list"@.index(3) == 't');
    assert("roots/list"@.index(4) == 's');
    assert("roots/list"@.index(5) == '/');
    assert("roots/list"@.index(6) == 'l');
    assert("roots/list"@.index(7) == 'i');
    assert("roots/list"@.index(8) == 's');
    assert("roots/list"@.index(9) == 't');
    assert("sampling/createMessage"@.len() == 22);
    assert("sampling/createMessage"@.index(0) == 's');
    assert("sampling/createMessage"@.index(1) == 'a');
    assert("sampling/createMessage"@.index(2) == 'm');
    assert("sampling/createMessage"@.index(3) == 'p');
    assert("sampling/createMessage"@.index(4) == 'l');
    assert("sampling/createMessage"@.index(5) == 'i');
    assert("sampling/createMessage"@.index(6) == 'n');
    assert("sampling/createMessage"@.index(7) == 'g');
    assert("sampling/createMessage"@.index(8) == '/');
    assert("sampling/createMessage"@.index(9) == 'c');
    assert("sampling/createMessage"@.index(10) == 'r');
    assert("sampling/createMessage"@.index(11) == 'e');
    assert("sampling/createMessage"@.index(12) == 'a');
    assert("sampling/createMessage"@.index(13) == 't');
    assert("sampling/createMessage"@.index(14) == 'e');
    assert("sampling/createMessage"@.index(15) == 'M');
    assert("sampling/createMessage"@.index(16) == 'e');
    assert("sampling/createMessage"@.index(17) == 's');
    assert("sampling/createMessage"@.index(18) == 's');
    assert("sampling/createMessage"@.index(19) == 'a');
    assert("sampling/createMessage"@.index(20) == 'g');
    assert("sampling/createMessage"@.index(21) == 'e');
    assert("tools/call"@.len() == 10);
    assert("tools/call"@.index(0) == 't');
    assert("tools/call"@.index(1) == 'o');
    assert("tools/call"@.index(2) == 'o');
    assert("tools/call"@.index(3) == 'l');
    assert("tools/call"@.index(4) == 's');
    assert("tools/call"@.index(5) == '/');
    assert("tools/call"@.index(6) == 'c');
    assert("tools/call"@.index(7) == 'a');
    assert("tools/call"@.index(8) == 'l');
    assert("tools/call"@.index(9) == 'l');
    assert("tools/list"@.len() == 10);
    assert("tools/list"@.index(0) == 't');
    assert("tools/list"@.index(1) == 'o');
    assert("tools/list"@.index(2) == 'o');
    assert("tools/list"@.index(3) == 'l');
    assert("tools/list"@.index(4) == 's');
    assert("tools/list"@.index(5) == '/');
    assert("tools/list"@.index(6) == 'l');
    assert("tools/list"@.index(7) == 'i');
    assert("tools/list"@.index(8) == 's');
    assert("tools/list"@.index(9) == 't');
    match m {
        JsonRpcMessageV::Request(e) => {
            lemma_id_round_trip(e.id);
            match e.request {
                ClientRequestV::PingRequest => {},
                ClientRequestV::InitializeRequest(x) => {
                    lemma_rt_initialize_request_param(x);
                },
                ClientRequestV::CompleteRequest(x) => {
                    lemma_rt_complete_request_param(x);
                },
                ClientRequestV::SetLevelRequest(x) => {
                    lemma_rt_set_level_request_param(x);
                },
                ClientRequestV::GetPromptRequest(x) => {
                    lemma_rt_get_prompt_request_param(x);
                },
                ClientRequestV::ListPromptsRequest(x) => {
                    lemma_rt_paginated_request_param(x);
                },
                ClientRequestV::ListResourcesRequest(x) => {
                    lemma_rt_paginated_request_param(x);
                },
                ClientRequestV::ListResourceTemplatesRequest(x) => {
                    lemma_rt_paginated_request_param(x);
                },
                ClientRequestV::ReadResourceRequest(x) => {
                    lemma_rt_read_resource_request_param(x);
                },
                ClientRequestV::SubscribeRequest(x) => {
                    lemma_rt_subscribe_request_param(x);
                },
                ClientRequestV::UnsubscribeRequest(x) => {
                    lemma_rt_unsubscribe_request_param(x);
                },
                ClientRequestV::CallToolRequest(x) => {
                    lemma_rt_call_tool_request_param(x);
                },
                ClientRequestV::ListToolsRequest(x) => {
                    lemma_rt_paginated_request_param(x);
                },
            }
        },
        JsonRpcMessageV::Response(e) => {
            lemma_id_round_trip(e.id);
            lemma_rt_client_result(e.result);
        },
        JsonRpcMessageV::Notification(e) => {
            match e.notification {
                ClientNotificationV::CancelledNotification(x) => {
                    lemma_rt_cancelled_notification_param(x);
                },
                ClientNotificationV::ProgressNotification(x) => {
                    lemma_rt_progress_notification_param(x);
                },
                ClientNotificationV::InitializedNotification => {},
                ClientNotificationV::RootsListChangedNotification => {},
            }
        },
        JsonRpcMessageV::Error(e) => {
            lemma_id_round_trip(e.id);
            lemma_rt_error_data(e.error);
        },
    }
}

/// Mirror of the server-side wire unit.
pub type ServerJsonRpcMessageV = JsonRpcMessageV<ServerRequestV, ServerResultV, ServerNotificationV>;

/// How a server-side unit stands on the wire: one JSON object per
/// envelope, every envelope carrying the `"2.0"` version literal.
pub open spec fn enc_server(m: ServerJsonRpcMessageV) -> JsonV {
    match m {
        JsonRpcMessageV::Request(e) => JsonV::Obj(
            centry(
                "jsonrpc"@,
                JsonV::Str("2.0"@),
                centry("id"@, enc_id(e.id), enc_server_request_obj(e.request, nilobj())),
            ),
        ),
        JsonRpcMessageV::Response(e) => JsonV::Obj(
            centry(
                "jsonrpc"@,
                JsonV::Str("2.0"@),
                centry(
                    "id"@,
                    enc_id(e.id),
                    centry("result"@, enc_server_result(e.result), nilobj()),
                ),
            ),
        ),
        JsonRpcMessageV::Notification(e) => JsonV::Obj(
            centry(
                "jsonrpc"@,
                JsonV::Str("2.0"@),
                enc_server_notification_obj(e.notification, nilobj()),
            ),
        ),
        JsonRpcMessageV::Error(e) => JsonV::Obj(
            centry(
                "jsonrpc"@,
                JsonV::Str("2.0"@),
                centry("id"@, enc_id(e.id), centry("error"@, enc_error_data(e.error), nilobj())),
            ),
        ),
    }
}

/// The server-side unit a JSON value holds. The four envelope shapes
/// are tried in a fixed, documented order — request, response,
/// notification, error — and the first structural match wins.
pub open spec fn dec_server(v: JsonV) -> Option<ServerJsonRpcMessageV> {
    if get_s(v, "jsonrpc"@) != Some("2.0"@) {
        None
    } else {
        match (get_id(v, "id"@), dec_server_request(v)) {
            (Some(id), Some(request)) => Some(
                JsonRpcMessageV::Request(JsonRpcRequestV { id, request }),
            ),
            _ => match (
                get_id(v, "id"@),
                match fget(v, "result"@) {
                    Some(w) => dec_server_result(w),
                    None => None,
                },
            ) {
                (Some(id), Some(result)) => Some(
                    JsonRpcMessageV::Response(JsonRpcResponseV { id, result }),
                ),
                _ => match dec_server_notification(v) {
                    Some(notification) => Some(
                        JsonRpcMessageV::Notification(JsonRpcNotificationV { notification }),
                    ),
                    None => match (
                        get_id(v, "id"@),
                        match fget(v, "error"@) {
                            Some(w) => dec_error_data(w),
                            None => None,
                        },
                    ) {
                        (Some(id), Some(error)) => Some(
                            JsonRpcMessageV::Error(JsonRpcErrorV { id, error }),
                        ),
                        _ => None,
                    },
                },
            },
        }
    }
}

impl JsonRpcMessage<ServerRequest, ServerResult, ServerNotification> {
    /// This unit as its wire JSON object.
    pub fn to_json(&self) -> (r: JsonValue)
        ensures
            jv(r) == enc_server(self.deep_view()),
    {
        let mut o: Vec<(String, JsonValue)> = Vec::new();
        o.push(("jsonrpc".to_owned(), JsonValue::Str("2.0".to_owned())));
        match self {
            JsonRpcMessage::Request(e) => {
                o.push(("id".to_owned(), e.id.to_json()));
                match &e.request {
                    ServerRequest::PingRequest => {
                        o.push(("method".to_owned(), JsonValue::Str("ping".to_owned())));
                    },
                    ServerRequest::CreateMessageRequest(x) => {
                        o.push(("method".to_owned(), JsonValue::Str("sampling/createMessage".to_owned())));
                        o.push(("params".to_owned(), x.to_json()));
                    },
                    ServerRequest::ListRootsRequest => {
                        o.push(("method".to_owned(), JsonValue::Str("roots/list".to_owned())));
                    },
                }
            },
            JsonRpcMessage::Response(e) => {
                o.push(("id".to_owned(), e.id.to_json()));
                o.push(("result".to_owned(), server_result_to_json(&e.result)));
            },
            JsonRpcMessage::Notification(e) => {
                match &e.notification {
                    ServerNotification::CancelledNotification(x) => {
                        o.push(("method".to_owned(), JsonValue::Str("notifications/cancelled".to_owned())));
                        o.push(("params".to_owned(), x.to_json()));
                    },
                    ServerNotification::ProgressNotification(x) => {
                        o.push(("method".to_owned(), JsonValue::Str("notifications/progress".to_owned())));
                        o.push(("params".to_owned(), x.to_json()));
                    },
                    ServerNotification::LoggingMessageNotification(x) => {
                        o.push(("method".to_owned(), JsonValue::Str("notifications/message".to_owned())));
                        o.push(("params".to_owned(), x.to_json()));
                    },
                    ServerNotification::ResourceUpdatedNotification(x) => {
                        o.push(("method".to_owned(), JsonValue::Str("notifications/resources/updated".to_owned())));
                        o.push(("params".to_owned(), x.to_json()));
                    },
                    ServerNotification::ResourceListChangedNotification => {
                        o.push(("method".to_owned(), JsonValue::Str("notifications/resources/list_changed".to_owned())));
                    },
                    ServerNotification::ToolListChangedNotification => {
                        o.push(("method".to_owned(), JsonValue::Str("notifications/tools/list_changed".to_owned())));
                    },
                    ServerNotification::PromptListChangedNotification => {
                        o.push(("method".to_owned(), JsonValue::Str("notifications/prompts/list_changed".to_owned())));
                    },
                }
            },
            JsonRpcMessage::Error(e) => {
                o.push(("id".to_owned(), e.id.to_json()));
                o.push(("error".to_owned(), e.error.to_json()));
            },
        }
        proof {
            lemma_jv_obj(o);
            assert(o.deep_view() =~= enc_server(self.deep_view())->Obj_0);
        }
        JsonValue::Obj(o)
    }

    /// The unit a JSON value holds, if any: request, then response,
    /// then notification, then error.
    pub fn from_json(v: &JsonValue) -> (r: Option<JsonRpcMessage<ServerRequest, ServerResult, ServerNotification>>)
        ensures
            r.deep_view() == dec_server(jv(*v)),
    {
        let ver = match v.f_str("jsonrpc") {
            Some(s) => s,
            None => {
                return None;
            },
        };
        if !string_eq(&ver, "2.0") {
            return None;
        }
        let id_r = match v.get("id") {
            Some(w) => NumberOrString::from_json(w),
            None => None,
        };
        let rq = server_request_from_json(v);
        match (id_r, rq) {
            (Some(id), Some(request)) => {
                return Some(JsonRpcMessage::Request(JsonRpcRequest {
                    jsonrpc: JsonRpcVersion2_0,
                    id,
                    request,
                }));
            },
            _ => {},
        }
        let id_s = match v.get("id") {
            Some(w) => NumberOrString::from_json(w),
            None => None,
        };
        let res = match v.get("result") {
            Some(w) => server_result_from_json(w),
            None => None,
        };
        match (id_s, res) {
            (Some(id), Some(result)) => {
                return Some(JsonRpcMessage::Response(JsonRpcResponse {
                    jsonrpc: JsonRpcVersion2_0,
                    id,
                    result,
                }));
            },
            _ => {},
        }
        match server_notification_from_json(v) {
            Some(notification) => {
                return Some(JsonRpcMessage::Notification(JsonRpcNotification {
                    jsonrpc: JsonRpcVersion2_0,
                    notification,
                }));
            },
            None => {},
        }
        let id_e = match v.get("id") {
            Some(w) => NumberOrString::from_json(w),
            None => None,
        };
        let err = match v.get("error") {
            Some(w) => ErrorData::from_json(w),
            None => None,
        };
        match (id_e, err) {
            (Some(id), Some(error)) => {
                return Some(JsonRpcMessage::Error(JsonRpcError {
                    jsonrpc: JsonRpcVersion2_0,
                    id,
                    error,
                }));
            },
            _ => {},
        }
        None
    }
}

/// The one shape the wire cannot carry: an optional field that is
/// explicitly null, which re-reads as absent.
pub open spec fn wf_server(m: ServerJsonRpcMessageV) -> bool {
    &&& match m {
        JsonRpcMessageV::Error(e) => e.error.data != Some(JsonV::Null),
        _ => true,
    }
    &&& match m {
        JsonRpcMessageV::Request(e) => match e.request {
            ServerRequestV::CreateMessageRequest(p) => p.metadata != Some(JsonV::Null),
            _ => true,
        },
        _ => true,
    }
}

/// Every server-side unit survives the wire: decoding an encoded unit
/// restores it exactly, for arbitrary field values.
pub proof fn lemma_rt_server(m: ServerJsonRpcMessageV)
    requires
        wf_server(m),
    ensures
        dec_server(enc_server(m)) == Some(m),
{
    reveal_strlit("2.0");
    reveal_strlit("code");
    reveal_strlit("completion/complete");
    reveal_strlit("data");
    reveal_strlit("error");
    reveal_strlit("id");
    reveal_strlit("initialize");
    reveal_strlit("jsonrpc");
    reveal_strlit("logging/setLevel");
    reveal_strlit("message");
    reveal_strlit("method");
    reveal_strlit("notifications/cancelled");
    reveal_strlit("notifications/initialized");
    reveal_strlit("notifications/message");
    reveal_strlit("notifications/progress");
    reveal_strlit("notifications/prompts/list_changed");
    reveal_strlit("notifications/resources/list_changed");
    reveal_strlit("notifications/resources/updated");
    reveal_strlit("notifications/roots/list_changed");
    reveal_strlit("notifications/tools/list_changed");
    reveal_strlit("params");
    reveal_strlit("ping");
    reveal_strlit("prompts/get");
    reveal_strlit("prompts/list");
    reveal_strlit("resources/list");
    reveal_strlit("resources/read");
    reveal_strlit("resources/subscribe");
    reveal_strlit("resources/templates/list");
    reveal_strlit("resources/unsubscribe");
    reveal_strlit("result");
    reveal_strlit("roots/list");
    reveal_strlit("sampling/createMessage");
    reveal_strlit("tools/call");
    reveal_strlit("tools/list");
    assert("2.0"@.len() == 3);
    assert("2.0"@.index(0) == '2');
    assert("2.0"@.index(1) == '.');
    assert("2.0"@.index(2) == '0');
    assert("code"@.len() == 4);
    assert("code"@.index(0) == 'c');
    assert("code"@.index(1) == 'o');
    assert("code"@.index(2) == 'd');
    assert("code"@.index(3) == 'e');
    assert("completion/complete"@.len() == 19);
    assert("completion/complete"@.index(0) == 'c');
    assert("completion/complete"@.index(1) == 'o');
    assert("completion/complete"@.index(2) == 'm');
    assert("completion/complete"@.index(3) == 'p');
    assert("completion/complete"@.index(4) == 'l');
    assert("completion/complete"@.index(5) == 'e');
    assert("completion/complete"@.index(6) == 't');
    assert("completion/complete"@.index(7) == 'i');
    assert("completion/complete"@.index(8) == 'o');
    assert("completion/complete"@.index(9) == 'n');
    assert("completion/complete"@.index(10) == '/');
    assert("completion/complete"@.index(11) == 'c');
    assert("completion/complete"@.index(12) == 'o');
    assert("completion/complete"@.index(13) == 'm');
    assert("completion/complete"@.index(14) == 'p');
    assert("completion/complete"@.index(15) == 'l');
    assert("completion/complete"@.index(16) == 'e');
    assert("completion/complete"@.index(17) == 't');
    assert("completion/complete"@.index(18) == 'e');
    assert("data"@.len() == 4);
    assert("data"@.index(0) == 'd');
    assert("data"@.index(1) == 'a');
    assert("data"@.index(2) == 't');
    assert("data"@.index(3) == 'a');
    assert("error"@.len() == 5);
    assert("error"@.index(0) == 'e');
    assert("error"@.index(1) == 'r');
    assert("error"@.index(2) == 'r');
    assert("error"@.index(3) == 'o');
    assert("error"@.index(4) == 'r');
    assert("id"@.len() == 2);
    assert("id"@.index(0) == 'i');
    assert("id"@.index(1) == 'd');
    assert("initialize"@.len() == 10);
    assert("initialize"@.index(0) == 'i');
    assert("initialize"@.index(1) == 'n');
    assert("initialize"@.index(2) == 'i');
    assert("initialize"@.index(3) == 't');
    assert("initialize"@.index(4) == 'i');
    assert("initialize"@.index(5) == 'a');
    assert("initialize"@.index(6) == 'l');
    assert("initialize"@.index(7) == 'i');
    assert("initialize"@.index(8) == 'z');
    assert("initialize"@.index(9) == 'e');
    assert("jsonrpc"@.len() == 7);
    assert("jsonrpc"@.index(0) == 'j');
    assert("jsonrpc"@.index(1) == 's');
    assert("jsonrpc"@.index(2) == 'o');
    assert("jsonrpc"@.index(3) == 'n');
    assert("jsonrpc"@.index(4) == 'r');
    assert("jsonrpc"@.index(5) == 'p');
    assert("jsonrpc"@.index(6) == 'c');
    assert("logging/setLevel"@.len() == 16);
    assert("logging/setLevel"@.index(0) == 'l');
    assert("logging/setLevel"@.index(1) == 'o');
    assert("logging/setLevel"@.index(2) == 'g');
    assert("logging/setLevel"@.index(3) == 'g');
    assert("logging/setLevel"@.index(4) == 'i');
    assert("logging/setLevel"@.index(5) == 'n');
    assert("logging/setLevel"@.index(6) == 'g');
    assert("logging/setLevel"@.index(7) == '/');
    assert("logging/setLevel"@.index(8) == 's');
    assert("logging/setLevel"@.index(9) == 'e');
    assert("logging/setLevel"@.index(10) == 't');
    assert("logging/setLevel"@.index(11) == 'L');
    assert("logging/setLevel"@.index(12) == 'e');
    assert("logging/setLevel"@.index(13) == 'v');
    assert("logging/setLevel"@.index(14) == 'e');
    assert("logging/setLevel"@.index(15) == 'l');
    assert("message"@.len() == 7);
    assert("message"@.index(0) == 'm');
    assert("message"@.index(1) == 'e');
    assert("message"@.index(2) == 's');
    assert("message"@.index(3) == 's');
    assert("message"@.index(4) == 'a');
    assert("message"@.index(5) == 'g');
    assert("message"@.index(6) == 'e');
    assert("method"@.len() == 6);
    assert("method"@.index(0) == 'm');
    assert("method"@.index(1) == 'e');
    assert("method"@.index(2) == 't');
    assert("method"@.index(3) == 'h');
    assert("method"@.index(4) == 'o');
    assert("method"@.index(5) == 'd');
    assert("notifications/cancelled"@.len() == 23);
    assert("notifications/cancelled"@.index(0) == 'n');
    assert("notifications/cancelled"@.index(1) == 'o');
    assert("notifications/cancelled"@.index(2) == 't');
    assert("notifications/cancelled"@.index(3) == 'i');
    assert("notifications/cancelled"@.index(4) == 'f');
    assert("notifications/cancelled"@.index(5) == 'i');
    assert("notifications/cancelled"@.index(6) == 'c');
    assert("notifications/cancelled"@.index(7) == 'a');
    assert("notifications/cancelled"@.index(8) == 't');
    assert("notifications/cancelled"@.index(9) == 'i');
    assert("notifications/cancelled"@.index(10) == 'o');
    assert("notifications/cancelled"@.index(11) == 'n');
    assert("notifications/cancelled"@.index(12) == 's');
    assert("notifications/cancelled"@.index(13) == '/');
    assert("notifications/cancelled"@.index(14) == 'c');
    assert("notifications/cancelled"@.index(15) == 'a');
    assert("notifications/cancelled"@.index(16) == 'n');
    assert("notifications/cancelled"@.index(17) == 'c');
    assert("notifications/cancelled"@.index(18) == 'e');
    assert("notifications/cancelled"@.index(19) == 'l');
    assert("notifications/cancelled"@.index(20) == 'l');
    assert("notifications/cancelled"@.index(21) == 'e');
    assert("notifications/cancelled"@.index(22) == 'd');
    assert("notifications/initialized"@.len() == 25);
    assert("notifications/initialized"@.index(0) == 'n');
    assert("notifications/initialized"@.index(1) == 'o');
    assert("notifications/initialized"@.index(2) == 't');
    assert("notifications/initialized"@.index(3) == 'i');
    assert("notifications/initialized"@.index(4) == 'f');
    assert("notifications/initialized"@.index(5) == 'i');
    assert("notifications/initialized"@.index(6) == 'c');
    assert("notifications/initialized"@.index(7) == 'a');
    assert("notifications/initialized"@.index(8) == 't');
    assert("notifications/initialized"@.index(9) == 'i');
    assert("notifications/initialized"@.index(10) == 'o');
    assert("notifications/initialized"@.index(11) == 'n');
    assert("notifications/initialized"@.index(12) == 's');
    assert("notifications/initialized"@.index(13) == '/');
    assert("notifications/initialized"@.index(14) == 'i');
    assert("notifications/initialized"@.index(15) == 'n');
    assert("notifications/initialized"@.index(16) == 'i');
    assert("notifications/initialized"@.index(17) == 't');
    assert("notifications/initialized"@.index(18) == 'i');
    assert("notifications/initialized"@.index(19) == 'a');
    assert("notifications/initialized"@.index(20) == 'l');
    assert("notifications/initialized"@.index(21) == 'i');
    assert("notifications/initialized"@.index(22) == 'z');
    assert("notifications/initialized"@.index(23) == 'e');
    assert("notifications/initialized"@.index(24) == 'd');
    assert("notifications/message"@.len() == 21);
    assert("notifications/message"@.index(0) == 'n');
    assert("notifications/message"@.index(1) == 'o');
    assert("notifications/message"@.index(2) == 't');
    assert("notifications/message"@.index(3) == 'i');
    assert("notifications/message"@.index(4) == 'f');
    assert("notifications/message"@.index(5) == 'i');
    assert("notifications/message"@.index(6) == 'c');
    assert("notifications/message"@.index(7) == 'a');
    assert("notifications/message"@.index(8) == 't');
    assert("notifications/message"@.index(9) == 'i');
    assert("notifications/message"@.index(10) == 'o');
    assert("notifications/message"@.index(11) == 'n');
    assert("notifications/message"@.index(12) == 's');
    assert("notifications/message"@.index(13) == '/');
    assert("notifications/message"@.index(14) == 'm');
    assert("notifications/message"@.index(15) == 'e');
    assert("notifications/message"@.index(16) == 's');
    assert("notifications/message"@.index(17) == 's');
    assert("notifications/message"@.index(18) == 'a');
    assert("notifications/message"@.index(19) == 'g');
    assert("notifications/message"@.index(20) == 'e');
    assert("notifications/progress"@.len() == 22);
    assert("notifications/progress"@.index(0) == 'n');
    assert("notifications/progress"@.index(1) == 'o');
    assert("notifications/progress"@.index(2) == 't');
    assert("notifications/progress"@.index(3) == 'i');
    assert("notifications/progress"@.index(4) == 'f');
    assert("notifications/progress"@.index(5) == 'i');
    assert("notifications/progress"@.index(6) == 'c');
    assert("notifications/progress"@.index(7) == 'a');
    assert("notifications/progress"@.index(8) == 't');
    assert("notifications/progress"@.index(9) == 'i');
    assert("notifications/progress"@.index(10) == 'o');
    assert("notifications/progress"@.index(11) == 'n');
    assert("notifications/progress"@.index(12) == 's');
    assert("notifications/progress"@.index(13) == '/');
    assert("notifications/progress"@.index(14) == 'p');
    assert("notifications/progress"@.index(15) == 'r');
    assert("notifications/progress"@.index(16) == 'o');
    assert("notifications/progress"@.index(17) == 'g');
    assert("notifications/progress"@.index(18) == 'r');
    assert("notifications/progress"@.index(19) == 'e');
    assert("notifications/progress"@.index(20) == 's');
    assert("notifications/progress"@.index(21) == 's');
    assert("notifications/prompts/list_changed"@.len() == 34);
    assert("notifications/prompts/list_changed"@.index(0) == 'n');
    assert("notifications/prompts/list_changed"@.index(1) == 'o');
    assert("notifications/prompts/list_changed"@.index(2) == 't');
    assert("notifications/prompts/list_changed"@.index(3) == 'i');
    assert("notifications/prompts/list_changed"@.index(4) == 'f');
    assert("notifications/prompts/list_changed"@.index(5) == 'i');
    assert("notifications/prompts/list_changed"@.index(6) == 'c');
    assert("notifications/prompts/list_changed"@.index(7) == 'a');
    assert("notifications/prompts/list_changed"@.index(8) == 't');
    assert("notifications/prompts/list_changed"@.index(9) == 'i');
    assert("notifications/prompts/list_changed"@.index(10) == 'o');
    assert("notifications/prompts/list_changed"@.index(11) == 'n');
    assert("notifications/prompts/list_changed"@.index(12) == 's');
    assert("notifications/prompts/list_changed"@.index(13) == '/');
    assert("notifications/prompts/list_changed"@.index(14) == 'p');
    assert("notifications/prompts/list_changed"@.index(15) == 'r');
    assert("notifications/prompts/list_changed"@.index(16) == 'o');
    assert("notifications/prompts/list_changed"@.index(17) == 'm');
    assert("notifications/prompts/list_changed"@.index(18) == 'p');
    assert("notifications/prompts/list_changed"@.index(19) == 't');
    assert("notifications/prompts/list_changed"@.index(20) == 's');
    assert("notifications/prompts/list_changed"@.index(21) == '/');
    assert("notifications/prompts/list_changed"@.index(22) == 'l');
    assert("notifications/prompts/list_changed"@.index(23) == 'i');
    assert("notifications/prompts/list_changed"@.index(24) == 's');
    assert("notifications/prompts/list_changed"@.index(25) == 't');
    assert("notifications/prompts/list_changed"@.index(26) == '_');
    assert("notifications/prompts/list_changed"@.index(27) == 'c');
    assert("notifications/prompts/list_changed"@.index(28) == 'h');
    assert("notifications/prompts/list_changed"@.index(29) == 'a');
    assert("notifications/prompts/list_changed"@.index(30) == 'n');
    assert("notifications/prompts/list_changed"@.index(31) == 'g');
    assert("notifications/prompts/list_changed"@.index(32) == 'e');
    assert("notifications/prompts/list_changed"@.index(33) == 'd');
    assert("notifications/resources/list_changed"@.len() == 36);
    assert("notifications/resources/list_changed"@.index(0) == 'n');
    assert("notifications/resources/list_changed"@.index(1) == 'o');
    assert("notifications/resources/list_changed"@.index(2) == 't');
    assert("notifications/resources/list_changed"@.index(3) == 'i');
    assert("notifications/resources/list_changed"@.index(4) == 'f');
    assert("notifications/resources/list_changed"@.index(5) == 'i');
    assert("notifications/resources/list_changed"@.index(6) == 'c');
    assert("notifications/resources/list_changed"@.index(7) == 'a');
    assert("notifications/resources/list_changed"@.index(8) == 't');
    assert("notifications/resources/list_changed"@.index(9) == 'i');
    assert("notifications/resources/list_changed"@.index(10) == 'o');
    assert("notifications/resources/list_changed"@.index(11) == 'n');
    assert("notifications/resources/list_changed"@.index(12) == 's');
    assert("notifications/resources/list_changed"@.index(13) == '/');
    assert("notifications/resources/list_changed"@.index(14) == 'r');
    assert("notifications/resources/list_changed"@.index(15) == 'e');
    assert("notifications/resources/list_changed"@.index(16) == 's');
    assert("notifications/resources/list_changed"@.index(17) == 'o');
    assert("notifications/resources/list_changed"@.index(18) == 'u');
    assert("notifications/resources/list_changed"@.index(19) == 'r');
    assert("notifications/resources/list_changed"@.index(20) == 'c');
    assert("notifications/resources/list_changed"@.index(21) == 'e');
    assert("notifications/resources/list_changed"@.index(22) == 's');
    assert("notifications/resources/list_changed"@.index(23) == '/');
    assert("notifications/resources/list_changed"@.index(24) == 'l');
    assert("notifications/resources/list_changed"@.index(25) == 'i');
    assert("notifications/resources/list_changed"@.index(26) == 's');
    assert("notifications/resources/list_changed"@.index(27) == 't');
    assert("notifications/resources/list_changed"@.index(28) == '_');
    assert("notifications/resources/list_changed"@.index(29) == 'c');
    assert("notifications/resources/list_changed"@.index(30) == 'h');
    assert("notifications/resources/list_changed"@.index(31) == 'a');
    assert("notifications/resources/list_changed"@.index(32) == 'n');
    assert("notifications/resources/list_changed"@.index(33) == 'g');
    assert("notifications/resources/list_changed"@.index(34) == 'e');
    assert("notifications/resources/list_changed"@.index(35) == 'd');
    assert("notifications/resources/updated"@.len() == 31);
    assert("notifications/resources/updated"@.index(0) == 'n');
    assert("notifications/resources/updated"@.index(1) == 'o');
    assert("notifications/resources/updated"@.index(2) == 't');
    assert("notifications/resources/updated"@.index(3) == 'i');
    assert("notifications/resources/updated"@.index(4) == 'f');
    assert("notifications/resources/updated"@.index(5) == 'i');
    assert("notifications/resources/updated"@.index(6) == 'c');
    assert("notifications/resources/updated"@.index(7) == 'a');
    assert("notifications/resources/updated"@.index(8) == 't');
    assert("notifications/resources/updated"@.index(9) == 'i');
    assert("notifications/resources/updated"@.index(10) == 'o');
    assert("notifications/resources/updated"@.index(11) == 'n');
    assert("notifications/resources/updated"@.index(12) == 's');
    assert("notifications/resources/updated"@.index(13) == '/');
    assert("notifications/resources/updated"@.index(14) == 'r');
    assert("notifications/resources/updated"@.index(15) == 'e');
    assert("notifications/resources/updated"@.index(16) == 's');
    assert("notifications/resources/updated"@.index(17) == 'o');
    assert("notifications/resources/updated"@.index(18) == 'u');
    assert("notifications/resources/updated"@.index(19) == 'r');
    assert("notifications/resources/updated"@.index(20) == 'c');
    assert("notifications/resources/updated"@.index(21) == 'e');
    assert("notifications/resources/updated"@.index(22) == 's');
    assert("notifications/resources/updated"@.index(23) == '/');
    assert("notifications/resources/updated"@.index(24) == 'u');
    assert("notifications/resources/updated"@.index(25) == 'p');
    assert("notifications/resources/updated"@.index(26) == 'd');
    assert("notifications/resources/updated"@.index(27) == 'a');
    assert("notifications/resources/updated"@.index(28) == 't');
    assert("notifications/resources/updated"@.index(29) == 'e');
    assert("notifications/resources/updated"@.index(30) == 'd');
    assert("notifications/roots/list_changed"@.len() == 32);
    assert("notifications/roots/list_changed"@.index(0) == 'n');
    assert("notifications/roots/list_changed"@.index(1) == 'o');
    assert("notifications/roots/list_changed"@.index(2) == 't');
    assert("notifications/roots/list_changed"@.index(3) == 'i');
    assert("notifications/roots/list_changed"@.index(4) == 'f');
    assert("notifications/roots/list_changed"@.index(5) == 'i');
    assert("notifications/roots/list_changed"@.index(6) == 'c');
    assert("notifications/roots/list_changed"@.index(7) == 'a');
    assert("notifications/roots/list_changed"@.index(8) == 't');
    assert("notifications/roots/list_changed"@.index(9) == 'i');
    assert("notifications/roots/list_changed"@.index(10) == 'o');
    assert("notifications/roots/list_changed"@.index(11) == 'n');
    assert("notifications/roots/list_changed"@.index(12) == 's');
    assert("notifications/roots/list_changed"@.index(13) == '/');
    assert("notifications/roots/list_changed"@.index(14) == 'r');
    assert("notifications/roots/list_changed"@.index(15) == 'o');
    assert("notifications/roots/list_changed"@.index(16) == 'o');
    assert("notifications/roots/list_changed"@.index(17) == 't');
    assert("notifications/roots/list_changed"@.index(18) == 's');
    assert("notifications/roots/list_changed"@.index(19) == '/');
    assert("notifications/roots/list_changed"@.index(20) == 'l');
    assert("notifications/roots/list_changed"@.index(21) == 'i');
    assert("notifications/roots/list_changed"@.index(22) == 's');
    assert("notifications/roots/list_changed"@.index(23) == 't');
    assert("notifications/roots/list_changed"@.index(24) == '_');
    assert("notifications/roots/list_changed"@.index(25) == 'c');
    assert("notifications/roots/list_changed"@.index(26) == 'h');
    assert("notifications/roots/list_changed"@.index(27) == 'a');
    assert("notifications/roots/list_changed"@.index(28) == 'n');
    assert("notifications/roots/list_changed"@.index(29) == 'g');
    assert("notifications/roots/list_changed"@.index(30) == 'e');
    assert("notifications/roots/list_changed"@.index(31) == 'd');
    assert("notifications/tools/list_changed"@.len() == 32);
    assert("notifications/tools/list_changed"@.index(0) == 'n');
    assert("notifications/tools/list_changed"@.index(1) == 'o');
    assert("notifications/tools/list_changed"@.index(2) == 't');
    assert("notifications/tools/list_changed"@.index(3) == 'i');
    assert("notifications/tools/list_changed"@.index(4) == 'f');
    assert("notifications/tools/list_changed"@.index(5) == 'i');
    assert("notifications/tools/list_changed"@.index(6) == 'c');
    assert("notifications/tools/list_changed"@.index(7) == 'a');
    assert("notifications/tools/list_changed"@.index(8) == 't');
    assert("notifications/tools/list_changed"@.index(9) == 'i');
    assert("notifications/tools/list_changed"@.index(10) == 'o');
    assert("notifications/tools/list_changed"@.index(11) == 'n');
    assert("notifications/tools/list_changed"@.index(12) == 's');
    assert("notifications/tools/list_changed"@.index(13) == '/');
    assert("notifications/tools/list_changed"@.index(14) == 't');
    assert("notifications/tools/list_changed"@.index(15) == 'o');
    assert("notifications/tools/list_changed"@.index(16) == 'o');
    assert("notifications/tools/list_changed"@.index(17) == 'l');
    assert("notifications/tools/list_changed"@.index(18) == 's');
    assert("notifications/tools/list_changed"@.index(19) == '/');
    assert("notifications/tools/list_changed"@.index(20) == 'l');
    assert("notifications/tools/list_changed"@.index(21) == 'i');
    assert("notifications/tools/list_changed"@.index(22) == 's');
    assert("notifications/tools/list_changed"@.index(23) == 't');
    assert("notifications/tools/list_changed"@.index(24) == '_');
    assert("notifications/tools/list_changed"@.index(25) == 'c');
    assert("notifications/tools/list_changed"@.index(26) == 'h');
    assert("notifications/tools/list_changed"@.index(27) == 'a');
    assert("notifications/tools/list_changed"@.index(28) == 'n');
    assert("notifications/tools/list_changed"@.index(29) == 'g');
    assert("notifications/tools/list_changed"@.index(30) == 'e');
    assert("notifications/tools/list_changed"@.index(31) == 'd');
    assert("params"@.len() == 6);
    assert("params"@.index(0) == 'p');
    assert("params"@.index(1) == 'a');
    assert("params"@.index(2) == 'r');
    assert("params"@.index(3) == 'a');
    assert("params"@.index(4) == 'm');
    assert("params"@.index(5) == 's');
    assert("ping"@.len() == 4);
    assert("ping"@.index(0) == 'p');
    assert("ping"@.index(1) == 'i');
    assert("ping"@.index(2) == 'n');
    assert("ping"@.index(3) == 'g');
    assert("prompts/get"@.len() == 11);
    assert("prompts/get"@.index(0) == 'p');
    assert("prompts/get"@.index(1) == 'r');
    assert("prompts/get"@.index(2) == 'o');
    assert("prompts/get"@.index(3) == 'm');
    assert("prompts/get"@.index(4) == 'p');
    assert("prompts/get"@.index(5) == 't');
    assert("prompts/get"@.index(6) == 's');
    assert("prompts/get"@.index(7) == '/');
    assert("prompts/get"@.index(8) == 'g');
    assert("prompts/get"@.index(9) == 'e');
    assert("prompts/get"@.index(10) == 't');
    assert("prompts/list"@.len() == 12);
    assert("prompts/list"@.index(0) == 'p');
    assert("prompts/list"@.index(1) == 'r');
    assert("prompts/list"@.index(2) == 'o');
    assert("prompts/list"@.index(3) == 'm');
    assert("prompts/list"@.index(4) == 'p');
    assert("prompts/list"@.index(5) == 't');
    assert("prompts/list"@.index(6) == 's');
    assert("prompts/list"@.index(7) == '/');
    assert("prompts/list"@.index(8) == 'l');
    assert("prompts/list"@.index(9) == 'i');
    assert("prompts/list"@.index(10) == 's');
    assert("prompts/list"@.index(11) == 't');
    assert("resources/list"@.len() == 14);
    assert("resources/list"@.index(0) == 'r');
    assert("resources/list"@.index(1) == 'e');
    assert("resources/list"@.index(2) == 's');
    assert("resources/list"@.index(3) == 'o');
    assert("resources/list"@.index(4) == 'u');
    assert("resources/list"@.index(5) == 'r');
    assert("resources/list"@.index(6) == 'c');
    assert("resources/list"@.index(7) == 'e');
    assert("resources/list"@.index(8) == 's');
    assert("resources/list"@.index(9) == '/');
    assert("resources/list"@.index(10) == 'l');
    assert("resources/list"@.index(11) == 'i');
    assert("resources/list"@.index(12) == 's');
    assert("resources/list"@.index(13) == 't');
    assert("resources/read"@.len() == 14);
    assert("resources/read"@.index(0) == 'r');
    assert("resources/read"@.index(1) == 'e');
    assert("resources/read"@.index(2) == 's');
    assert("resources/read"@.index(3) == 'o');
    assert("resources/read"@.index(4) == 'u');
    assert("resources/read"@.index(5) == 'r');
    assert("resources/read"@.index(6) == 'c');
    assert("resources/read"@.index(7) == 'e');
    assert("resources/read"@.index(8) == 's');
    assert("resources/read"@.index(9) == '/');
    assert("resources/read"@.index(10) == 'r');
    assert("resources/read"@.index(11) == 'e');
    assert("resources/read"@.index(12) == 'a');
    assert("resources/read"@.index(13) == 'd');
    assert("resources/subscribe"@.len() == 19);
    assert("resources/subscribe"@.index(0) == 'r');
    assert("resources/subscribe"@.index(1) == 'e');
    assert("resources/subscribe"@.index(2) == 's');
    assert("resources/subscribe"@.index(3) == 'o');
    assert("resources/subscribe"@.index(4) == 'u');
    assert("resources/subscribe"@.index(5) == 'r');
    assert("resources/subscribe"@.index(6) == 'c');
    assert("resources/subscribe"@.index(7) == 'e');
    assert("resources/subscribe"@.index(8) == 's');
    assert("resources/subscribe"@.index(9) == '/');
    assert("resources/subscribe"@.index(10) == 's');
    assert("resources/subscribe"@.index(11) == 'u');
    assert("resources/subscribe"@.index(12) == 'b');
    assert("resources/subscribe"@.index(13) == 's');
    assert("resources/subscribe"@.index(14) == 'c');
    assert("resources/subscribe"@.index(15) == 'r');
    assert("resources/subscribe"@.index(16) == 'i');
    assert("resources/subscribe"@.index(17) == 'b');
    assert("resources/subscribe"@.index(18) == 'e');
    assert("resources/templates/list"@.len() == 24);
    assert("resources/templates/list"@.index(0) == 'r');
    assert("resources/templates/list"@.index(1) == 'e');
    assert("resources/templates/list"@.index(2) == 's');
    assert("resources/templates/list"@.index(3) == 'o');
    assert("resources/templates/list"@.index(4) == 'u');
    assert("resources/templates/list"@.index(5) == 'r');
    assert("resources/templates/list"@.index(6) == 'c');
    assert("resources/templates/list"@.index(7) == 'e');
    assert("resources/templates/list"@.index(8) == 's');
    assert("resources/templates/list"@.index(9) == '/');
    assert("resources/templates/list"@.index(10) == 't');
    assert("resources/templates/list"@.index(11) == 'e');
    assert("resources/templates/list"@.index(12) == 'm');
    assert("resources/templates/list"@.index(13) == 'p');
    assert("resources/templates/list"@.index(14) == 'l');
    assert("resources/templates/list"@.index(15) == 'a');
    assert("resources/templates/list"@.index(16) == 't');
    assert("resources/templates/list"@.index(17) == 'e');
    assert("resources/templates/list"@.index(18) == 's');
    assert("resources/templates/list"@.index(19) == '/');
    assert("resources/templates/list"@.index(20) == 'l');
    assert("resources/templates/list"@.index(21) == 'i');
    assert("resources/templates/list"@.index(22) == 's');
    assert("resources/templates/list"@.index(23) == 't');
    assert("resources/unsubscribe"@.len() == 21);
    assert("resources/unsubscribe"@.index(0) == 'r');
    assert("resources/unsubscribe"@.index(1) == 'e');
    assert("resources/unsubscribe"@.index(2) == 's');
    assert("resources/unsubscribe"@.index(3) == 'o');
    assert("resources/unsubscribe"@.index(4) == 'u');
    assert("resources/unsubscribe"@.index(5) == 'r');
    assert("resources/unsubscribe"@.index(6) == 'c');
    assert("resources/unsubscribe"@.index(7) == 'e');
    assert("resources/unsubscribe"@.index(8) == 's');
    assert("resources/unsubscribe"@.index(9) == '/');
    assert("resources/unsubscribe"@.index(10) == 'u');
    assert("resources/unsubscribe"@.index(11) == 'n');
    assert("resources/unsubscribe"@.index(12) == 's');
    assert("resources/unsubscribe"@.index(13) == 'u');
    assert("resources/unsubscribe"@.index(14) == 'b');
    assert("resources/unsubscribe"@.index(15) == 's');
    assert("resources/unsubscribe"@.index(16) == 'c');
    assert("resources/unsubscribe"@.index(17) == 'r');
    assert("resources/unsubscribe"@.index(18) == 'i');
    assert("resources/unsubscribe"@.index(19) == 'b');
    assert("resources/unsubscribe"@.index(20) == 'e');
    assert("result"@.len() == 6);
    assert("result"@.index(0) == 'r');
    assert("result"@.index(1) == 'e');
    assert("result"@.index(2) == 's');
    assert("result"@.index(3) == 'u');
    assert("result"@.index(4) == 'l');
    assert("result"@.index(5) == 't');
    assert("roots/list"@.len() == 10);
    assert("roots/list"@.index(0) == 'r');
    assert("roots/list"@.index(1) == 'o');
    assert("roots/list"@.index(2) == 'o');
    assert("roots/list"@.index(3) == 't');
    assert("roots/list"@.index(4) == 's');
    assert("roots/list"@.index(5) == '/');
    assert("roots/list"@.index(6) == 'l');
    assert("roots/list"@.index(7) == 'i');
    assert("roots/list"@.index(8) == 's');
    assert("roots/list"@.index(9) == 't');
    assert("sampling/createMessage"@.len() == 22);
    assert("sampling/createMessage"@.index(0) == 's');
    assert("sampling/createMessage"@.index(1) == 'a');
    assert("sampling/createMessage"@.index(2) == 'm');
    assert("sampling/createMessage"@.index(3) == 'p');
    assert("sampling/createMessage"@.index(4) == 'l');
    assert("sampling/createMessage"@.index(5) == 'i');
    assert("sampling/createMessage"@.index(6) == 'n');
    assert("sampling/createMessage"@.index(7) == 'g');
    assert("sampling/createMessage"@.index(8) == '/');
    assert("sampling/createMessage"@.index(9) == 'c');
    assert("sampling/createMessage"@.index(10) == 'r');
    assert("sampling/createMessage"@.index(11) == 'e');
    assert("sampling/createMessage"@.index(12) == 'a');
    assert("sampling/createMessage"@.index(13) == 't');
    assert("sampling/createMessage"@.index(14) == 'e');
    assert("sampling/createMessage"@.index(15) == 'M');
    assert("sampling/createMessage"@.index(16) == 'e');
    assert("sampling/createMessage"@.index(17) == 's');
    assert("sampling/createMessage"@.index(18) == 's');
    assert("sampling/createMessage"@.index(19) == 'a');
    assert("sampling/createMessage"@.index(20) == 'g');
    assert("sampling/createMessage"@.index(21) == 'e');
    assert("tools/call"@.len() == 10);
    assert("tools/call"@.index(0) == 't');
    assert("tools/call"@.index(1) == 'o');
    assert("tools/call"@.index(2) == 'o');
    assert("tools/call"@.index(3) == 'l');
    assert("tools/call"@.index(4) == 's');
    assert("tools/call"@.index(5) == '/');
    assert("tools/call"@.index(6) == 'c');
    assert("tools/call"@.index(7) == 'a');
    assert("tools/call"@.index(8) == 'l');
    assert("tools/call"@.index(9) == 'l');
    assert("tools/list"@.len() == 10);
    assert("tools/list"@.index(0) == 't');
    assert("tools/list"@.index(1) == 'o');
    assert("tools/list"@.index(2) == 'o');
    assert("tools/list"@.index(3) == 'l');
    assert("tools/list"@.index(4) == 's');
    assert("tools/list"@.index(5) == '/');
    assert("tools/list"@.index(6) == 'l');
    assert("tools/list"@.index(7) == 'i');
    assert("tools/list"@.index(8) == 's');
    assert("tools/list"@.index(9) == 't');
    match m {
        JsonRpcMessageV::Request(e) => {
            lemma_id_round_trip(e.id);
            match e.request {
                ServerRequestV::PingRequest => {},
                ServerRequestV::CreateMessageRequest(x) => {
                    lemma_rt_create_message_request_param(x);
                },
                ServerRequestV::ListRootsRequest => {},
            }
        },
        JsonRpcMessageV::Response(e) => {
            lemma_id_round_trip(e.id);
            lemma_rt_server_result(e.result);
        },
        JsonRpcMessageV::Notification(e) => {
            match e.notification {
                ServerNotificationV::CancelledNotification(x) => {
                    lemma_rt_cancelled_notification_param(x);
                },
                ServerNotificationV::ProgressNotification(x) => {
                    lemma_rt_progress_notification_param(x);
                },
                ServerNotificationV::LoggingMessageNotification(x) => {
                    lemma_rt_logging_message_notification_param(x);
                },
                ServerNotificationV::ResourceUpdatedNotification(x) => {
                    lemma_rt_resource_updated_notification_param(x);
                },
                ServerNotificationV::ResourceListChangedNotification => {},
                ServerNotificationV::ToolListChangedNotification => {},
                ServerNotificationV::PromptListChangedNotification => {},
            }
        },
        JsonRpcMessageV::Error(e) => {
            lemma_id_round_trip(e.id);
            lemma_rt_error_data(e.error);
        },
    }
}


/// Method-tag strictness, decode side: a decoded request's method string
/// is exactly the literal of its variant — nothing else is accepted.
pub proof fn lemma_client_method_tag_strict(v: JsonV)
    ensures
        dec_client_request(v) matches Some(r) ==> get_s(v, "method"@) == Some(
            client_request_method(r),
        ),
        dec_client_notification(v) matches Some(n) ==> get_s(v, "method"@) == Some(
            client_notification_method(n),
        ),
{
}

/// Method-tag strictness, server side.
pub proof fn lemma_server_method_tag_strict(v: JsonV)
    ensures
        dec_server_request(v) matches Some(r) ==> get_s(v, "method"@) == Some(
            server_request_method(r),
        ),
        dec_server_notification(v) matches Some(n) ==> get_s(v, "method"@) == Some(
            server_notification_method(n),
        ),
{
}

/// Envelope discrimination: no encoded unit carries both a `method` and a
/// `result` key, so the four shapes never overlap on the wire.
pub proof fn lemma_envelope_discrimination_client(m: ClientJsonRpcMessageV)
    ensures
        enc_client(m) matches JsonV::Obj(o) ==> !(has_key(o, "method"@) && has_key(
            o,
            "result"@,
        )),
{
    reveal_strlit("2.0");
    reveal_strlit("code");
    reveal_strlit("completion/complete");
    reveal_strlit("data");
    reveal_strlit("error");
    reveal_strlit("id");
    reveal_strlit("initialize");
    reveal_strlit("jsonrpc");
    reveal_strlit("logging/setLevel");
    reveal_strlit("message");
    reveal_strlit("method");
    reveal_strlit("notifications/cancelled");
    reveal_strlit("notifications/initialized");
    reveal_strlit("notifications/message");
    reveal_strlit("notifications/progress");
    reveal_strlit("notifications/prompts/list_changed");
    reveal_strlit("notifications/resources/list_changed");
    reveal_strlit("notifications/resources/updated");
    reveal_strlit("notifications/roots/list_changed");
    reveal_strlit("notifications/tools/list_changed");
    reveal_strlit("params");
    reveal_strlit("ping");
    reveal_strlit("prompts/get");
    reveal_strlit("prompts/list");
    reveal_strlit("resources/list");
    reveal_strlit("resources/read");
    reveal_strlit("resources/subscribe");
    reveal_strlit("resources/templates/list");
    reveal_strlit("resources/unsubscribe");
    reveal_strlit("result");
    reveal_strlit("roots/list");
    reveal_strlit("sampling/createMessage");
    reveal_strlit("tools/call");
    reveal_strlit("tools/list");
    assert("2.0"@.len() == 3);
    assert("2.0"@.index(0) == '2');
    assert("2.0"@.index(1) == '.');
    assert("2.0"@.index(2) == '0');
    assert("code"@.len() == 4);
    assert("code"@.index(0) == 'c');
    assert("code"@.index(1) == 'o');
    assert("code"@.index(2) == 'd');
    assert("code"@.index(3) == 'e');
    assert("completion/complete"@.len() == 19);
    assert("completion/complete"@.index(0) == 'c');
    assert("completion/complete"@.index(1) == 'o');
    assert("completion/complete"@.index(2) == 'm');
    assert("completion/complete"@.index(3) == 'p');
    assert("completion/complete"@.index(4) == 'l');
    assert("completion/complete"@.index(5) == 'e');
    assert("completion/complete"@.index(6) == 't');
    assert("completion/complete"@.index(7) == 'i');
    assert("completion/complete"@.index(8) == 'o');
    assert("completion/complete"@.index(9) == 'n');
    assert("completion/complete"@.index(10) == '/');
    assert("completion/complete"@.index(11) == 'c');
    assert("completion/complete"@.index(12) == 'o');
    assert("completion/complete"@.index(13) == 'm');
    assert("completion/complete"@.index(14) == 'p');
    assert("completion/complete"@.index(15) == 'l');
    assert("completion/complete"@.index(16) == 'e');
    assert("completion/complete"@.index(17) == 't');
    assert("completion/complete"@.index(18) == 'e');
    assert("data"@.len() == 4);
    assert("data"@.index(0) == 'd');
    assert("data"@.index(1) == 'a');
    assert("data"@.index(2) == 't');
    assert("data"@.index(3) == 'a');
    assert("error"@.len() == 5);
    assert("error"@.index(0) == 'e');
    assert("error"@.index(1) == 'r');
    assert("error"@.index(2) == 'r');
    assert("error"@.index(3) == 'o');
    assert("error"@.index(4) == 'r');
    assert("id"@.len() == 2);
    assert("id"@.index(0) == 'i');
    assert("id"@.index(1) == 'd');
    assert("initialize"@.len() == 10);
    assert("initialize"@.index(0) == 'i');
    assert("initialize"@.index(1) == 'n');
    assert("initialize"@.index(2) == 'i');
    assert("initialize"@.index(3) == 't');
    assert("initialize"@.index(4) == 'i');
    assert("initialize"@.index(5) == 'a');
    assert("initialize"@.index(6) == 'l');
    assert("initialize"@.index(7) == 'i');
    assert("initialize"@.index(8) == 'z');
    assert("initialize"@.index(9) == 'e');
    assert("jsonrpc"@.len() == 7);
    assert("jsonrpc"@.index(0) == 'j');
    assert("jsonrpc"@.index(1) == 's');
    assert("jsonrpc"@.index(2) == 'o');
    assert("jsonrpc"@.index(3) == 'n');
    assert("jsonrpc"@.index(4) == 'r');
    assert("jsonrpc"@.index(5) == 'p');
    assert("jsonrpc"@.index(6) == 'c');
    assert("logging/setLevel"@.len() == 16);
    assert("logging/setLevel"@.index(0) == 'l');
    assert("logging/setLevel"@.index(1) == 'o');
    assert("logging/setLevel"@.index(2) == 'g');
    assert("logging/setLevel"@.index(3) == 'g');
    assert("logging/setLevel"@.index(4) == 'i');
    assert("logging/setLevel"@.index(5) == 'n');
    assert("logging/setLevel"@.index(6) == 'g');
    assert("logging/setLevel"@.index(7) == '/');
    assert("logging/setLevel"@.index(8) == 's');
    assert("logging/setLevel"@.index(9) == 'e');
    assert("logging/setLevel"@.index(10) == 't');
    assert("logging/setLevel"@.index(11) == 'L');
    assert("logging/setLevel"@.index(12) == 'e');
    assert("logging/setLevel"@.index(13) == 'v');
    assert("logging/setLevel"@.index(14) == 'e');
    assert("logging/setLevel"@.index(15) == 'l');
    assert("message"@.len() == 7);
    assert("message"@.index(0) == 'm');
    assert("message"@.index(1) == 'e');
    assert("message"@.index(2) == 's');
    assert("message"@.index(3) == 's');
    assert("message"@.index(4) == 'a');
    assert("message"@.index(5) == 'g');
    assert("message"@.index(6) == 'e');
    assert("method"@.len() == 6);
    assert("method"@.index(0) == 'm');
    assert("method"@.index(1) == 'e');
    assert("method"@.index(2) == 't');
    assert("method"@.index(3) == 'h');
    assert("method"@.index(4) == 'o');
    assert("method"@.index(5) == 'd');
    assert("notifications/cancelled"@.len() == 23);
    assert("notifications/cancelled"@.index(0) == 'n');
    assert("notifications/cancelled"@.index(1) == 'o');
    assert("notifications/cancelled"@.index(2) == 't');
    assert("notifications/cancelled"@.index(3) == 'i');
    assert("notifications/cancelled"@.index(4) == 'f');
    assert("notifications/cancelled"@.index(5) == 'i');
    assert("notifications/cancelled"@.index(6) == 'c');
    assert("notifications/cancelled"@.index(7) == 'a');
    assert("notifications/cancelled"@.index(8) == 't');
    assert("notifications/cancelled"@.index(9) == 'i');
    assert("notifications/cancelled"@.index(10) == 'o');
    assert("notifications/cancelled"@.index(11) == 'n');
    assert("notifications/cancelled"@.index(12) == 's');
    assert("notifications/cancelled"@.index(13) == '/');
    assert("notifications/cancelled"@.index(14) == 'c');
    assert("notifications/cancelled"@.index(15) == 'a');
    assert("notifications/cancelled"@.index(16) == 'n');
    assert("notifications/cancelled"@.index(17) == 'c');
    assert("notifications/cancelled"@.index(18) == 'e');
    assert("notifications/cancelled"@.index(19) == 'l');
    assert("notifications/cancelled"@.index(20) == 'l');
    assert("notifications/cancelled"@.index(21) == 'e');
    assert("notifications/cancelled"@.index(22) == 'd');
    assert("notifications/initialized"@.len() == 25);
    assert("notifications/initialized"@.index(0) == 'n');
    assert("notifications/initialized"@.index(1) == 'o');
    assert("notifications/initialized"@.index(2) == 't');
    assert("notifications/initialized"@.index(3) == 'i');
    assert("notifications/initialized"@.index(4) == 'f');
    assert("notifications/initialized"@.index(5) == 'i');
    assert("notifications/initialized"@.index(6) == 'c');
    assert("notifications/initialized"@.index(7) == 'a');
    assert("notifications/initialized"@.index(8) == 't');
    assert("notifications/initialized"@.index(9) == 'i');
    assert("notifications/initialized"@.index(10) == 'o');
    assert("notifications/initialized"@.index(11) == 'n');
    assert("notifications/initialized"@.index(12) == 's');
    assert("notifications/initialized"@.index(13) == '/');
    assert("notifications/initialized"@.index(14) == 'i');
    assert("notifications/initialized"@.index(15) == 'n');
    assert("notifications/initialized"@.index(16) == 'i');
    assert("notifications/initialized"@.index(17) == 't');
    assert("notifications/initialized"@.index(18) == 'i');
    assert("notifications/initialized"@.index(19) == 'a');
    assert("notifications/initialized"@.index(20) == 'l');
    assert("notifications/initialized"@.index(21) == 'i');
    assert("notifications/initialized"@.index(22) == 'z');
    assert("notifications/initialized"@.index(23) == 'e');
    assert("notifications/initialized"@.index(24) == 'd');
    assert("notifications/message"@.len() == 21);
    assert("notifications/message"@.index(0) == 'n');
    assert("notifications/message"@.index(1) == 'o');
    assert("notifications/message"@.index(2) == 't');
    assert("notifications/message"@.index(3) == 'i');
    assert("notifications/message"@.index(4) == 'f');
    assert("notifications/message"@.index(5) == 'i');
    assert("notifications/message"@.index(6) == 'c');
    assert("notifications/message"@.index(7) == 'a');
    assert("notifications/message"@.index(8) == 't');
    assert("notifications/message"@.index(9) == 'i');
    assert("notifications/message"@.index(10) == 'o');
    assert("notifications/message"@.index(11) == 'n');
    assert("notifications/message"@.index(12) == 's');
    assert("notifications/message"@.index(13) == '/');
    assert("notifications/message"@.index(14) == 'm');
    assert("notifications/message"@.index(15) == 'e');
    assert("notifications/message"@.index(16) == 's');
    assert("notifications/message"@.index(17) == 's');
    assert("notifications/message"@.index(18) == 'a');
    assert("notifications/message"@.index(19) == 'g');
    assert("notifications/message"@.index(20) == 'e');
    assert("notifications/progress"@.len() == 22);
    assert("notifications/progress"@.index(0) == 'n');
    assert("notifications/progress"@.index(1) == 'o');
    assert("notifications/progress"@.index(2) == 't');
    assert("notifications/progress"@.index(3) == 'i');
    assert("notifications/progress"@.index(4) == 'f');
    assert("notifications/progress"@.index(5) == 'i');
    assert("notifications/progress"@.index(6) == 'c');
    assert("notifications/progress"@.index(7) == 'a');
    assert("notifications/progress"@.index(8) == 't');
    assert("notifications/progress"@.index(9) == 'i');
    assert("notifications/progress"@.index(10) == 'o');
    assert("notifications/progress"@.index(11) == 'n');
    assert("notifications/progress"@.index(12) == 's');
    assert("notifications/progress"@.index(13) == '/');
    assert("notifications/progress"@.index(14) == 'p');
    assert("notifications/progress"@.index(15) == 'r');
    assert("notifications/progress"@.index(16) == 'o');
    assert("notifications/progress"@.index(17) == 'g');
    assert("notifications/progress"@.index(18) == 'r');
    assert("notifications/progress"@.index(19) == 'e');
    assert("notifications/progress"@.index(20) == 's');
    assert("notifications/progress"@.index(21) == 's');
    assert("notifications/prompts/list_changed"@.len() == 34);
    assert("notifications/prompts/list_changed"@.index(0) == 'n');
    assert("notifications/prompts/list_changed"@.index(1) == 'o');
    assert("notifications/prompts/list_changed"@.index(2) == 't');
    assert("notifications/prompts/list_changed"@.index(3) == 'i');
    assert("notifications/prompts/list_changed"@.index(4) == 'f');
    assert("notifications/prompts/list_changed"@.index(5) == 'i');
    assert("notifications/prompts/list_changed"@.index(6) == 'c');
    assert("notifications/prompts/list_changed"@.index(7) == 'a');
    assert("notifications/prompts/list_changed"@.index(8) == 't');
    assert("notifications/prompts/list_changed"@.index(9) == 'i');
    assert("notifications/prompts/list_changed"@.index(10) == 'o');
    assert("notifications/prompts/list_changed"@.index(11) == 'n');
    assert("notifications/prompts/list_changed"@.index(12) == 's');
    assert("notifications/prompts/list_changed"@.index(13) == '/');
    assert("notifications/prompts/list_changed"@.index(14) == 'p');
    assert("notifications/prompts/list_changed"@.index(15) == 'r');
    assert("notifications/prompts/list_changed"@.index(16) == 'o');
    assert("notifications/prompts/list_changed"@.index(17) == 'm');
    assert("notifications/prompts/list_changed"@.index(18) == 'p');
    assert("notifications/prompts/list_changed"@.index(19) == 't');
    assert("notifications/prompts/list_changed"@.index(20) == 's');
    assert("notifications/prompts/list_changed"@.index(21) == '/');
    assert("notifications/prompts/list_changed"@.index(22) == 'l');
    assert("notifications/prompts/list_changed"@.index(23) == 'i');
    assert("notifications/prompts/list_changed"@.index(24) == 's');
    assert("notifications/prompts/list_changed"@.index(25) == 't');
    assert("notifications/prompts/list_changed"@.index(26) == '_');
    assert("notifications/prompts/list_changed"@.index(27) == 'c');
    assert("notifications/prompts/list_changed"@.index(28) == 'h');
    assert("notifications/prompts/list_changed"@.index(29) == 'a');
    assert("notifications/prompts/list_changed"@.index(30) == 'n');
    assert("notifications/prompts/list_changed"@.index(31) == 'g');
    assert("notifications/prompts/list_changed"@.index(32) == 'e');
    assert("notifications/prompts/list_changed"@.index(33) == 'd');
    assert("notifications/resources/list_changed"@.len() == 36);
    assert("notifications/resources/list_changed"@.index(0) == 'n');
    assert("notifications/resources/list_changed"@.index(1) == 'o');
    assert("notifications/resources/list_changed"@.index(2) == 't');
    assert("notifications/resources/list_changed"@.index(3) == 'i');
    assert("notifications/resources/list_changed"@.index(4) == 'f');
    assert("notifications/resources/list_changed"@.index(5) == 'i');
    assert("notifications/resources/list_changed"@.index(6) == 'c');
    assert("notifications/resources/list_changed"@.index(7) == 'a');
    assert("notifications/resources/list_changed"@.index(8) == 't');
    assert("notifications/resources/list_changed"@.index(9) == 'i');
    assert("notifications/resources/list_changed"@.index(10) == 'o');
    assert("notifications/resources/list_changed"@.index(11) == 'n');
    assert("notifications/resources/list_changed"@.index(12) == 's');
    assert("notifications/resources/list_changed"@.index(13) == '/');
    assert("notifications/resources/list_changed"@.index(14) == 'r');
    assert("notifications/resources/list_changed"@.index(15) == 'e');
    assert("notifications/resources/list_changed"@.index(16) == 's');
    assert("notifications/resources/list_changed"@.index(17) == 'o');
    assert("notifications/resources/list_changed"@.index(18) == 'u');
    assert("notifications/resources/list_changed"@.index(19) == 'r');
    assert("notifications/resources/list_changed"@.index(20) == 'c');
    assert("notifications/resources/list_changed"@.index(21) == 'e');
    assert("notifications/resources/list_changed"@.index(22) == 's');
    assert("notifications/resources/list_changed"@.index(23) == '/');
    assert("notifications/resources/list_changed"@.index(24) == 'l');
    assert("notifications/resources/list_changed"@.index(25) == 'i');
    assert("notifications/resources/list_changed"@.index(26) == 's');
    assert("notifications/resources/list_changed"@.index(27) == 't');
    assert("notifications/resources/list_changed"@.index(28) == '_');
    assert("notifications/resources/list_changed"@.index(29) == 'c');
    assert("notifications/resources/list_changed"@.index(30) == 'h');
    assert("notifications/resources/list_changed"@.index(31) == 'a');
    assert("notifications/resources/list_changed"@.index(32) == 'n');
    assert("notifications/resources/list_changed"@.index(33) == 'g');
    assert("notifications/resources/list_changed"@.index(34) == 'e');
    assert("notifications/resources/list_changed"@.index(35) == 'd');
    assert("notifications/resources/updated"@.len() == 31);
    assert("notifications/resources/updated"@.index(0) == 'n');
    assert("notifications/resources/updated"@.index(1) == 'o');
    assert("notifications/resources/updated"@.index(2) == 't');
    assert("notifications/resources/updated"@.index(3) == 'i');
    assert("notifications/resources/updated"@.index(4) == 'f');
    assert("notifications/resources/updated"@.index(5) == 'i');
    assert("notifications/resources/updated"@.index(6) == 'c');
    assert("notifications/resources/updated"@.index(7) == 'a');
    assert("notifications/resources/updated"@.index(8) == 't');
    assert("notifications/resources/updated"@.index(9) == 'i');
    assert("notifications/resources/updated"@.index(10) == 'o');
    assert("notifications/resources/updated"@.index(11) == 'n');
    assert("notifications/resources/updated"@.index(12) == 's');
    assert("notifications/resources/updated"@.index(13) == '/');
    assert("notifications/resources/updated"@.index(14) == 'r');
    assert("notifications/resources/updated"@.index(15) == 'e');
    assert("notifications/resources/updated"@.index(16) == 's');
    assert("notifications/resources/updated"@.index(17) == 'o');
    assert("notifications/resources/updated"@.index(18) == 'u');
    assert("notifications/resources/updated"@.index(19) == 'r');
    assert("notifications/resources/updated"@.index(20) == 'c');
    assert("notifications/resources/updated"@.index(21) == 'e');
    assert("notifications/resources/updated"@.index(22) == 's');
    assert("notifications/resources/updated"@.index(23) == '/');
    assert("notifications/resources/updated"@.index(24) == 'u');
    assert("notifications/resources/updated"@.index(25) == 'p');
    assert("notifications/resources/updated"@.index(26) == 'd');
    assert("notifications/resources/updated"@.index(27) == 'a');
    assert("notifications/resources/updated"@.index(28) == 't');
    assert("notifications/resources/updated"@.index(29) == 'e');
    assert("notifications/resources/updated"@.index(30) == 'd');
    assert("notifications/roots/list_changed"@.len() == 32);
    assert("notifications/roots/list_changed"@.index(0) == 'n');
    assert("notifications/roots/list_changed"@.index(1) == 'o');
    assert("notifications/roots/list_changed"@.index(2) == 't');
    assert("notifications/roots/list_changed"@.index(3) == 'i');
    assert("notifications/roots/list_changed"@.index(4) == 'f');
    assert("notifications/roots/list_changed"@.index(5) == 'i');
    assert("notifications/roots/list_changed"@.index(6) == 'c');
    assert("notifications/roots/list_changed"@.index(7) == 'a');
    assert("notifications/roots/list_changed"@.index(8) == 't');
    assert("notifications/roots/list_changed"@.index(9) == 'i');
    assert("notifications/roots/list_changed"@.index(10) == 'o');
    assert("notifications/roots/list_changed"@.index(11) == 'n');
    assert("notifications/roots/list_changed"@.index(12) == 's');
    assert("notifications/roots/list_changed"@.index(13) == '/');
    assert("notifications/roots/list_changed"@.index(14) == 'r');
    assert("notifications/roots/list_changed"@.index(15) == 'o');
    assert("notifications/roots/list_changed"@.index(16) == 'o');
    assert("notifications/roots/list_changed"@.index(17) == 't');
    assert("notifications/roots/list_changed"@.index(18) == 's');
    assert("notifications/roots/list_changed"@.index(19) == '/');
    assert("notifications/roots/list_changed"@.index(20) == 'l');
    assert("notifications/roots/list_changed"@.index(21) == 'i');
    assert("notifications/roots/list_changed"@.index(22) == 's');
    assert("notifications/roots/list_changed"@.index(23) == 't');
    assert("notifications/roots/list_changed"@.index(24) == '_');
    assert("notifications/roots/list_changed"@.index(25) == 'c');
    assert("notifications/roots/list_changed"@.index(26) == 'h');
    assert("notifications/roots/list_changed"@.index(27) == 'a');
    assert("notifications/roots/list_changed"@.index(28) == 'n');
    assert("notifications/roots/list_changed"@.index(29) == 'g');
    assert("notifications/roots/list_changed"@.index(30) == 'e');
    assert("notifications/roots/list_changed"@.index(31) == 'd');
    assert("notifications/tools/list_changed"@.len() == 32);
    assert("notifications/tools/list_changed"@.index(0) == 'n');
    assert("notifications/tools/list_changed"@.index(1) == 'o');
    assert("notifications/tools/list_changed"@.index(2) == 't');
    assert("notifications/tools/list_changed"@.index(3) == 'i');
    assert("notifications/tools/list_changed"@.index(4) == 'f');
    assert("notifications/tools/list_changed"@.index(5) == 'i');
    assert("notifications/tools/list_changed"@.index(6) == 'c');
    assert("notifications/tools/list_changed"@.index(7) == 'a');
    assert("notifications/tools/list_changed"@.index(8) == 't');
    assert("notifications/tools/list_changed"@.index(9) == 'i');
    assert("notifications/tools/list_changed"@.index(10) == 'o');
    assert("notifications/tools/list_changed"@.index(11) == 'n');
    assert("notifications/tools/list_changed"@.index(12) == 's');
    assert("notifications/tools/list_changed"@.index(13) == '/');
    assert("notifications/tools/list_changed"@.index(14) == 't');
    assert("notifications/tools/list_changed"@.index(15) == 'o');
    assert("notifications/tools/list_changed"@.index(16) == 'o');
    assert("notifications/tools/list_changed"@.index(17) == 'l');
    assert("notifications/tools/list_changed"@.index(18) == 's');
    assert("notifications/tools/list_changed"@.index(19) == '/');
    assert("notifications/tools/list_changed"@.index(20) == 'l');
    assert("notifications/tools/list_changed"@.index(21) == 'i');
    assert("notifications/tools/list_changed"@.index(22) == 's');
    assert("notifications/tools/list_changed"@.index(23) == 't');
    assert("notifications/tools/list_changed"@.index(24) == '_');
    assert("notifications/tools/list_changed"@.index(25) == 'c');
    assert("notifications/tools/list_changed"@.index(26) == 'h');
    assert("notifications/tools/list_changed"@.index(27) == 'a');
    assert("notifications/tools/list_changed"@.index(28) == 'n');
    assert("notifications/tools/list_changed"@.index(29) == 'g');
    assert("notifications/tools/list_changed"@.index(30) == 'e');
    assert("notifications/tools/list_changed"@.index(31) == 'd');
    assert("params"@.len() == 6);
    assert("params"@.index(0) == 'p');
    assert("params"@.index(1) == 'a');
    assert("params"@.index(2) == 'r');
    assert("params"@.index(3) == 'a');
    assert("params"@.index(4) == 'm');
    assert("params"@.index(5) == 's');
    assert("ping"@.len() == 4);
    assert("ping"@.index(0) == 'p');
    assert("ping"@.index(1) == 'i');
    assert("ping"@.index(2) == 'n');
    assert("ping"@.index(3) == 'g');
    assert("prompts/get"@.len() == 11);
    assert("prompts/get"@.index(0) == 'p');
    assert("prompts/get"@.index(1) == 'r');
    assert("prompts/get"@.index(2) == 'o');
    assert("prompts/get"@.index(3) == 'm');
    assert("prompts/get"@.index(4) == 'p');
    assert("prompts/get"@.index(5) == 't');
    assert("prompts/get"@.index(6) == 's');
    assert("prompts/get"@.index(7) == '/');
    assert("prompts/get"@.index(8) == 'g');
    assert("prompts/get"@.index(9) == 'e');
    assert("prompts/get"@.index(10) == 't');
    assert("prompts/list"@.len() == 12);
    assert("prompts/list"@.index(0) == 'p');
    assert("prompts/list"@.index(1) == 'r');
    assert("prompts/list"@.index(2) == 'o');
    assert("prompts/list"@.index(3) == 'm');
    assert("prompts/list"@.index(4) == 'p');
    assert("prompts/list"@.index(5) == 't');
    assert("prompts/list"@.index(6) == 's');
    assert("prompts/list"@.index(7) == '/');
    assert("prompts/list"@.index(8) == 'l');
    assert("prompts/list"@.index(9) == 'i');
    assert("prompts/list"@.index(10) == 's');
    assert("prompts/list"@.index(11) == 't');
    assert("resources/list"@.len() == 14);
    assert("resources/list"@.index(0) == 'r');
    assert("resources/list"@.index(1) == 'e');
    assert("resources/list"@.index(2) == 's');
    assert("resources/list"@.index(3) == 'o');
    assert("resources/list"@.index(4) == 'u');
    assert("resources/list"@.index(5) == 'r');
    assert("resources/list"@.index(6) == 'c');
    assert("resources/list"@.index(7) == 'e');
    assert("resources/list"@.index(8) == 's');
    assert("resources/list"@.index(9) == '/');
    assert("resources/list"@.index(10) == 'l');
    assert("resources/list"@.index(11) == 'i');
    assert("resources/list"@.index(12) == 's');
    assert("resources/list"@.index(13) == 't');
    assert("resources/read"@.len() == 14);
    assert("resources/read"@.index(0) == 'r');
    assert("resources/read"@.index(1) == 'e');
    assert("resources/read"@.index(2) == 's');
    assert("resources/read"@.index(3) == 'o');
    assert("resources/read"@.index(4) == 'u');
    assert("resources/read"@.index(5) == 'r');
    assert("resources/read"@.index(6) == 'c');
    assert("resources/read"@.index(7) == 'e');
    assert("resources/read"@.index(8) == 's');
    assert("resources/read"@.index(9) == '/');
    assert("resources/read"@.index(10) == 'r');
    assert("resources/read"@.index(11) == 'e');
    assert("resources/read"@.index(12) == 'a');
    assert("resources/read"@.index(13) == 'd');
    assert("resources/subscribe"@.len() == 19);
    assert("resources/subscribe"@.index(0) == 'r');
    assert("resources/subscribe"@.index(1) == 'e');
    assert("resources/subscribe"@.index(2) == 's');
    assert("resources/subscribe"@.index(3) == 'o');
    assert("resources/subscribe"@.index(4) == 'u');
    assert("resources/subscribe"@.index(5) == 'r');
    assert("resources/subscribe"@.index(6) == 'c');
    assert("resources/subscribe"@.index(7) == 'e');
    assert("resources/subscribe"@.index(8) == 's');
    assert("resources/subscribe"@.index(9) == '/');
    assert("resources/subscribe"@.index(10) == 's');
    assert("resources/subscribe"@.index(11) == 'u');
    assert("resources/subscribe"@.index(12) == 'b');
    assert("resources/subscribe"@.index(13) == 's');
    assert("resources/subscribe"@.index(14) == 'c');
    assert("resources/subscribe"@.index(15) == 'r');
    assert("resources/subscribe"@.index(16) == 'i');
    assert("resources/subscribe"@.index(17) == 'b');
    assert("resources/subscribe"@.index(18) == 'e');
    assert("resources/templates/list"@.len() == 24);
    assert("resources/templates/list"@.index(0) == 'r');
    assert("resources/templates/list"@.index(1) == 'e');
    assert("resources/templates/list"@.index(2) == 's');
    assert("resources/templates/list"@.index(3) == 'o');
    assert("resources/templates/list"@.index(4) == 'u');
    assert("resources/templates/list"@.index(5) == 'r');
    assert("resources/templates/list"@.index(6) == 'c');
    assert("resources/templates/list"@.index(7) == 'e');
    assert("resources/templates/list"@.index(8) == 's');
    assert("resources/templates/list"@.index(9) == '/');
    assert("resources/templates/list"@.index(10) == 't');
    assert("resources/templates/list"@.index(11) == 'e');
    assert("resources/templates/list"@.index(12) == 'm');
    assert("resources/templates/list"@.index(13) == 'p');
    assert("resources/templates/list"@.index(14) == 'l');
    assert("resources/templates/list"@.index(15) == 'a');
    assert("resources/templates/list"@.index(16) == 't');
    assert("resources/templates/list"@.index(17) == 'e');
    assert("resources/templates/list"@.index(18) == 's');
    assert("resources/templates/list"@.index(19) == '/');
    assert("resources/templates/list"@.index(20) == 'l');
    assert("resources/templates/list"@.index(21) == 'i');
    assert("resources/templates/list"@.index(22) == 's');
    assert("resources/templates/list"@.index(23) == 't');
    assert("resources/unsubscribe"@.len() == 21);
    assert("resources/unsubscribe"@.index(0) == 'r');
    assert("resources/unsubscribe"@.index(1) == 'e');
    assert("resources/unsubscribe"@.index(2) == 's');
    assert("resources/unsubscribe"@.index(3) == 'o');
    assert("resources/unsubscribe"@.index(4) == 'u');
    assert("resources/unsubscribe"@.index(5) == 'r');
    assert("resources/unsubscribe"@.index(6) == 'c');
    assert("resources/unsubscribe"@.index(7) == 'e');
    assert("resources/unsubscribe"@.index(8) == 's');
    assert("resources/unsubscribe"@.index(9) == '/');
    assert("resources/unsubscribe"@.index(10) == 'u');
    assert("resources/unsubscribe"@.index(11) == 'n');
    assert("resources/unsubscribe"@.index(12) == 's');
    assert("resources/unsubscribe"@.index(13) == 'u');
    assert("resources/unsubscribe"@.index(14) == 'b');
    assert("resources/unsubscribe"@.index(15) == 's');
    assert("resources/unsubscribe"@.index(16) == 'c');
    assert("resources/unsubscribe"@.index(17) == 'r');
    assert("resources/unsubscribe"@.index(18) == 'i');
    assert("resources/unsubscribe"@.index(19) == 'b');
    assert("resources/unsubscribe"@.index(20) == 'e');
    assert("result"@.len() == 6);
    assert("result"@.index(0) == 'r');
    assert("result"@.index(1) == 'e');
    assert("result"@.index(2) == 's');
    assert("result"@.index(3) == 'u');
    assert("result"@.index(4) == 'l');
    assert("result"@.index(5) == 't');
    assert("roots/list"@.len() == 10);
    assert("roots/list"@.index(0) == 'r');
    assert("roots/list"@.index(1) == 'o');
    assert("roots/list"@.index(2) == 'o');
    assert("roots/list"@.index(3) == 't');
    assert("roots/list"@.index(4) == 's');
    assert("roots/list"@.index(5) == '/');
    assert("roots/list"@.index(6) == 'l');
    assert("roots/list"@.index(7) == 'i');
    assert("roots/list"@.index(8) == 's');
    assert("roots/list"@.index(9) == 't');
    assert("sampling/createMessage"@.len() == 22);
    assert("sampling/createMessage"@.index(0) == 's');
    assert("sampling/createMessage"@.index(1) == 'a');
    assert("sampling/createMessage"@.index(2) == 'm');
    assert("sampling/createMessage"@.index(3) == 'p');
    assert("sampling/createMessage"@.index(4) == 'l');
    assert("sampling/createMessage"@.index(5) == 'i');
    assert("sampling/createMessage"@.index(6) == 'n');
    assert("sampling/createMessage"@.index(7) == 'g');
    assert("sampling/createMessage"@.index(8) == '/');
    assert("sampling/createMessage"@.index(9) == 'c');
    assert("sampling/createMessage"@.index(10) == 'r');
    assert("sampling/createMessage"@.index(11) == 'e');
    assert("sampling/createMessage"@.index(12) == 'a');
    assert("sampling/createMessage"@.index(13) == 't');
    assert("sampling/createMessage"@.index(14) == 'e');
    assert("sampling/createMessage"@.index(15) == 'M');
    assert("sampling/createMessage"@.index(16) == 'e');
    assert("sampling/createMessage"@.index(17) == 's');
    assert("sampling/createMessage"@.index(18) == 's');
    assert("sampling/createMessage"@.index(19) == 'a');
    assert("sampling/createMessage"@.index(20) == 'g');
    assert("sampling/createMessage"@.index(21) == 'e');
    assert("tools/call"@.len() == 10);
    assert("tools/call"@.index(0) == 't');
    assert("tools/call"@.index(1) == 'o');
    assert("tools/call"@.index(2) == 'o');
    assert("tools/call"@.index(3) == 'l');
    assert("tools/call"@.index(4) == 's');
    assert("tools/call"@.index(5) == '/');
    assert("tools/call"@.index(6) == 'c');
    assert("tools/call"@.index(7) == 'a');
    assert("tools/call"@.index(8) == 'l');
    assert("tools/call"@.index(9) == 'l');
    assert("tools/list"@.len() == 10);
    assert("tools/list"@.index(0) == 't');
    assert("tools/list"@.index(1) == 'o');
    assert("tools/list"@.index(2) == 'o');
    assert("tools/list"@.index(3) == 'l');
    assert("tools/list"@.index(4) == 's');
    assert("tools/list"@.index(5) == '/');
    assert("tools/list"@.index(6) == 'l');
    assert("tools/list"@.index(7) == 'i');
    assert("tools/list"@.index(8) == 's');
    assert("tools/list"@.index(9) == 't');
    match m {
        JsonRpcMessageV::Request(e) => {
            match e.request {
                ClientRequestV::PingRequest => {},
                ClientRequestV::InitializeRequest(_) => {},
                ClientRequestV::CompleteRequest(_) => {},
                ClientRequestV::SetLevelRequest(_) => {},
                ClientRequestV::GetPromptRequest(_) => {},
                ClientRequestV::ListPromptsRequest(_) => {},
                ClientRequestV::ListResourcesRequest(_) => {},
                ClientRequestV::ListResourceTemplatesRequest(_) => {},
                ClientRequestV::ReadResourceRequest(_) => {},
                ClientRequestV::SubscribeRequest(_) => {},
                ClientRequestV::UnsubscribeRequest(_) => {},
                ClientRequestV::CallToolRequest(_) => {},
                ClientRequestV::ListToolsRequest(_) => {},
            }
        },
        JsonRpcMessageV::Response(e) => {},
        JsonRpcMessageV::Notification(e) => {
            match e.notification {
                ClientNotificationV::CancelledNotification(_) => {},
                ClientNotificationV::ProgressNotification(_) => {},
                ClientNotificationV::InitializedNotification => {},
                ClientNotificationV::RootsListChangedNotification => {},
            }
        },
        JsonRpcMessageV::Error(e) => {},
    }
}

/// Envelope discrimination, server side.
pub proof fn lemma_envelope_discrimination_server(m: ServerJsonRpcMessageV)
    ensures
        enc_server(m) matches JsonV::Obj(o) ==> !(has_key(o, "method"@) && has_key(
            o,
            "result"@,
        )),
{
    reveal_strlit("2.0");
    reveal_strlit("code");
    reveal_strlit("completion/complete");
    reveal_strlit("data");
    reveal_strlit("error");
    reveal_strlit("id");
    reveal_strlit("initialize");
    reveal_strlit("jsonrpc");
    reveal_strlit("logging/setLevel");
    reveal_strlit("message");
    reveal_strlit("method");
    reveal_strlit("notifications/cancelled");
    reveal_strlit("notifications/initialized");
    reveal_strlit("notifications/message");
    reveal_strlit("notifications/progress");
    reveal_strlit("notifications/prompts/list_changed");
    reveal_strlit("notifications/resources/list_changed");
    reveal_strlit("notifications/resources/updated");
    reveal_strlit("notifications/roots/list_changed");
    reveal_strlit("notifications/tools/list_changed");
    reveal_strlit("params");
    reveal_strlit("ping");
    reveal_strlit("prompts/get");
    reveal_strlit("prompts/list");
    reveal_strlit("resources/list");
    reveal_strlit("resources/read");
    reveal_strlit("resources/subscribe");
    reveal_strlit("resources/templates/list");
    reveal_strlit("resources/unsubscribe");
    reveal_strlit("result");
    reveal_strlit("roots/list");
    reveal_strlit("sampling/createMessage");
    reveal_strlit("tools/call");
    reveal_strlit("tools/list");
    assert("2.0"@.len() == 3);
    assert("2.0"@.index(0) == '2');
    assert("2.0"@.index(1) == '.');
    assert("2.0"@.index(2) == '0');
    assert("code"@.len() == 4);
    assert("code"@.index(0) == 'c');
    assert("code"@.index(1) == 'o');
    assert("code"@.index(2) == 'd');
    assert("code"@.index(3) == 'e');
    assert("completion/complete"@.len() == 19);
    assert("completion/complete"@.index(0) == 'c');
    assert("completion/complete"@.index(1) == 'o');
    assert("completion/complete"@.index(2) == 'm');
    assert("completion/complete"@.index(3) == 'p');
    assert("completion/complete"@.index(4) == 'l');
    assert("completion/complete"@.index(5) == 'e');
    assert("completion/complete"@.index(6) == 't');
    assert("completion/complete"@.index(7) == 'i');
    assert("completion/complete"@.index(8) == 'o');
    assert("completion/complete"@.index(9) == 'n');
    assert("completion/complete"@.index(10) == '/');
    assert("completion/complete"@.index(11) == 'c');
    assert("completion/complete"@.index(12) == 'o');
    assert("completion/complete"@.index(13) == 'm');
    assert("completion/complete"@.index(14) == 'p');
    assert("completion/complete"@.index(15) == 'l');
    assert("completion/complete"@.index(16) == 'e');
    assert("completion/complete"@.index(17) == 't');
    assert("completion/complete"@.index(18) == 'e');
    assert("data"@.len() == 4);
    assert("data"@.index(0) == 'd');
    assert("data"@.index(1) == 'a');
    assert("data"@.index(2) == 't');
    assert("data"@.index(3) == 'a');
    assert("error"@.len() == 5);
    assert("error"@.index(0) == 'e');
    assert("error"@.index(1) == 'r');
    assert("error"@.index(2) == 'r');
    assert("error"@.index(3) == 'o');
    assert("error"@.index(4) == 'r');
    assert("id"@.len() == 2);
    assert("id"@.index(0) == 'i');
    assert("id"@.index(1) == 'd');
    assert("initialize"@.len() == 10);
    assert("initialize"@.index(0) == 'i');
    assert("initialize"@.index(1) == 'n');
    assert("initialize"@.index(2) == 'i');
    assert("initialize"@.index(3) == 't');
    assert("initialize"@.index(4) == 'i');
    assert("initialize"@.index(5) == 'a');
    assert("initialize"@.index(6) == 'l');
    assert("initialize"@.index(7) == 'i');
    assert("initialize"@.index(8) == 'z');
    assert("initialize"@.index(9) == 'e');
    assert("jsonrpc"@.len() == 7);
    assert("jsonrpc"@.index(0) == 'j');
    assert("jsonrpc"@.index(1) == 's');
    assert("jsonrpc"@.index(2) == 'o');
    assert("jsonrpc"@.index(3) == 'n');
    assert("jsonrpc"@.index(4) == 'r');
    assert("jsonrpc"@.index(5) == 'p');
    assert("jsonrpc"@.index(6) == 'c');
    assert("logging/setLevel"@.len() == 16);
    assert("logging/setLevel"@.index(0) == 'l');
    assert("logging/setLevel"@.index(1) == 'o');
    assert("logging/setLevel"@.index(2) == 'g');
    assert("logging/setLevel"@.index(3) == 'g');
    assert("logging/setLevel"@.index(4) == 'i');
    assert("logging/setLevel"@.index(5) == 'n');
    assert("logging/setLevel"@.index(6) == 'g');
    assert("logging/setLevel"@.index(7) == '/');
    assert("logging/setLevel"@.index(8) == 's');
    assert("logging/setLevel"@.index(9) == 'e');
    assert("logging/setLevel"@.index(10) == 't');
    assert("logging/setLevel"@.index(11) == 'L');
    assert("logging/setLevel"@.index(12) == 'e');
    assert("logging/setLevel"@.index(13) == 'v');
    assert("logging/setLevel"@.index(14) == 'e');
    assert("logging/setLevel"@.index(15) == 'l');
    assert("message"@.len() == 7);
    assert("message"@.index(0) == 'm');
    assert("message"@.index(1) == 'e');
    assert("message"@.index(2) == 's');
    assert("message"@.index(3) == 's');
    assert("message"@.index(4) == 'a');
    assert("message"@.index(5) == 'g');
    assert("message"@.index(6) == 'e');
    assert("method"@.len() == 6);
    assert("method"@.index(0) == 'm');
    assert("method"@.index(1) == 'e');
    assert("method"@.index(2) == 't');
    assert("method"@.index(3) == 'h');
    assert("method"@.index(4) == 'o');
    assert("method"@.index(5) == 'd');
    assert("notifications/cancelled"@.len() == 23);
    assert("notifications/cancelled"@.index(0) == 'n');
    assert("notifications/cancelled"@.index(1) == 'o');
    assert("notifications/cancelled"@.index(2) == 't');
    assert("notifications/cancelled"@.index(3) == 'i');
    assert("notifications/cancelled"@.index(4) == 'f');
    assert("notifications/cancelled"@.index(5) == 'i');
    assert("notifications/cancelled"@.index(6) == 'c');
    assert("notifications/cancelled"@.index(7) == 'a');
    assert("notifications/cancelled"@.index(8) == 't');
    assert("notifications/cancelled"@.index(9) == 'i');
    assert("notifications/cancelled"@.index(10) == 'o');
    assert("notifications/cancelled"@.index(11) == 'n');
    assert("notifications/cancelled"@.index(12) == 's');
    assert("notifications/cancelled"@.index(13) == '/');
    assert("notifications/cancelled"@.index(14) == 'c');
    assert("notifications/cancelled"@.index(15) == 'a');
    assert("notifications/cancelled"@.index(16) == 'n');
    assert("notifications/cancelled"@.index(17) == 'c');
    assert("notifications/cancelled"@.index(18) == 'e');
    assert("notifications/cancelled"@.index(19) == 'l');
    assert("notifications/cancelled"@.index(20) == 'l');
    assert("notifications/cancelled"@.index(21) == 'e');
    assert("notifications/cancelled"@.index(22) == 'd');
    assert("notifications/initialized"@.len() == 25);
    assert("notifications/initialized"@.index(0) == 'n');
    assert("notifications/initialized"@.index(1) == 'o');
    assert("notifications/initialized"@.index(2) == 't');
    assert("notifications/initialized"@.index(3) == 'i');
    assert("notifications/initialized"@.index(4) == 'f');
    assert("notifications/initialized"@.index(5) == 'i');
    assert("notifications/initialized"@.index(6) == 'c');
    assert("notifications/initialized"@.index(7) == 'a');
    assert("notifications/initialized"@.index(8) == 't');
    assert("notifications/initialized"@.index(9) == 'i');
    assert("notifications/initialized"@.index(10) == 'o');
    assert("notifications/initialized"@.index(11) == 'n');
    assert("notifications/initialized"@.index(12) == 's');
    assert("notifications/initialized"@.index(13) == '/');
    assert("notifications/initialized"@.index(14) == 'i');
    assert("notifications/initialized"@.index(15) == 'n');
    assert("notifications/initialized"@.index(16) == 'i');
    assert("notifications/initialized"@.index(17) == 't');
    assert("notifications/initialized"@.index(18) == 'i');
    assert("notifications/initialized"@.index(19) == 'a');
    assert("notifications/initialized"@.index(20) == 'l');
    assert("notifications/initialized"@.index(21) == 'i');
    assert("notifications/initialized"@.index(22) == 'z');
    assert("notifications/initialized"@.index(23) == 'e');
    assert("notifications/initialized"@.index(24) == 'd');
    assert("notifications/message"@.len() == 21);
    assert("notifications/message"@.index(0) == 'n');
    assert("notifications/message"@.index(1) == 'o');
    assert("notifications/message"@.index(2) == 't');
    assert("notifications/message"@.index(3) == 'i');
    assert("notifications/message"@.index(4) == 'f');
    assert("notifications/message"@.index(5) == 'i');
    assert("notifications/message"@.index(6) == 'c');
    assert("notifications/message"@.index(7) == 'a');
    assert("notifications/message"@.index(8) == 't');
    assert("notifications/message"@.index(9) == 'i');
    assert("notifications/message"@.index(10) == 'o');
    assert("notifications/message"@.index(11) == 'n');
    assert("notifications/message"@.index(12) == 's');
    assert("notifications/message"@.index(13) == '/');
    assert("notifications/message"@.index(14) == 'm');
    assert("notifications/message"@.index(15) == 'e');
    assert("notifications/message"@.index(16) == 's');
    assert("notifications/message"@.index(17) == 's');
    assert("notifications/message"@.index(18) == 'a');
    assert("notifications/message"@.index(19) == 'g');
    assert("notifications/message"@.index(20) == 'e');
    assert("notifications/progress"@.len() == 22);
    assert("notifications/progress"@.index(0) == 'n');
    assert("notifications/progress"@.index(1) == 'o');
    assert("notifications/progress"@.index(2) == 't');
    assert("notifications/progress"@.index(3) == 'i');
    assert("notifications/progress"@.index(4) == 'f');
    assert("notifications/progress"@.index(5) == 'i');
    assert("notifications/progress"@.index(6) == 'c');
    assert("notifications/progress"@.index(7) == 'a');
    assert("notifications/progress"@.index(8) == 't');
    assert("notifications/progress"@.index(9) == 'i');
    assert("notifications/progress"@.index(10) == 'o');
    assert("notifications/progress"@.index(11) == 'n');
    assert("notifications/progress"@.index(12) == 's');
    assert("notifications/progress"@.index(13) == '/');
    assert("notifications/progress"@.index(14) == 'p');
    assert("notifications/progress"@.index(15) == 'r');
    assert("notifications/progress"@.index(16) == 'o');
    assert("notifications/progress"@.index(17) == 'g');
    assert("notifications/progress"@.index(18) == 'r');
    assert("notifications/progress"@.index(19) == 'e');
    assert("notifications/progress"@.index(20) == 's');
    assert("notifications/progress"@.index(21) == 's');
    assert("notifications/prompts/list_changed"@.len() == 34);
    assert("notifications/prompts/list_changed"@.index(0) == 'n');
    assert("notifications/prompts/list_changed"@.index(1) == 'o');
    assert("notifications/prompts/list_changed"@.index(2) == 't');
    assert("notifications/prompts/list_changed"@.index(3) == 'i');
    assert("notifications/prompts/list_changed"@.index(4) == 'f');
    assert("notifications/prompts/list_changed"@.index(5) == 'i');
    assert("notifications/prompts/list_changed"@.index(6) == 'c');
    assert("notifications/prompts/list_changed"@.index(7) == 'a');
    assert("notifications/prompts/list_changed"@.index(8) == 't');
    assert("notifications/prompts/list_changed"@.index(9) == 'i');
    assert("notifications/prompts/list_changed"@.index(10) == 'o');
    assert("notifications/prompts/list_changed"@.index(11) == 'n');
    assert("notifications/prompts/list_changed"@.index(12) == 's');
    assert("notifications/prompts/list_changed"@.index(13) == '/');
    assert("notifications/prompts/list_changed"@.index(14) == 'p');
    assert("notifications/prompts/list_changed"@.index(15) == 'r');
    assert("notifications/prompts/list_changed"@.index(16) == 'o');
    assert("notifications/prompts/list_changed"@.index(17) == 'm');
    assert("notifications/prompts/list_changed"@.index(18) == 'p');
    assert("notifications/prompts/list_changed"@.index(19) == 't');
    assert("notifications/prompts/list_changed"@.index(20) == 's');
    assert("notifications/prompts/list_changed"@.index(21) == '/');
    assert("notifications/prompts/list_changed"@.index(22) == 'l');
    assert("notifications/prompts/list_changed"@.index(23) == 'i');
    assert("notifications/prompts/list_changed"@.index(24) == 's');
    assert("notifications/prompts/list_changed"@.index(25) == 't');
    assert("notifications/prompts/list_changed"@.index(26) == '_');
    assert("notifications/prompts/list_changed"@.index(27) == 'c');
    assert("notifications/prompts/list_changed"@.index(28) == 'h');
    assert("notifications/prompts/list_changed"@.index(29) == 'a');
    assert("notifications/prompts/list_changed"@.index(30) == 'n');
    assert("notifications/prompts/list_changed"@.index(31) == 'g');
    assert("notifications/prompts/list_changed"@.index(32) == 'e');
    assert("notifications/prompts/list_changed"@.index(33) == 'd');
    assert("notifications/resources/list_changed"@.len() == 36);
    assert("notifications/resources/list_changed"@.index(0) == 'n');
    assert("notifications/resources/list_changed"@.index(1) == 'o');
    assert("notifications/resources/list_changed"@.index(2) == 't');
    assert("notifications/resources/list_changed"@.index(3) == 'i');
    assert("notifications/resources/list_changed"@.index(4) == 'f');
    assert("notifications/resources/list_changed"@.index(5) == 'i');
    assert("notifications/resources/list_changed"@.index(6) == 'c');
    assert("notifications/resources/list_changed"@.index(7) == 'a');
    assert("notifications/resources/list_changed"@.index(8) == 't');
    assert("notifications/resources/list_changed"@.index(9) == 'i');
    assert("notifications/resources/list_changed"@.index(10) == 'o');
    assert("notifications/resources/list_changed"@.index(11) == 'n');
    assert("notifications/resources/list_changed"@.index(12) == 's');
    assert("notifications/resources/list_changed"@.index(13) == '/');
    assert("notifications/resources/list_changed"@.index(14) == 'r');
    assert("notifications/resources/list_changed"@.index(15) == 'e');
    assert("notifications/resources/list_changed"@.index(16) == 's');
    assert("notifications/resources/list_changed"@.index(17) == 'o');
    assert("notifications/resources/list_changed"@.index(18) == 'u');
    assert("notifications/resources/list_changed"@.index(19) == 'r');
    assert("notifications/resources/list_changed"@.index(20) == 'c');
    assert("notifications/resources/list_changed"@.index(21) == 'e');
    assert("notifications/resources/list_changed"@.index(22) == 's');
    assert("notifications/resources/list_changed"@.index(23) == '/');
    assert("notifications/resources/list_changed"@.index(24) == 'l');
    assert("notifications/resources/list_changed"@.index(25) == 'i');
    assert("notifications/resources/list_changed"@.index(26) == 's');
    assert("notifications/resources/list_changed"@.index(27) == 't');
    assert("notifications/resources/list_changed"@.index(28) == '_');
    assert("notifications/resources/list_changed"@.index(29) == 'c');
    assert("notifications/resources/list_changed"@.index(30) == 'h');
    assert("notifications/resources/list_changed"@.index(31) == 'a');
    assert("notifications/resources/list_changed"@.index(32) == 'n');
    assert("notifications/resources/list_changed"@.index(33) == 'g');
    assert("notifications/resources/list_changed"@.index(34) == 'e');
    assert("notifications/resources/list_changed"@.index(35) == 'd');
    assert("notifications/resources/updated"@.len() == 31);
    assert("notifications/resources/updated"@.index(0) == 'n');
    assert("notifications/resources/updated"@.index(1) == 'o');
    assert("notifications/resources/updated"@.index(2) == 't');
    assert("notifications/resources/updated"@.index(3) == 'i');
    assert("notifications/resources/updated"@.index(4) == 'f');
    assert("notifications/resources/updated"@.index(5) == 'i');
    assert("notifications/resources/updated"@.index(6) == 'c');
    assert("notifications/resources/updated"@.index(7) == 'a');
    assert("notifications/resources/updated"@.index(8) == 't');
    assert("notifications/resources/updated"@.index(9) == 'i');
    assert("notifications/resources/updated"@.index(10) == 'o');
    assert("notifications/resources/updated"@.index(11) == 'n');
    assert("notifications/resources/updated"@.index(12) == 's');
    assert("notifications/resources/updated"@.index(13) == '/');
    assert("notifications/resources/updated"@.index(14) == 'r');
    assert("notifications/resources/updated"@.index(15) == 'e');
    assert("notifications/resources/updated"@.index(16) == 's');
    assert("notifications/resources/updated"@.index(17) == 'o');
    assert("notifications/resources/updated"@.index(18) == 'u');
    assert("notifications/resources/updated"@.index(19) == 'r');
    assert("notifications/resources/updated"@.index(20) == 'c');
    assert("notifications/resources/updated"@.index(21) == 'e');
    assert("notifications/resources/updated"@.index(22) == 's');
    assert("notifications/resources/updated"@.index(23) == '/');
    assert("notifications/resources/updated"@.index(24) == 'u');
    assert("notifications/resources/updated"@.index(25) == 'p');
    assert("notifications/resources/updated"@.index(26) == 'd');
    assert("notifications/resources/updated"@.index(27) == 'a');
    assert("notifications/resources/updated"@.index(28) == 't');
    assert("notifications/resources/updated"@.index(29) == 'e');
    assert("notifications/resources/updated"@.index(30) == 'd');
    assert("notifications/roots/list_changed"@.len() == 32);
    assert("notifications/roots/list_changed"@.index(0) == 'n');
    assert("notifications/roots/list_changed"@.index(1) == 'o');
    assert("notifications/roots/list_changed"@.index(2) == 't');
    assert("notifications/roots/list_changed"@.index(3) == 'i');
    assert("notifications/roots/list_changed"@.index(4) == 'f');
    assert("notifications/roots/list_changed"@.index(5) == 'i');
    assert("notifications/roots/list_changed"@.index(6) == 'c');
    assert("notifications/roots/list_changed"@.index(7) == 'a');
    assert("notifications/roots/list_changed"@.index(8) == 't');
    assert("notifications/roots/list_changed"@.index(9) == 'i');
    assert("notifications/roots/list_changed"@.index(10) == 'o');
    assert("notifications/roots/list_changed"@.index(11) == 'n');
    assert("notifications/roots/list_changed"@.index(12) == 's');
    assert("notifications/roots/list_changed"@.index(13) == '/');
    assert("notifications/roots/list_changed"@.index(14) == 'r');
    assert("notifications/roots/list_changed"@.index(15) == 'o');
    assert("notifications/roots/list_changed"@.index(16) == 'o');
    assert("notifications/roots/list_changed"@.index(17) == 't');
    assert("notifications/roots/list_changed"@.index(18) == 's');
    assert("notifications/roots/list_changed"@.index(19) == '/');
    assert("notifications/roots/list_changed"@.index(20) == 'l');
    assert("notifications/roots/list_changed"@.index(21) == 'i');
    assert("notifications/roots/list_changed"@.index(22) == 's');
    assert("notifications/roots/list_changed"@.index(23) == 't');
    assert("notifications/roots/list_changed"@.index(24) == '_');
    assert("notifications/roots/list_changed"@.index(25) == 'c');
    assert("notifications/roots/list_changed"@.index(26) == 'h');
    assert("notifications/roots/list_changed"@.index(27) == 'a');
    assert("notifications/roots/list_changed"@.index(28) == 'n');
    assert("notifications/roots/list_changed"@.index(29) == 'g');
    assert("notifications/roots/list_changed"@.index(30) == 'e');
    assert("notifications/roots/list_changed"@.index(31) == 'd');
    assert("notifications/tools/list_changed"@.len() == 32);
    assert("notifications/tools/list_changed"@.index(0) == 'n');
    assert("notifications/tools/list_changed"@.index(1) == 'o');
    assert("notifications/tools/list_changed"@.index(2) == 't');
    assert("notifications/tools/list_changed"@.index(3) == 'i');
    assert("notifications/tools/list_changed"@.index(4) == 'f');
    assert("notifications/tools/list_changed"@.index(5) == 'i');
    assert("notifications/tools/list_changed"@.index(6) == 'c');
    assert("notifications/tools/list_changed"@.index(7) == 'a');
    assert("notifications/tools/list_changed"@.index(8) == 't');
    assert("notifications/tools/list_changed"@.index(9) == 'i');
    assert("notifications/tools/list_changed"@.index(10) == 'o');
    assert("notifications/tools/list_changed"@.index(11) == 'n');
    assert("notifications/tools/list_changed"@.index(12) == 's');
    assert("notifications/tools/list_changed"@.index(13) == '/');
    assert("notifications/tools/list_changed"@.index(14) == 't');
    assert("notifications/tools/list_changed"@.index(15) == 'o');
    assert("notifications/tools/list_changed"@.index(16) == 'o');
    assert("notifications/tools/list_changed"@.index(17) == 'l');
    assert("notifications/tools/list_changed"@.index(18) == 's');
    assert("notifications/tools/list_changed"@.index(19) == '/');
    assert("notifications/tools/list_changed"@.index(20) == 'l');
    assert("notifications/tools/list_changed"@.index(21) == 'i');
    assert("notifications/tools/list_changed"@.index(22) == 's');
    assert("notifications/tools/list_changed"@.index(23) == 't');
    assert("notifications/tools/list_changed"@.index(24) == '_');
    assert("notifications/tools/list_changed"@.index(25) == 'c');
    assert("notifications/tools/list_changed"@.index(26) == 'h');
    assert("notifications/tools/list_changed"@.index(27) == 'a');
    assert("notifications/tools/list_changed"@.index(28) == 'n');
    assert("notifications/tools/list_changed"@.index(29) == 'g');
    assert("notifications/tools/list_changed"@.index(30) == 'e');
    assert("notifications/tools/list_changed"@.index(31) == 'd');
    assert("params"@.len() == 6);
    assert("params"@.index(0) == 'p');
    assert("params"@.index(1) == 'a');
    assert("params"@.index(2) == 'r');
    assert("params"@.index(3) == 'a');
    assert("params"@.index(4) == 'm');
    assert("params"@.index(5) == 's');
    assert("ping"@.len() == 4);
    assert("ping"@.index(0) == 'p');
    assert("ping"@.index(1) == 'i');
    assert("ping"@.index(2) == 'n');
    assert("ping"@.index(3) == 'g');
    assert("prompts/get"@.len() == 11);
    assert("prompts/get"@.index(0) == 'p');
    assert("prompts/get"@.index(1) == 'r');
    assert("prompts/get"@.index(2) == 'o');
    assert("prompts/get"@.index(3) == 'm');
    assert("prompts/get"@.index(4) == 'p');
    assert("prompts/get"@.index(5) == 't');
    assert("prompts/get"@.index(6) == 's');
    assert("prompts/get"@.index(7) == '/');
    assert("prompts/get"@.index(8) == 'g');
    assert("prompts/get"@.index(9) == 'e');
    assert("prompts/get"@.index(10) == 't');
    assert("prompts/list"@.len() == 12);
    assert("prompts/list"@.index(0) == 'p');
    assert("prompts/list"@.index(1) == 'r');
    assert("prompts/list"@.index(2) == 'o');
    assert("prompts/list"@.index(3) == 'm');
    assert("prompts/list"@.index(4) == 'p');
    assert("prompts/list"@.index(5) == 't');
    assert("prompts/list"@.index(6) == 's');
    assert("prompts/list"@.index(7) == '/');
    assert("prompts/list"@.index(8) == 'l');
    assert("prompts/list"@.index(9) == 'i');
    assert("prompts/list"@.index(10) == 's');
    assert("prompts/list"@.index(11) == 't');
    assert("resources/list"@.len() == 14);
    assert("resources/list"@.index(0) == 'r');
    assert("resources/list"@.index(1) == 'e');
    assert("resources/list"@.index(2) == 's');
    assert("resources/list"@.index(3) == 'o');
    assert("resources/list"@.index(4) == 'u');
    assert("resources/list"@.index(5) == 'r');
    assert("resources/list"@.index(6) == 'c');
    assert("resources/list"@.index(7) == 'e');
    assert("resources/list"@.index(8) == 's');
    assert("resources/list"@.index(9) == '/');
    assert("resources/list"@.index(10) == 'l');
    assert("resources/list"@.index(11) == 'i');
    assert("resources/list"@.index(12) == 's');
    assert("resources/list"@.index(13) == 't');
    assert("resources/read"@.len() == 14);
    assert("resources/read"@.index(0) == 'r');
    assert("resources/read"@.index(1) == 'e');
    assert("resources/read"@.index(2) == 's');
    assert("resources/read"@.index(3) == 'o');
    assert("resources/read"@.index(4) == 'u');
    assert("resources/read"@.index(5) == 'r');
    assert("resources/read"@.index(6) == 'c');
    assert("resources/read"@.index(7) == 'e');
    assert("resources/read"@.index(8) == 's');
    assert("resources/read"@.index(9) == '/');
    assert("resources/read"@.index(10) == 'r');
    assert("resources/read"@.index(11) == 'e');
    assert("resources/read"@.index(12) == 'a');
    assert("resources/read"@.index(13) == 'd');
    assert("resources/subscribe"@.len() == 19);
    assert("resources/subscribe"@.index(0) == 'r');
    assert("resources/subscribe"@.index(1) == 'e');
    assert("resources/subscribe"@.index(2) == 's');
    assert("resources/subscribe"@.index(3) == 'o');
    assert("resources/subscribe"@.index(4) == 'u');
    assert("resources/subscribe"@.index(5) == 'r');
    assert("resources/subscribe"@.index(6) == 'c');
    assert("resources/subscribe"@.index(7) == 'e');
    assert("resources/subscribe"@.index(8) == 's');
    assert("resources/subscribe"@.index(9) == '/');
    assert("resources/subscribe"@.index(10) == 's');
    assert("resources/subscribe"@.index(11) == 'u');
    assert("resources/subscribe"@.index(12) == 'b');
    assert("resources/subscribe"@.index(13) == 's');
    assert("resources/subscribe"@.index(14) == 'c');
    assert("resources/subscribe"@.index(15) == 'r');
    assert("resources/subscribe"@.index(16) == 'i');
    assert("resources/subscribe"@.index(17) == 'b');
    assert("resources/subscribe"@.index(18) == 'e');
    assert("resources/templates/list"@.len() == 24);
    assert("resources/templates/list"@.index(0) == 'r');
    assert("resources/templates/list"@.index(1) == 'e');
    assert("resources/templates/list"@.index(2) == 's');
    assert("resources/templates/list"@.index(3) == 'o');
    assert("resources/templates/list"@.index(4) == 'u');
    assert("resources/templates/list"@.index(5) == 'r');
    assert("resources/templates/list"@.index(6) == 'c');
    assert("resources/templates/list"@.index(7) == 'e');
    assert("resources/templates/list"@.index(8) == 's');
    assert("resources/templates/list"@.index(9) == '/');
    assert("resources/templates/list"@.index(10) == 't');
    assert("resources/templates/list"@.index(11) == 'e');
    assert("resources/templates/list"@.index(12) == 'm');
    assert("resources/templates/list"@.index(13) == 'p');
    assert("resources/templates/list"@.index(14) == 'l');
    assert("resources/templates/list"@.index(15) == 'a');
    assert("resources/templates/list"@.index(16) == 't');
    assert("resources/templates/list"@.index(17) == 'e');
    assert("resources/templates/list"@.index(18) == 's');
    assert("resources/templates/list"@.index(19) == '/');
    assert("resources/templates/list"@.index(20) == 'l');
    assert("resources/templates/list"@.index(21) == 'i');
    assert("resources/templates/list"@.index(22) == 's');
    assert("resources/templates/list"@.index(23) == 't');
    assert("resources/unsubscribe"@.len() == 21);
    assert("resources/unsubscribe"@.index(0) == 'r');
    assert("resources/unsubscribe"@.index(1) == 'e');
    assert("resources/unsubscribe"@.index(2) == 's');
    assert("resources/unsubscribe"@.index(3) == 'o');
    assert("resources/unsubscribe"@.index(4) == 'u');
    assert("resources/unsubscribe"@.index(5) == 'r');
    assert("resources/unsubscribe"@.index(6) == 'c');
    assert("resources/unsubscribe"@.index(7) == 'e');
    assert("resources/unsubscribe"@.index(8) == 's');
    assert("resources/unsubscribe"@.index(9) == '/');
    assert("resources/unsubscribe"@.index(10) == 'u');
    assert("resources/unsubscribe"@.index(11) == 'n');
    assert("resources/unsubscribe"@.index(12) == 's');
    assert("resources/unsubscribe"@.index(13) == 'u');
    assert("resources/unsubscribe"@.index(14) == 'b');
    assert("resources/unsubscribe"@.index(15) == 's');
    assert("resources/unsubscribe"@.index(16) == 'c');
    assert("resources/unsubscribe"@.index(17) == 'r');
    assert("resources/unsubscribe"@.index(18) == 'i');
    assert("resources/unsubscribe"@.index(19) == 'b');
    assert("resources/unsubscribe"@.index(20) == 'e');
    assert("result"@.len() == 6);
    assert("result"@.index(0) == 'r');
    assert("result"@.index(1) == 'e');
    assert("result"@.index(2) == 's');
    assert("result"@.index(3) == 'u');
    assert("result"@.index(4) == 'l');
    assert("result"@.index(5) == 't');
    assert("roots/list"@.len() == 10);
    assert("roots/list"@.index(0) == 'r');
    assert("roots/list"@.index(1) == 'o');
    assert("roots/list"@.index(2) == 'o');
    assert("roots/list"@.index(3) == 't');
    assert("roots/list"@.index(4) == 's');
    assert("roots/list"@.index(5) == '/');
    assert("roots/list"@.index(6) == 'l');
    assert("roots/list"@.index(7) == 'i');
    assert("roots/list"@.index(8) == 's');
    assert("roots/list"@.index(9) == 't');
    assert("sampling/createMessage"@.len() == 22);
    assert("sampling/createMessage"@.index(0) == 's');
    assert("sampling/createMessage"@.index(1) == 'a');
    assert("sampling/createMessage"@.index(2) == 'm');
    assert("sampling/createMessage"@.index(3) == 'p');
    assert("sampling/createMessage"@.index(4) == 'l');
    assert("sampling/createMessage"@.index(5) == 'i');
    assert("sampling/createMessage"@.index(6) == 'n');
    assert("sampling/createMessage"@.index(7) == 'g');
    assert("sampling/createMessage"@.index(8) == '/');
    assert("sampling/createMessage"@.index(9) == 'c');
    assert("sampling/createMessage"@.index(10) == 'r');
    assert("sampling/createMessage"@.index(11) == 'e');
    assert("sampling/createMessage"@.index(12) == 'a');
    assert("sampling/createMessage"@.index(13) == 't');
    assert("sampling/createMessage"@.index(14) == 'e');
    assert("sampling/createMessage"@.index(15) == 'M');
    assert("sampling/createMessage"@.index(16) == 'e');
    assert("sampling/createMessage"@.index(17) == 's');
    assert("sampling/createMessage"@.index(18) == 's');
    assert("sampling/createMessage"@.index(19) == 'a');
    assert("sampling/createMessage"@.index(20) == 'g');
    assert("sampling/createMessage"@.index(21) == 'e');
    assert("tools/call"@.len() == 10);
    assert("tools/call"@.index(0) == 't');
    assert("tools/call"@.index(1) == 'o');
    assert("tools/call"@.index(2) == 'o');
    assert("tools/call"@.index(3) == 'l');
    assert("tools/call"@.index(4) == 's');
    assert("tools/call"@.index(5) == '/');
    assert("tools/call"@.index(6) == 'c');
    assert("tools/call"@.index(7) == 'a');
    assert("tools/call"@.index(8) == 'l');
    assert("tools/call"@.index(9) == 'l');
    assert("tools/list"@.len() == 10);
    assert("tools/list"@.index(0) == 't');
    assert("tools/list"@.index(1) == 'o');
    assert("tools/list"@.index(2) == 'o');
    assert("tools/list"@.index(3) == 'l');
    assert("tools/list"@.index(4) == 's');
    assert("tools/list"@.index(5) == '/');
    assert("tools/list"@.index(6) == 'l');
    assert("tools/list"@.index(7) == 'i');
    assert("tools/list"@.index(8) == 's');
    assert("tools/list"@.index(9) == 't');
    match m {
        JsonRpcMessageV::Request(e) => {
            match e.request {
                ServerRequestV::PingRequest => {},
                ServerRequestV::CreateMessageRequest(_) => {},
                ServerRequestV::ListRootsRequest => {},
            }
        },
        JsonRpcMessageV::Response(e) => {},
        JsonRpcMessageV::Notification(e) => {
            match e.notification {
                ServerNotificationV::CancelledNotification(_) => {},
                ServerNotificationV::ProgressNotification(_) => {},
                ServerNotificationV::LoggingMessageNotification(_) => {},
                ServerNotificationV::ResourceUpdatedNotification(_) => {},
                ServerNotificationV::ResourceListChangedNotification => {},
                ServerNotificationV::ToolListChangedNotification => {},
                ServerNotificationV::PromptListChangedNotification => {},
            }
        },
        JsonRpcMessageV::Error(e) => {},
    }
}

} // verus!
