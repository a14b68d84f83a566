//! JSON-RPC 2.0 envelopes: request ids, the four envelope shapes, the wire
//! error record, and the conversions between the wire-level envelope union
//! and the session-level message union.

use vstd::prelude::*;

use crate::json::{jv, JsonV, JsonValue};

verus! {

/// A JSON-RPC id: an integer or an opaque string.
#[derive(Debug, PartialEq, Eq, Hash)]
pub enum NumberOrString {
    Number(u32),
    String(String),
}

/// Mirror of [`NumberOrString`].
pub ghost enum NumberOrStringV {
    Number(u32),
    Str(Seq<char>),
}

impl DeepView for NumberOrString {
    type V = NumberOrStringV;

    open spec fn deep_view(&self) -> NumberOrStringV {
        match self {
            NumberOrString::Number(n) => NumberOrStringV::Number(*n),
            NumberOrString::String(s) => NumberOrStringV::Str(s@),
        }
    }
}

impl NumberOrString {
    /// An owned copy of this id.
    pub fn duplicate(&self) -> (r: NumberOrString)
        ensures
            r.deep_view() == self.deep_view(),
    {
        match self {
            NumberOrString::Number(n) => NumberOrString::Number(*n),
            NumberOrString::String(s) => NumberOrString::String(s.clone()),
        }
    }
}

pub type RequestId = NumberOrString;

pub type ProgressToken = NumberOrString;

/// How an id stands in a JSON unit: a number or a string.
pub open spec fn enc_id(i: NumberOrStringV) -> JsonV {
    match i {
        NumberOrStringV::Number(n) => JsonV::Int(n as int),
        NumberOrStringV::Str(s) => JsonV::Str(s),
    }
}

/// An id read back from a JSON unit: a non-negative integer no wider than
/// 32 bits, or any string; every other value is no id.
pub open spec fn dec_id(v: JsonV) -> Option<NumberOrStringV> {
    match v {
        JsonV::Int(i) => if 0 <= i <= u32::MAX {
            Some(NumberOrStringV::Number(i as u32))
        } else {
            None
        },
        JsonV::Str(s) => Some(NumberOrStringV::Str(s)),
        _ => None,
    }
}

/// Ids survive the wire: decoding an encoded id gives it back.
pub proof fn lemma_id_round_trip(i: NumberOrStringV)
    ensures
        dec_id(enc_id(i)) == Some(i),
{
}

impl NumberOrString {
    /// This id as a JSON value.
    pub fn to_json(&self) -> (r: JsonValue)
        ensures
            jv(r) == enc_id(self.deep_view()),
    {
        match self {
            NumberOrString::Number(n) => JsonValue::Int(*n as i64),
            NumberOrString::String(s) => JsonValue::Str(s.clone()),
        }
    }

    /// The id a JSON value holds, if any.
    pub fn from_json(v: &JsonValue) -> (r: Option<NumberOrString>)
        ensures
            r.deep_view() == dec_id(jv(*v)),
    {
        match v {
            JsonValue::Int(i) => {
                if 0 <= *i && *i <= u32::MAX as i64 {
                    Some(NumberOrString::Number(*i as u32))
                } else {
                    None
                }
            },
            JsonValue::Str(s) => Some(NumberOrString::String(s.clone())),
            _ => None,
        }
    }
}

/// The character of one decimal digit.
pub open spec fn decimal_digit(d: nat) -> char {
    if d == 0 {
        '0'
    } else if d == 1 {
        '1'
    } else if d == 2 {
        '2'
    } else if d == 3 {
        '3'
    } else if d == 4 {
        '4'
    } else if d == 5 {
        '5'
    } else if d == 6 {
        '6'
    } else if d == 7 {
        '7'
    } else if d == 8 {
        '8'
    } else {
        '9'
    }
}

/// The decimal spelling of a number, most significant digit first, no
/// leading zeroes but for zero itself.
pub open spec fn decimal_str(n: nat) -> Seq<char>
    decreases n,
{
    if n < 10 {
        seq![decimal_digit(n)]
    } else {
        decimal_str(n / 10) + seq![decimal_digit(n % 10)]
    }
}

/// One digit as text.
fn digit_str(d: u32) -> (r: &'static str)
    requires
        d < 10,
    ensures
        r@ == seq![decimal_digit(d as nat)],
{
    proof {
        reveal_strlit("0");
        reveal_strlit("1");
        reveal_strlit("2");
        reveal_strlit("3");
        reveal_strlit("4");
        reveal_strlit("5");
        reveal_strlit("6");
        reveal_strlit("7");
        reveal_strlit("8");
        reveal_strlit("9");
        assert("0"@.len() == 1 && "0"@.index(0) == '0');
        assert("1"@.len() == 1 && "1"@.index(0) == '1');
        assert("2"@.len() == 1 && "2"@.index(0) == '2');
        assert("3"@.len() == 1 && "3"@.index(0) == '3');
        assert("4"@.len() == 1 && "4"@.index(0) == '4');
        assert("5"@.len() == 1 && "5"@.index(0) == '5');
        assert("6"@.len() == 1 && "6"@.index(0) == '6');
        assert("7"@.len() == 1 && "7"@.index(0) == '7');
        assert("8"@.len() == 1 && "8"@.index(0) == '8');
        assert("9"@.len() == 1 && "9"@.index(0) == '9');
    }
    let r: &'static str = match d {
        0 => "0",
        1 => "1",
        2 => "2",
        3 => "3",
        4 => "4",
        5 => "5",
        6 => "6",
        7 => "7",
        8 => "8",
        _ => "9",
    };
    proof {
        assert(r@ =~= seq![decimal_digit(d as nat)]);
    }
    r
}

/// A number in decimal.
fn u32_decimal(n: u32) -> (r: String)
    ensures
        r@ == decimal_str(n as nat),
    decreases n,
{
    let last = digit_str(n % 10);
    if n < 10 {
        last.to_owned()
    } else {
        proof {
            assert(n / 10 < n) by (nonlinear_arith)
                requires
                    n >= 10,
            ;
        }
        let mut s = u32_decimal(n / 10);
        s.append(last);
        s
    }
}

impl NumberOrString {
    /// The textual form of this id: the number in decimal, or the string
    /// itself.
    pub fn to_display_string(&self) -> (r: String)
        ensures
            r@ == match self.deep_view() {
                NumberOrStringV::Number(n) => decimal_str(n as nat),
                NumberOrStringV::Str(s) => s,
            },
    {
        match self {
            NumberOrString::Number(n) => u32_decimal(*n),
            NumberOrString::String(s) => s.clone(),
        }
    }
}

/// A standard JSON-RPC error code.
#[derive(Debug, Clone, Copy, Default, PartialEq, Eq, Structural)]
pub struct ErrorCode(pub i32);

impl DeepView for ErrorCode {
    type V = ErrorCode;

    open spec fn deep_view(&self) -> ErrorCode {
        *self
    }
}

pub const RESOURCE_NOT_FOUND_CODE: i32 = -32002;

pub const INVALID_REQUEST_CODE: i32 = -32600;

pub const METHOD_NOT_FOUND_CODE: i32 = -32601;

pub const INVALID_PARAMS_CODE: i32 = -32602;

pub const INTERNAL_ERROR_CODE: i32 = -32603;

pub const PARSE_ERROR_CODE: i32 = -32700;

impl ErrorCode {
    /// The requested resource does not exist.
    pub fn resource_not_found() -> (r: Self)
        ensures
            r.0 == RESOURCE_NOT_FOUND_CODE,
    {
        ErrorCode(RESOURCE_NOT_FOUND_CODE)
    }

    /// The unit was not a valid request envelope.
    pub fn invalid_request() -> (r: Self)
        ensures
            r.0 == INVALID_REQUEST_CODE,
    {
        ErrorCode(INVALID_REQUEST_CODE)
    }

    /// The method named by the request is not part of the taxonomy.
    pub fn method_not_found() -> (r: Self)
        ensures
            r.0 == METHOD_NOT_FOUND_CODE,
    {
        ErrorCode(METHOD_NOT_FOUND_CODE)
    }

    /// The parameters did not match the method's shape.
    pub fn invalid_params() -> (r: Self)
        ensures
            r.0 == INVALID_PARAMS_CODE,
    {
        ErrorCode(INVALID_PARAMS_CODE)
    }

    /// The peer failed internally.
    pub fn internal_error() -> (r: Self)
        ensures
            r.0 == INTERNAL_ERROR_CODE,
    {
        ErrorCode(INTERNAL_ERROR_CODE)
    }

    /// The unit was not parseable JSON.
    pub fn parse_error() -> (r: Self)
        ensures
            r.0 == PARSE_ERROR_CODE,
    {
        ErrorCode(PARSE_ERROR_CODE)
    }
}

/// Error information carried by a JSON-RPC error response.
#[derive(Debug, PartialEq)]
pub struct ErrorData {
    /// The error kind that occurred.
    pub code: ErrorCode,
    /// A short, single-sentence description of the error.
    pub message: String,
    /// Sender-defined detail about the error.
    pub data: Option<JsonValue>,
}

/// Mirror of [`ErrorData`].
pub ghost struct ErrorDataV {
    pub code: ErrorCode,
    pub message: Seq<char>,
    pub data: Option<JsonV>,
}

impl DeepView for ErrorData {
    type V = ErrorDataV;

    open spec fn deep_view(&self) -> ErrorDataV {
        ErrorDataV {
            code: self.code,
            message: self.message@,
            data: self.data.deep_view(),
        }
    }
}

impl ErrorData {
    /// An error record from its parts.
    pub fn new(code: ErrorCode, message: String, data: Option<JsonValue>) -> (r: Self)
        ensures
            r.code == code,
            r.message == message,
            r.data == data,
    {
        ErrorData { code, message, data }
    }

    /// A resource-not-found error with the standard code.
    pub fn resource_not_found(message: String, data: Option<JsonValue>) -> (r: Self)
        ensures
            r.code.0 == RESOURCE_NOT_FOUND_CODE,
            r.message == message,
            r.data == data,
    {
        Self::new(ErrorCode::resource_not_found(), message, data)
    }

    /// A parse error with the standard code.
    pub fn parse_error(message: String, data: Option<JsonValue>) -> (r: Self)
        ensures
            r.code.0 == PARSE_ERROR_CODE,
            r.message == message,
            r.data == data,
    {
        Self::new(ErrorCode::parse_error(), message, data)
    }

    /// An invalid-request error with the standard code.
    pub fn invalid_request(message: String, data: Option<JsonValue>) -> (r: Self)
        ensures
            r.code.0 == INVALID_REQUEST_CODE,
            r.message == message,
            r.data == data,
    {
        Self::new(ErrorCode::invalid_request(), message, data)
    }

    /// A method-not-found error: its message is exactly the unmatched
    /// method-tag string, so a caller can recover the attempted method
    /// from the error alone.
    pub fn method_not_found<M: crate::model::ConstString>() -> (r: Self)
        ensures
            r.code.0 == METHOD_NOT_FOUND_CODE,
            r.message@ == M::spec_value(),
            r.data is None,
    {
        Self::new(ErrorCode::method_not_found(), M::value().to_owned(), None)
    }

    /// An invalid-params error with the standard code.
    pub fn invalid_params(message: String, data: Option<JsonValue>) -> (r: Self)
        ensures
            r.code.0 == INVALID_PARAMS_CODE,
            r.message == message,
            r.data == data,
    {
        Self::new(ErrorCode::invalid_params(), message, data)
    }

    /// An internal error with the standard code.
    pub fn internal_error(message: String, data: Option<JsonValue>) -> (r: Self)
        ensures
            r.code.0 == INTERNAL_ERROR_CODE,
            r.message == message,
            r.data == data,
    {
        Self::new(ErrorCode::internal_error(), message, data)
    }
}

/// The protocol-version tag every envelope carries: the literal `"2.0"`.
#[derive(Debug, Clone, Copy, Default, PartialEq, Eq, Structural)]
pub struct JsonRpcVersion2_0;

impl DeepView for JsonRpcVersion2_0 {
    type V = JsonRpcVersion2_0;

    open spec fn deep_view(&self) -> JsonRpcVersion2_0 {
        *self
    }
}

/// A request envelope: an id and the request proper.
#[derive(Debug, PartialEq)]
pub struct JsonRpcRequest<R> {
    pub jsonrpc: JsonRpcVersion2_0,
    pub id: RequestId,
    pub request: R,
}

/// A response envelope: an id and the result.
#[derive(Debug, PartialEq)]
pub struct JsonRpcResponse<R> {
    pub jsonrpc: JsonRpcVersion2_0,
    pub id: RequestId,
    pub result: R,
}

/// An error envelope: an id and the error record.
#[derive(Debug, PartialEq)]
pub struct JsonRpcError {
    pub jsonrpc: JsonRpcVersion2_0,
    pub id: RequestId,
    pub error: ErrorData,
}

/// A notification envelope: no id, fire and forget.
#[derive(Debug, PartialEq)]
pub struct JsonRpcNotification<N> {
    pub jsonrpc: JsonRpcVersion2_0,
    pub notification: N,
}

/// Mirror of [`JsonRpcRequest`].
pub ghost struct JsonRpcRequestV<R> {
    pub id: NumberOrStringV,
    pub request: R,
}

impl<R: DeepView> DeepView for JsonRpcRequest<R> {
    type V = JsonRpcRequestV<R::V>;

    open spec fn deep_view(&self) -> JsonRpcRequestV<R::V> {
        JsonRpcRequestV { id: self.id.deep_view(), request: self.request.deep_view() }
    }
}

/// Mirror of [`JsonRpcResponse`].
pub ghost struct JsonRpcResponseV<R> {
    pub id: NumberOrStringV,
    pub result: R,
}

impl<R: DeepView> DeepView for JsonRpcResponse<R> {
    type V = JsonRpcResponseV<R::V>;

    open spec fn deep_view(&self) -> JsonRpcResponseV<R::V> {
        JsonRpcResponseV { id: self.id.deep_view(), result: self.result.deep_view() }
    }
}

/// Mirror of [`JsonRpcError`].
pub ghost struct JsonRpcErrorV {
    pub id: NumberOrStringV,
    pub error: ErrorDataV,
}

impl DeepView for JsonRpcError {
    type V = JsonRpcErrorV;

    open spec fn deep_view(&self) -> JsonRpcErrorV {
        JsonRpcErrorV { id: self.id.deep_view(), error: self.error.deep_view() }
    }
}

/// Mirror of [`JsonRpcNotification`].
pub ghost struct JsonRpcNotificationV<N> {
    pub notification: N,
}

impl<N: DeepView> DeepView for JsonRpcNotification<N> {
    type V = JsonRpcNotificationV<N::V>;

    open spec fn deep_view(&self) -> JsonRpcNotificationV<N::V> {
        JsonRpcNotificationV { notification: self.notification.deep_view() }
    }
}

/// Mirror of [`JsonRpcMessage`].
pub ghost enum JsonRpcMessageV<Req, Resp, Noti> {
    Request(JsonRpcRequestV<Req>),
    Response(JsonRpcResponseV<Resp>),
    Notification(JsonRpcNotificationV<Noti>),
    Error(JsonRpcErrorV),
}

/// One wire unit: exactly one of the four envelope shapes.
#[derive(Debug, PartialEq)]
pub enum JsonRpcMessage<Req, Resp, Noti> {
    Request(JsonRpcRequest<Req>),
    Response(JsonRpcResponse<Resp>),
    Notification(JsonRpcNotification<Noti>),
    Error(JsonRpcError),
}

impl<Req: DeepView, Resp: DeepView, Noti: DeepView> DeepView for JsonRpcMessage<Req, Resp, Noti> {
    type V = JsonRpcMessageV<Req::V, Resp::V, Noti::V>;

    open spec fn deep_view(&self) -> JsonRpcMessageV<Req::V, Resp::V, Noti::V> {
        match self {
            JsonRpcMessage::Request(e) => JsonRpcMessageV::Request(e.deep_view()),
            JsonRpcMessage::Response(e) => JsonRpcMessageV::Response(e.deep_view()),
            JsonRpcMessage::Notification(e) => JsonRpcMessageV::Notification(e.deep_view()),
            JsonRpcMessage::Error(e) => JsonRpcMessageV::Error(e.deep_view()),
        }
    }
}

/// A session-level unit: an envelope stripped of wire boilerplate.
#[derive(Debug, PartialEq)]
pub enum Message<Req, Resp, Noti> {
    Request(Req, RequestId),
    Response(Resp, RequestId),
    Error(ErrorData, RequestId),
    Notification(Noti),
}

impl<Req, Resp, Noti> JsonRpcMessage<Req, Resp, Noti> {
    /// What [`Self::into_message`] returns.
    pub open spec fn spec_into_message(self) -> Message<Req, Resp, Noti> {
        match self {
            JsonRpcMessage::Request(e) => Message::Request(e.request, e.id),
            JsonRpcMessage::Response(e) => Message::Response(e.result, e.id),
            JsonRpcMessage::Notification(e) => Message::Notification(e.notification),
            JsonRpcMessage::Error(e) => Message::Error(e.error, e.id),
        }
    }

    /// Strips the envelope boilerplate, keeping payload and id.
    pub fn into_message(self) -> (r: Message<Req, Resp, Noti>)
        ensures
            r == self.spec_into_message(),
    {
        match self {
            JsonRpcMessage::Request(JsonRpcRequest { id, request, .. }) => Message::Request(
                request,
                id,
            ),
            JsonRpcMessage::Response(JsonRpcResponse { id, result, .. }) => Message::Response(
                result,
                id,
            ),
            JsonRpcMessage::Notification(JsonRpcNotification { notification, .. }) => {
                Message::Notification(notification)
            },
            JsonRpcMessage::Error(JsonRpcError { id, error, .. }) => Message::Error(error, id),
        }
    }
}

impl<Req, Resp, Noti> Message<Req, Resp, Noti> {
    /// What [`Self::into_json_rpc_message`] returns.
    pub open spec fn spec_into_json_rpc_message(self) -> JsonRpcMessage<Req, Resp, Noti> {
        match self {
            Message::Request(request, id) => JsonRpcMessage::Request(
                JsonRpcRequest { jsonrpc: JsonRpcVersion2_0, id, request },
            ),
            Message::Response(result, id) => JsonRpcMessage::Response(
                JsonRpcResponse { jsonrpc: JsonRpcVersion2_0, id, result },
            ),
            Message::Error(error, id) => JsonRpcMessage::Error(
                JsonRpcError { jsonrpc: JsonRpcVersion2_0, id, error },
            ),
            Message::Notification(notification) => JsonRpcMessage::Notification(
                JsonRpcNotification { jsonrpc: JsonRpcVersion2_0, notification },
            ),
        }
    }

    /// The notification payload, for a notification unit.
    pub fn into_notification(self) -> (r: Option<Noti>)
        ensures
            r == match self {
                Message::Notification(n) => Some(n),
                _ => None::<Noti>,
            },
    {
        match self {
            Message::Notification(notification) => Some(notification),
            _ => None,
        }
    }

    /// The result and id, for a response unit.
    pub fn into_response(self) -> (r: Option<(Resp, RequestId)>)
        ensures
            r == match self {
                Message::Response(resp, id) => Some((resp, id)),
                _ => None::<(Resp, RequestId)>,
            },
    {
        match self {
            Message::Response(result, id) => Some((result, id)),
            _ => None,
        }
    }

    /// The request and id, for a request unit.
    pub fn into_request(self) -> (r: Option<(Req, RequestId)>)
        ensures
            r == match self {
                Message::Request(req, id) => Some((req, id)),
                _ => None::<(Req, RequestId)>,
            },
    {
        match self {
            Message::Request(request, id) => Some((request, id)),
            _ => None,
        }
    }

    /// The error record and id, for an error unit.
    pub fn into_error(self) -> (r: Option<(ErrorData, RequestId)>)
        ensures
            r == match self {
                Message::Error(e, id) => Some((e, id)),
                _ => None::<(ErrorData, RequestId)>,
            },
    {
        match self {
            Message::Error(error, id) => Some((error, id)),
            _ => None,
        }
    }

    /// The outcome a caller awaits: a result or an error, with its id.
    pub fn into_result(self) -> (r: Option<(Result<Resp, ErrorData>, RequestId)>)
        ensures
            r == match self {
                Message::Response(resp, id) => Some((Result::<Resp, ErrorData>::Ok(resp), id)),
                Message::Error(e, id) => Some((Result::<Resp, ErrorData>::Err(e), id)),
                _ => None::<(Result<Resp, ErrorData>, RequestId)>,
            },
    {
        match self {
            Message::Response(result, id) => Some((Ok(result), id)),
            Message::Error(error, id) => Some((Err(error), id)),
            _ => None,
        }
    }

    /// Wraps the unit back into its wire envelope.
    pub fn into_json_rpc_message(self) -> (r: JsonRpcMessage<Req, Resp, Noti>)
        ensures
            r == self.spec_into_json_rpc_message(),
    {
        match self {
            Message::Request(request, id) => JsonRpcMessage::Request(
                JsonRpcRequest { jsonrpc: JsonRpcVersion2_0, id, request },
            ),
            Message::Response(result, id) => JsonRpcMessage::Response(
                JsonRpcResponse { jsonrpc: JsonRpcVersion2_0, id, result },
            ),
            Message::Error(error, id) => JsonRpcMessage::Error(
                JsonRpcError { jsonrpc: JsonRpcVersion2_0, id, error },
            ),
            Message::Notification(notification) => JsonRpcMessage::Notification(
                JsonRpcNotification { jsonrpc: JsonRpcVersion2_0, notification },
            ),
        }
    }
}

/// Stripping an envelope and re-wrapping it restores it exactly; with the
/// session-level unit in the middle, nothing of the wire unit is lost.
pub proof fn lemma_envelope_round_trip<Req, Resp, Noti>(m: JsonRpcMessage<Req, Resp, Noti>)
    ensures
        m.spec_into_message().spec_into_json_rpc_message() == m,
{
}

} // verus!
