//! The untyped envelope codec: requests and notifications whose method is
//! an arbitrary string and whose params are a raw object, with the
//! side-channel metadata split out of its `_meta` key and every unknown
//! sibling key preserved rather than rejected.

use vstd::prelude::*;

use crate::codec_base::get_id;
use crate::codec_payload::{dec_request_meta, enc_request_meta, lemma_rt_request_meta};
use crate::json::{
    centry, clone_obj, fget, get_s, has_key, jv, lemma_jv_obj, lookup, nilobj, string_eq,
    JsonObjV, JsonV, JsonValue,
};
use crate::model::{
    DefaultResponse, JsonObject, Notification, NotificationV, Request, RequestMeta, RequestMetaV,
    RequestV, WithMeta, WithMetaV,
};
use crate::rpc::{
    dec_id, enc_id, lemma_id_round_trip, ErrorData, JsonRpcError, JsonRpcErrorV, JsonRpcMessage,
    JsonRpcMessageV, JsonRpcNotification, JsonRpcNotificationV, JsonRpcRequest, JsonRpcRequestV,
    JsonRpcResponse, JsonRpcResponseV, JsonRpcVersion2_0, NumberOrString, NumberOrStringV,
};
use crate::codec_wire::{dec_error_data, enc_error_data, lemma_rt_error_data};

verus! {

broadcast use crate::json::group_obj_lemmas;

/// The object without any entry bound to `k`; every other entry keeps its
/// place and order.
pub open spec fn remove_key(o: JsonObjV, k: Seq<char>) -> JsonObjV
    decreases o.len(),
{
    if o.len() == 0 {
        o
    } else if o[0].0 == k {
        remove_key(o.drop_first(), k)
    } else {
        seq![o[0]] + remove_key(o.drop_first(), k)
    }
}

/// Removing an unbound key changes nothing.
pub proof fn lemma_remove_key_absent(o: JsonObjV, k: Seq<char>)
    requires
        !has_key(o, k),
    ensures
        remove_key(o, k) == o,
    decreases o.len(),
{
    if o.len() > 0 {
        assert(o.drop_first() =~= o.skip(1));
        lemma_remove_key_absent(o.drop_first(), k);
        assert(seq![o[0]] + o.drop_first() =~= o);
    }
}

/// Takes every entry bound to `k` out of the object's entries.
pub fn strip_key(o: &JsonObject, k: &str) -> (r: JsonObject)
    ensures
        r.deep_view() == remove_key(o.deep_view(), k@),
{
    let ghost s = o.deep_view();
    let mut out: JsonObject = Vec::new();
    let mut i: usize = 0;
    proof {
        assert(s.skip(0) =~= s);
        assert(Seq::<(Seq<char>, JsonV)>::empty() + remove_key(s.skip(0), k@) =~= remove_key(
            s,
            k@,
        ));
    }
    while i < o.len()
        invariant
            i <= o@.len(),
            s == o.deep_view(),
            s.len() == o@.len(),
            remove_key(s, k@) == out.deep_view() + remove_key(s.skip(i as int), k@),
        decreases o@.len() - i,
    {
        proof {
            lemma_remove_key_skip(s, k@, i as int);
            assert(s[i as int] == (o@[i as int].0@, jv(o@[i as int].1)));
        }
        let entry = &o[i];
        if !string_eq(&entry.0, k) {
            let pushed = (entry.0.clone(), entry.1.duplicate());
            let ghost pv = pushed;
            let ghost out0 = out;
            out.push(pushed);
            proof {
                crate::json::lemma_deep_view_push(out0, out, pv);
                assert(out.deep_view() =~= out0.deep_view().push(s[i as int]));
                assert(out0.deep_view() + (seq![s[i as int]] + remove_key(
                    s.skip(i as int + 1),
                    k@,
                )) =~= out.deep_view() + remove_key(s.skip(i as int + 1), k@));
            }
        }
        i = i + 1;
    }
    proof {
        assert(s.skip(i as int).len() == 0);
        assert(out.deep_view() + remove_key(s.skip(i as int), k@) =~= out.deep_view());
    }
    out
}

/// Removal against a front entry.
proof fn lemma_remove_key_centry(k0: Seq<char>, v0: JsonV, rest: JsonObjV, k: Seq<char>)
    ensures
        remove_key(centry(k0, v0, rest), k) == if k0 == k {
            remove_key(rest, k)
        } else {
            seq![(k0, v0)] + remove_key(rest, k)
        },
{
    let s = centry(k0, v0, rest);
    assert(s.len() > 0);
    assert(s[0] == (k0, v0));
    assert(s.drop_first() =~= rest);
}

/// Unfolds `remove_key` at position `i`.
proof fn lemma_remove_key_skip(o: JsonObjV, k: Seq<char>, i: int)
    requires
        0 <= i < o.len(),
    ensures
        remove_key(o.skip(i), k) == if o[i].0 == k {
            remove_key(o.skip(i + 1), k)
        } else {
            seq![o[i]] + remove_key(o.skip(i + 1), k)
        },
{
    let s = o.skip(i);
    assert(s.len() > 0);
    assert(s[0] == o[i]);
    assert(s.drop_first() =~= o.skip(i + 1));
}

/// How a raw params or result object stands on the wire: its metadata
/// under `_meta`, its own entries beside it.
pub open spec fn enc_with_meta_req(w: WithMetaV<JsonObjV, RequestMetaV>) -> JsonV {
    match w._meta {
        Some(m) => JsonV::Obj(centry("_meta"@, enc_request_meta(m), w.inner)),
        None => JsonV::Obj(w.inner),
    }
}

/// The raw params a JSON value holds: the `_meta` entry, when present,
/// must hold well-formed request metadata; every other entry — known or
/// unknown — is preserved verbatim in the inner object.
pub open spec fn dec_with_meta_req(v: JsonV) -> Option<WithMetaV<JsonObjV, RequestMetaV>> {
    match v {
        JsonV::Obj(o) => match lookup(o, "_meta"@) {
            Some(mv) => match dec_request_meta(mv) {
                Some(m) => Some(WithMetaV { _meta: Some(m), inner: remove_key(o, "_meta"@) }),
                None => None,
            },
            None => Some(WithMetaV { _meta: None, inner: o }),
        },
        _ => None,
    }
}

/// A raw params object survives the wire, as long as its own entries do
/// not themselves use the reserved `_meta` key.
pub proof fn lemma_rt_with_meta_req(w: WithMetaV<JsonObjV, RequestMetaV>)
    requires
        !has_key(w.inner, "_meta"@),
    ensures
        dec_with_meta_req(enc_with_meta_req(w)) == Some(w),
{
    match w._meta {
        Some(m) => {
            lemma_rt_request_meta(m);
            assert(lookup(centry("_meta"@, enc_request_meta(m), w.inner), "_meta"@) == Some(
                enc_request_meta(m),
            ));
            lemma_remove_key_centry("_meta"@, enc_request_meta(m), w.inner, "_meta"@);
            assert(remove_key(centry("_meta"@, enc_request_meta(m), w.inner), "_meta"@)
                == remove_key(w.inner, "_meta"@));
            lemma_remove_key_absent(w.inner, "_meta"@);
        },
        None => {},
    }
}

impl WithMeta<JsonObject, RequestMeta> {
    /// This raw params object as a JSON value.
    pub fn to_json(&self) -> (r: JsonValue)
        ensures
            jv(r) == enc_with_meta_req(self.deep_view()),
    {
        let mut o: JsonObject = Vec::new();
        if let Some(m) = &self._meta {
            o.push(("_meta".to_owned(), m.to_json()));
        }
        let mut rest = clone_obj(&self.inner);
        o.append(&mut rest);
        proof {
            lemma_jv_obj(o);
            assert(o.deep_view() =~= enc_with_meta_req(self.deep_view())->Obj_0);
        }
        JsonValue::Obj(o)
    }

    /// The raw params a JSON value holds, if any.
    pub fn from_json(v: &JsonValue) -> (r: Option<WithMeta<JsonObject, RequestMeta>>)
        ensures
            r.deep_view() == dec_with_meta_req(jv(*v)),
    {
        match v {
            JsonValue::Obj(entries) => {
                proof {
                    lemma_jv_obj(*entries);
                }
                match v.get("_meta") {
                    Some(mv) => match RequestMeta::from_json(mv) {
                        Some(m) => {
                            let inner = strip_key(entries, "_meta");
                            Some(WithMeta { _meta: Some(m), inner })
                        },
                        None => None,
                    },
                    None => {
                        let inner = clone_obj(entries);
                        Some(WithMeta { _meta: None, inner })
                    },
                }
            },
            _ => None,
        }
    }
}

/// Mirror of the raw request's params slot.
pub type RawParamsV = Option<WithMetaV<JsonObjV, RequestMetaV>>;

/// How a raw request's method and params stand in its envelope: params
/// are always written, as null when there are none.
pub open spec fn enc_raw_request_obj(r: RequestV<Seq<char>, RawParamsV>, rest: JsonObjV) -> JsonObjV {
    centry(
        "method"@,
        JsonV::Str(r.method),
        centry(
            "params"@,
            match r.params {
                Some(w) => enc_with_meta_req(w),
                None => JsonV::Null,
            },
            rest,
        ),
    )
}

/// The raw request an envelope object holds: any method string at all,
/// and params that are an object, null, or absent.
pub open spec fn dec_raw_request(v: JsonV) -> Option<RequestV<Seq<char>, RawParamsV>> {
    match get_s(v, "method"@) {
        Some(m) => match fget(v, "params"@) {
            None => Some(RequestV { method: m, params: None }),
            Some(JsonV::Null) => Some(RequestV { method: m, params: None }),
            Some(pv) => match dec_with_meta_req(pv) {
                Some(w) => Some(RequestV { method: m, params: Some(w) }),
                None => None,
            },
        },
        None => None,
    }
}

impl Request<String, Option<WithMeta<JsonObject, RequestMeta>>> {
    /// The raw request an envelope object holds, if any.
    pub fn from_json(v: &JsonValue) -> (r: Option<
        Request<String, Option<WithMeta<JsonObject, RequestMeta>>>,
    >)
        ensures
            r.deep_view() == dec_raw_request(jv(*v)),
    {
        let method = match v.f_str("method") {
            Some(s) => s,
            None => {
                return None;
            },
        };
        match v.get("params") {
            None => Some(Request { method, params: None }),
            Some(JsonValue::Null) => Some(Request { method, params: None }),
            Some(pv) => match WithMeta::<JsonObject, RequestMeta>::from_json(pv) {
                Some(w) => Some(Request { method, params: Some(w) }),
                None => None,
            },
        }
    }
}

/// How a raw result object stands on the wire: its metadata object under
/// `_meta`, its own entries beside it.
pub open spec fn enc_with_meta_resp(w: WithMetaV<JsonObjV, JsonObjV>) -> JsonV {
    match w._meta {
        Some(m) => JsonV::Obj(centry("_meta"@, JsonV::Obj(m), w.inner)),
        None => JsonV::Obj(w.inner),
    }
}

/// The raw result a JSON value holds: a `_meta` entry must be an object,
/// and every other entry is preserved verbatim.
pub open spec fn dec_with_meta_resp(v: JsonV) -> Option<WithMetaV<JsonObjV, JsonObjV>> {
    match v {
        JsonV::Obj(o) => match lookup(o, "_meta"@) {
            Some(JsonV::Obj(m)) => Some(
                WithMetaV { _meta: Some(m), inner: remove_key(o, "_meta"@) },
            ),
            Some(_) => None,
            None => Some(WithMetaV { _meta: None, inner: o }),
        },
        _ => None,
    }
}

/// A raw result object survives the wire when its own entries do not use
/// the reserved `_meta` key.
pub proof fn lemma_rt_with_meta_resp(w: WithMetaV<JsonObjV, JsonObjV>)
    requires
        !has_key(w.inner, "_meta"@),
    ensures
        dec_with_meta_resp(enc_with_meta_resp(w)) == Some(w),
{
    match w._meta {
        Some(m) => {
            lemma_remove_key_centry("_meta"@, JsonV::Obj(m), w.inner, "_meta"@);
            lemma_remove_key_absent(w.inner, "_meta"@);
        },
        None => {},
    }
}

impl WithMeta<JsonObject, JsonObject> {
    /// This raw result object as a JSON value.
    pub fn to_json(&self) -> (r: JsonValue)
        ensures
            jv(r) == enc_with_meta_resp(self.deep_view()),
    {
        let mut o: JsonObject = Vec::new();
        if let Some(m) = &self._meta {
            let mv = clone_obj(m);
            proof {
                lemma_jv_obj(mv);
            }
            o.push(("_meta".to_owned(), JsonValue::Obj(mv)));
        }
        let mut rest = clone_obj(&self.inner);
        o.append(&mut rest);
        proof {
            lemma_jv_obj(o);
            assert(o.deep_view() =~= enc_with_meta_resp(self.deep_view())->Obj_0);
        }
        JsonValue::Obj(o)
    }

    /// The raw result a JSON value holds, if any.
    pub fn from_json(v: &JsonValue) -> (r: Option<WithMeta<JsonObject, JsonObject>>)
        ensures
            r.deep_view() == dec_with_meta_resp(jv(*v)),
    {
        match v {
            JsonValue::Obj(entries) => {
                proof {
                    lemma_jv_obj(*entries);
                }
                match v.get("_meta") {
                    Some(JsonValue::Obj(m)) => {
                        proof {
                            lemma_jv_obj(*m);
                        }
                        let meta = clone_obj(m);
                        let inner = strip_key(entries, "_meta");
                        Some(WithMeta { _meta: Some(meta), inner })
                    },
                    Some(_) => None,
                    None => {
                        let inner = clone_obj(entries);
                        Some(WithMeta { _meta: None, inner })
                    },
                }
            },
            _ => None,
        }
    }
}

/// Mirror of the raw notification's params slot.
pub type RawNotiParamsV = Option<WithMetaV<JsonObjV, JsonObjV>>;

/// How a raw notification's method and params stand in its envelope.
pub open spec fn enc_raw_notification_obj(
    n: NotificationV<Seq<char>, RawNotiParamsV>,
    rest: JsonObjV,
) -> JsonObjV {
    centry(
        "method"@,
        JsonV::Str(n.method),
        centry(
            "params"@,
            match n.params {
                Some(w) => enc_with_meta_resp(w),
                None => JsonV::Null,
            },
            rest,
        ),
    )
}

/// The raw notification an envelope object holds.
pub open spec fn dec_raw_notification(v: JsonV) -> Option<NotificationV<Seq<char>, RawNotiParamsV>> {
    match get_s(v, "method"@) {
        Some(m) => match fget(v, "params"@) {
            None => Some(NotificationV { method: m, params: None }),
            Some(JsonV::Null) => Some(NotificationV { method: m, params: None }),
            Some(pv) => match dec_with_meta_resp(pv) {
                Some(w) => Some(NotificationV { method: m, params: Some(w) }),
                None => None,
            },
        },
        None => None,
    }
}

impl Notification<String, Option<WithMeta<JsonObject, JsonObject>>> {
    /// The raw notification an envelope object holds, if any.
    pub fn from_json(v: &JsonValue) -> (r: Option<
        Notification<String, Option<WithMeta<JsonObject, JsonObject>>>,
    >)
        ensures
            r.deep_view() == dec_raw_notification(jv(*v)),
    {
        let method = match v.f_str("method") {
            Some(s) => s,
            None => {
                return None;
            },
        };
        match v.get("params") {
            None => Some(Notification { method, params: None }),
            Some(JsonValue::Null) => Some(Notification { method, params: None }),
            Some(pv) => match WithMeta::<JsonObject, JsonObject>::from_json(pv) {
                Some(w) => Some(Notification { method, params: Some(w) }),
                None => None,
            },
        }
    }
}

/// Mirror of the raw wire unit.
pub type RawJsonRpcMessageV = JsonRpcMessageV<
    RequestV<Seq<char>, RawParamsV>,
    WithMetaV<JsonObjV, JsonObjV>,
    NotificationV<Seq<char>, RawNotiParamsV>,
>;

/// How a raw unit stands on the wire.
pub open spec fn enc_raw(m: RawJsonRpcMessageV) -> JsonV {
    match m {
        JsonRpcMessageV::Request(e) => JsonV::Obj(
            centry(
                "jsonrpc"@,
                JsonV::Str("2.0"@),
                centry("id"@, enc_id(e.id), enc_raw_request_obj(e.request, nilobj())),
            ),
        ),
        JsonRpcMessageV::Response(e) => JsonV::Obj(
            centry(
                "jsonrpc"@,
                JsonV::Str("2.0"@),
                centry(
                    "id"@,
                    enc_id(e.id),
                    centry("result"@, enc_with_meta_resp(e.result), nilobj()),
                ),
            ),
        ),
        JsonRpcMessageV::Notification(e) => JsonV::Obj(
            centry("jsonrpc"@, JsonV::Str("2.0"@), enc_raw_notification_obj(e.notification, nilobj())),
        ),
        JsonRpcMessageV::Error(e) => JsonV::Obj(
            centry(
                "jsonrpc"@,
                JsonV::Str("2.0"@),
                centry("id"@, enc_id(e.id), centry("error"@, enc_error_data(e.error), nilobj())),
            ),
        ),
    }
}

/// The raw unit a JSON value holds: the same four envelope shapes, tried
/// in the same fixed order as for the typed units.
pub open spec fn dec_raw(v: JsonV) -> Option<RawJsonRpcMessageV> {
    if get_s(v, "jsonrpc"@) != Some("2.0"@) {
        None
    } else {
        match (get_id(v, "id"@), dec_raw_request(v)) {
            (Some(id), Some(request)) => Some(
                JsonRpcMessageV::Request(JsonRpcRequestV { id, request }),
            ),
            _ => match (
                get_id(v, "id"@),
                match fget(v, "result"@) {
                    Some(w) => dec_with_meta_resp(w),
                    None => None,
                },
            ) {
                (Some(id), Some(result)) => Some(
                    JsonRpcMessageV::Response(JsonRpcResponseV { id, result }),
                ),
                _ => match dec_raw_notification(v) {
                    Some(notification) => Some(
                        JsonRpcMessageV::Notification(JsonRpcNotificationV { notification }),
                    ),
                    None => match (
                        get_id(v, "id"@),
                        match fget(v, "error"@) {
                            Some(w) => dec_error_data(w),
                            None => None,
                        },
                    ) {
                        (Some(id), Some(error)) => Some(
                            JsonRpcMessageV::Error(JsonRpcErrorV { id, error }),
                        ),
                        _ => None,
                    },
                },
            },
        }
    }
}

/// What the wire cannot carry of a raw unit: a params or result object
/// whose inner entries use the reserved `_meta` key, or error data that is
/// an explicit null.
pub open spec fn wf_raw(m: RawJsonRpcMessageV) -> bool {
    match m {
        JsonRpcMessageV::Request(e) => match e.request.params {
            Some(w) => !has_key(w.inner, "_meta"@),
            None => true,
        },
        JsonRpcMessageV::Response(e) => !has_key(e.result.inner, "_meta"@),
        JsonRpcMessageV::Notification(e) => match e.notification.params {
            Some(w) => !has_key(w.inner, "_meta"@),
            None => true,
        },
        JsonRpcMessageV::Error(e) => e.error.data != Some(JsonV::Null),
    }
}

/// Every raw unit survives the wire: whatever its method string and
/// whatever unknown keys its params carry, decoding an encoded unit
/// restores it exactly.
pub proof fn lemma_rt_raw(m: RawJsonRpcMessageV)
    requires
        wf_raw(m),
    ensures
        dec_raw(enc_raw(m)) == Some(m),
{
    reveal_strlit("jsonrpc");
    reveal_strlit("2.0");
    reveal_strlit("id");
    reveal_strlit("method");
    reveal_strlit("params");
    reveal_strlit("result");
    reveal_strlit("error");
    reveal_strlit("_meta");
    assert("jsonrpc"@.len() == 7);
    assert("2.0"@.len() == 3);
    assert("id"@.len() == 2);
    assert("method"@.len() == 6);
    assert("params"@.len() == 6);
    assert("result"@.len() == 6);
    assert("error"@.len() == 5);
    assert("_meta"@.len() == 5);
    assert("method"@.index(0) == 'm');
    assert("params"@.index(0) == 'p');
    assert("result"@.index(0) == 'r');
    match m {
        JsonRpcMessageV::Request(e) => {
            lemma_id_round_trip(e.id);
            match e.request.params {
                Some(w) => {
                    lemma_rt_with_meta_req(w);
                },
                None => {},
            }
        },
        JsonRpcMessageV::Response(e) => {
            lemma_id_round_trip(e.id);
            lemma_rt_with_meta_resp(e.result);
        },
        JsonRpcMessageV::Notification(e) => {
            match e.notification.params {
                Some(w) => {
                    lemma_rt_with_meta_resp(w);
                },
                None => {},
            }
        },
        JsonRpcMessageV::Error(e) => {
            lemma_id_round_trip(e.id);
            lemma_rt_error_data(e.error);
        },
    }
}

impl JsonRpcMessage<Request, DefaultResponse, Notification> {
    /// This raw unit as its wire JSON object.
    pub fn to_json(&self) -> (r: JsonValue)
        ensures
            jv(r) == enc_raw(self.deep_view()),
    {
        let mut o: JsonObject = Vec::new();
        o.push(("jsonrpc".to_owned(), JsonValue::Str("2.0".to_owned())));
        match self {
            JsonRpcMessage::Request(e) => {
                o.push(("id".to_owned(), e.id.to_json()));
                o.push(("method".to_owned(), JsonValue::Str(e.request.method.clone())));
                match &e.request.params {
                    Some(w) => {
                        o.push(("params".to_owned(), w.to_json()));
                    },
                    None => {
                        o.push(("params".to_owned(), JsonValue::Null));
                    },
                }
            },
            JsonRpcMessage::Response(e) => {
                o.push(("id".to_owned(), e.id.to_json()));
                o.push(("result".to_owned(), e.result.to_json()));
            },
            JsonRpcMessage::Notification(e) => {
                o.push(("method".to_owned(), JsonValue::Str(e.notification.method.clone())));
                match &e.notification.params {
                    Some(w) => {
                        o.push(("params".to_owned(), w.to_json()));
                    },
                    None => {
                        o.push(("params".to_owned(), JsonValue::Null));
                    },
                }
            },
            JsonRpcMessage::Error(e) => {
                o.push(("id".to_owned(), e.id.to_json()));
                o.push(("error".to_owned(), e.error.to_json()));
            },
        }
        proof {
            lemma_jv_obj(o);
            assert(o.deep_view() =~= enc_raw(self.deep_view())->Obj_0);
        }
        JsonValue::Obj(o)
    }

    /// The raw unit a JSON value holds, if any: request, then response,
    /// then notification, then error.
    pub fn from_json(v: &JsonValue) -> (r: Option<
        JsonRpcMessage<Request, DefaultResponse, Notification>,
    >)
        ensures
            r.deep_view() == dec_raw(jv(*v)),
    {
        let ver = match v.f_str("jsonrpc") {
            Some(s) => s,
            None => {
                return None;
            },
        };
        if !string_eq(&ver, "2.0") {
            return None;
        }
        let id_r = match v.get("id") {
            Some(w) => NumberOrString::from_json(w),
            None => None,
        };
        let rq = Request::<String, Option<WithMeta<JsonObject, RequestMeta>>>::from_json(v);
        match (id_r, rq) {
            (Some(id), Some(request)) => {
                return Some(JsonRpcMessage::Request(JsonRpcRequest {
                    jsonrpc: JsonRpcVersion2_0,
                    id,
                    request,
                }));
            },
            _ => {},
        }
        let id_s = match v.get("id") {
            Some(w) => NumberOrString::from_json(w),
            None => None,
        };
        let res = match v.get("result") {
            Some(w) => WithMeta::<JsonObject, JsonObject>::from_json(w),
            None => None,
        };
        match (id_s, res) {
            (Some(id), Some(result)) => {
                return Some(JsonRpcMessage::Response(JsonRpcResponse {
                    jsonrpc: JsonRpcVersion2_0,
                    id,
                    result,
                }));
            },
            _ => {},
        }
        match Notification::<String, Option<WithMeta<JsonObject, JsonObject>>>::from_json(v) {
            Some(notification) => {
                return Some(JsonRpcMessage::Notification(JsonRpcNotification {
                    jsonrpc: JsonRpcVersion2_0,
                    notification,
                }));
            },
            None => {},
        }
        let id_e = match v.get("id") {
            Some(w) => NumberOrString::from_json(w),
            None => None,
        };
        let err = match v.get("error") {
            Some(w) => ErrorData::from_json(w),
            None => None,
        };
        match (id_e, err) {
            (Some(id), Some(error)) => {
                return Some(JsonRpcMessage::Error(JsonRpcError {
                    jsonrpc: JsonRpcVersion2_0,
                    id,
                    error,
                }));
            },
            _ => {},
        }
        None
    }
}

} // verus!
