//! Encoders and decoders for every payload struct of the taxonomy, with
//! the proofs that each survives the wire.

use vstd::prelude::*;

use crate::json::{
    clone_obj, fget, get_any, get_o, get_oj, get_opt_b, get_opt_o, get_opt_s, get_opt_u, get_s,
    get_u, jv, lemma_jv_arr, lemma_jv_obj, nilobj, centry, oentry, opt_bool, opt_int, opt_obj,
    opt_str, JsonV, JsonValue,
};
use crate::codec_base::{
    dec_content, dec_reference, dec_resource_contents, enc_content, enc_reference,
    enc_resource_contents, get_id, get_level, get_role, level_str, role_str, lemma_rt_content, lemma_rt_level,
    lemma_rt_reference, lemma_rt_role, level_from_string, level_string, role_from_string,
    role_string,
};
use crate::codec_seq::{dec_seq_content, dec_seq_prompt, dec_seq_prompt_argument, dec_seq_prompt_message, dec_seq_resource, dec_seq_resource_contents, dec_seq_root, dec_seq_sampling_message, dec_seq_string, dec_seq_tool, dec_vec_content, dec_vec_prompt, dec_vec_prompt_argument, dec_vec_prompt_message, dec_vec_resource, dec_vec_resource_contents, dec_vec_root, dec_vec_sampling_message, dec_vec_string, dec_vec_tool, enc_seq_content, enc_seq_prompt, enc_seq_prompt_argument, enc_seq_prompt_message, enc_seq_resource, enc_seq_resource_contents, enc_seq_root, enc_seq_sampling_message, enc_seq_string, enc_seq_tool, enc_vec_content, enc_vec_prompt, enc_vec_prompt_argument, enc_vec_prompt_message, enc_vec_resource, enc_vec_resource_contents, enc_vec_root, enc_vec_sampling_message, enc_vec_string, enc_vec_tool, get_opt_vec_content, get_opt_vec_prompt, get_opt_vec_prompt_argument, get_opt_vec_prompt_message, get_opt_vec_resource, get_opt_vec_resource_contents, get_opt_vec_root, get_opt_vec_sampling_message, get_opt_vec_string, get_opt_vec_tool, get_vec_content, get_vec_prompt, get_vec_prompt_argument, get_vec_prompt_message, get_vec_resource, get_vec_resource_contents, get_vec_root, get_vec_sampling_message, get_vec_string, get_vec_tool, lemma_rt_seq_content, lemma_rt_seq_prompt, lemma_rt_seq_prompt_argument, lemma_rt_seq_prompt_message, lemma_rt_seq_resource, lemma_rt_seq_resource_contents, lemma_rt_seq_root, lemma_rt_seq_sampling_message, lemma_rt_seq_string, lemma_rt_seq_tool, opt_arr_content, opt_arr_prompt, opt_arr_prompt_argument, opt_arr_prompt_message, opt_arr_resource, opt_arr_resource_contents, opt_arr_root, opt_arr_sampling_message, opt_arr_string, opt_arr_tool};
use crate::model::{ArgumentInfo, ArgumentInfoV, CallToolRequestParam, CallToolRequestParamV, CallToolResult, CallToolResultV, CancelledNotificationParam, CancelledNotificationParamV, ClientCapabilities, ClientCapabilitiesV, CompleteRequestParam, CompleteRequestParamV, CompleteResult, CompleteResultV, CompletionInfo, CompletionInfoV, Content, ContentV, CreateMessageRequestParam, CreateMessageRequestParamV, GetPromptRequestParam, GetPromptRequestParamV, GetPromptResult, GetPromptResultV, Implementation, ImplementationV, InitializeRequestParam, InitializeRequestParamV, InitializeResult, InitializeResultV, ListPromptsResult, ListPromptsResultV, ListResourceTemplatesResult, ListResourceTemplatesResultV, ListResourcesResult, ListResourcesResultV, ListRootsResult, ListRootsResultV, ListToolsResult, ListToolsResultV, LoggingLevel, LoggingMessageNotificationParam, LoggingMessageNotificationParamV, ModelHint, ModelHintV, PaginatedRequestParam, PaginatedRequestParamV, ProgressNotificationParam, ProgressNotificationParamV, Prompt, PromptArgument, PromptArgumentV, PromptMessage, PromptMessageV, PromptV, PromptsCapability, PromptsCapabilityV, ProtocolVersion, ReadResourceRequestParam, ReadResourceRequestParamV, ReadResourceResult, ReadResourceResultV, Reference, ReferenceV, RequestMeta, RequestMetaV, Resource, ResourceContents, ResourceContentsV, ResourceUpdatedNotificationParam, ResourceUpdatedNotificationParamV, ResourceV, ResourcesCapability, ResourcesCapabilityV, Role, Root, RootV, RootsCapabilities, RootsCapabilitiesV, SamplingMessage, SamplingMessageV, ServerCapabilities, ServerCapabilitiesV, SetLevelRequestParam, SetLevelRequestParamV, SubscribeRequestParam, SubscribeRequestParamV, Tool, ToolV, ToolsCapability, ToolsCapabilityV, UnsubscribeRequestParam, UnsubscribeRequestParamV};
use crate::rpc::{dec_id, enc_id, lemma_id_round_trip, NumberOrString, NumberOrStringV};

verus! {

broadcast use crate::json::group_obj_lemmas;

/// A required `ArgumentInfo` field.
pub open spec fn get_argument_info(v: JsonV, k: Seq<char>) -> Option<ArgumentInfoV> {
    match fget(v, k) {
        Some(w) => dec_argument_info(w),
        None => None,
    }
}

/// An optional `ArgumentInfo` field.
pub open spec fn get_opt_argument_info(v: JsonV, k: Seq<char>) -> Option<Option<ArgumentInfoV>> {
    match fget(v, k) {
        None => Some(None),
        Some(JsonV::Null) => Some(None),
        Some(w) => match dec_argument_info(w) {
            Some(t) => Some(Some(t)),
            None => None,
        },
    }
}

/// An optional `ArgumentInfo`, encoded if present.
pub open spec fn opt_argument_info(o: Option<ArgumentInfoV>) -> Option<JsonV> {
    match o {
        Some(t) => Some(enc_argument_info(t)),
        None => None,
    }
}

/// A required `ClientCapabilities` field.
pub open spec fn get_client_capabilities(v: JsonV, k: Seq<char>) -> Option<ClientCapabilitiesV> {
    match fget(v, k) {
        Some(w) => dec_client_capabilities(w),
        None => None,
    }
}

/// An optional `ClientCapabilities` field.
pub open spec fn get_opt_client_capabilities(v: JsonV, k: Seq<char>) -> Option<Option<ClientCapabilitiesV>> {
    match fget(v, k) {
        None => Some(None),
        Some(JsonV::Null) => Some(None),
        Some(w) => match dec_client_capabilities(w) {
            Some(t) => Some(Some(t)),
            None => None,
        },
    }
}

/// An optional `ClientCapabilities`, encoded if present.
pub open spec fn opt_client_capabilities(o: Option<ClientCapabilitiesV>) -> Option<JsonV> {
    match o {
        Some(t) => Some(enc_client_capabilities(t)),
        None => None,
    }
}

/// A required `CompletionInfo` field.
pub open spec fn get_completion_info(v: JsonV, k: Seq<char>) -> Option<CompletionInfoV> {
    match fget(v, k) {
        Some(w) => dec_completion_info(w),
        None => None,
    }
}

/// An optional `CompletionInfo` field.
pub open spec fn get_opt_completion_info(v: JsonV, k: Seq<char>) -> Option<Option<CompletionInfoV>> {
    match fget(v, k) {
        None => Some(None),
        Some(JsonV::Null) => Some(None),
        Some(w) => match dec_completion_info(w) {
            Some(t) => Some(Some(t)),
            None => None,
        },
    }
}

/// An optional `CompletionInfo`, encoded if present.
pub open spec fn opt_completion_info(o: Option<CompletionInfoV>) -> Option<JsonV> {
    match o {
        Some(t) => Some(enc_completion_info(t)),
        None => None,
    }
}

/// A required `Content` field.
pub open spec fn get_content(v: JsonV, k: Seq<char>) -> Option<ContentV> {
    match fget(v, k) {
        Some(w) => dec_content(w),
        None => None,
    }
}

/// An optional `Content` field.
pub open spec fn get_opt_content(v: JsonV, k: Seq<char>) -> Option<Option<ContentV>> {
    match fget(v, k) {
        None => Some(None),
        Some(JsonV::Null) => Some(None),
        Some(w) => match dec_content(w) {
            Some(t) => Some(Some(t)),
            None => None,
        },
    }
}

/// An optional `Content`, encoded if present.
pub open spec fn opt_content(o: Option<ContentV>) -> Option<JsonV> {
    match o {
        Some(t) => Some(enc_content(t)),
        None => None,
    }
}

/// A required `Implementation` field.
pub open spec fn get_implementation(v: JsonV, k: Seq<char>) -> Option<ImplementationV> {
    match fget(v, k) {
        Some(w) => dec_implementation(w),
        None => None,
    }
}

/// An optional `Implementation` field.
pub open spec fn get_opt_implementation(v: JsonV, k: Seq<char>) -> Option<Option<ImplementationV>> {
    match fget(v, k) {
        None => Some(None),
        Some(JsonV::Null) => Some(None),
        Some(w) => match dec_implementation(w) {
            Some(t) => Some(Some(t)),
            None => None,
        },
    }
}

/// An optional `Implementation`, encoded if present.
pub open spec fn opt_implementation(o: Option<ImplementationV>) -> Option<JsonV> {
    match o {
        Some(t) => Some(enc_implementation(t)),
        None => None,
    }
}

/// A required `PromptsCapability` field.
pub open spec fn get_prompts_capability(v: JsonV, k: Seq<char>) -> Option<PromptsCapabilityV> {
    match fget(v, k) {
        Some(w) => dec_prompts_capability(w),
        None => None,
    }
}

/// An optional `PromptsCapability` field.
pub open spec fn get_opt_prompts_capability(v: JsonV, k: Seq<char>) -> Option<Option<PromptsCapabilityV>> {
    match fget(v, k) {
        None => Some(None),
        Some(JsonV::Null) => Some(None),
        Some(w) => match dec_prompts_capability(w) {
            Some(t) => Some(Some(t)),
            None => None,
        },
    }
}

/// An optional `PromptsCapability`, encoded if present.
pub open spec fn opt_prompts_capability(o: Option<PromptsCapabilityV>) -> Option<JsonV> {
    match o {
        Some(t) => Some(enc_prompts_capability(t)),
        None => None,
    }
}

/// A required `Reference` field.
pub open spec fn get_reference(v: JsonV, k: Seq<char>) -> Option<ReferenceV> {
    match fget(v, k) {
        Some(w) => dec_reference(w),
        None => None,
    }
}

/// An optional `Reference` field.
pub open spec fn get_opt_reference(v: JsonV, k: Seq<char>) -> Option<Option<ReferenceV>> {
    match fget(v, k) {
        None => Some(None),
        Some(JsonV::Null) => Some(None),
        Some(w) => match dec_reference(w) {
            Some(t) => Some(Some(t)),
            None => None,
        },
    }
}

/// An optional `Reference`, encoded if present.
pub open spec fn opt_reference(o: Option<ReferenceV>) -> Option<JsonV> {
    match o {
        Some(t) => Some(enc_reference(t)),
        None => None,
    }
}

/// A required `ResourcesCapability` field.
pub open spec fn get_resources_capability(v: JsonV, k: Seq<char>) -> Option<ResourcesCapabilityV> {
    match fget(v, k) {
        Some(w) => dec_resources_capability(w),
        None => None,
    }
}

/// An optional `ResourcesCapability` field.
pub open spec fn get_opt_resources_capability(v: JsonV, k: Seq<char>) -> Option<Option<ResourcesCapabilityV>> {
    match fget(v, k) {
        None => Some(None),
        Some(JsonV::Null) => Some(None),
        Some(w) => match dec_resources_capability(w) {
            Some(t) => Some(Some(t)),
            None => None,
        },
    }
}

/// An optional `ResourcesCapability`, encoded if present.
pub open spec fn opt_resources_capability(o: Option<ResourcesCapabilityV>) -> Option<JsonV> {
    match o {
        Some(t) => Some(enc_resources_capability(t)),
        None => None,
    }
}

/// A required `RootsCapabilities` field.
pub open spec fn get_roots_capabilities(v: JsonV, k: Seq<char>) -> Option<RootsCapabilitiesV> {
    match fget(v, k) {
        Some(w) => dec_roots_capabilities(w),
        None => None,
    }
}

/// An optional `RootsCapabilities` field.
pub open spec fn get_opt_roots_capabilities(v: JsonV, k: Seq<char>) -> Option<Option<RootsCapabilitiesV>> {
    match fget(v, k) {
        None => Some(None),
        Some(JsonV::Null) => Some(None),
        Some(w) => match dec_roots_capabilities(w) {
            Some(t) => Some(Some(t)),
            None => None,
        },
    }
}

/// An optional `RootsCapabilities`, encoded if present.
pub open spec fn opt_roots_capabilities(o: Option<RootsCapabilitiesV>) -> Option<JsonV> {
    match o {
        Some(t) => Some(enc_roots_capabilities(t)),
        None => None,
    }
}

/// A required `ServerCapabilities` field.
pub open spec fn get_server_capabilities(v: JsonV, k: Seq<char>) -> Option<ServerCapabilitiesV> {
    match fget(v, k) {
        Some(w) => dec_server_capabilities(w),
        None => None,
    }
}

/// An optional `ServerCapabilities` field.
pub open spec fn get_opt_server_capabilities(v: JsonV, k: Seq<char>) -> Option<Option<ServerCapabilitiesV>> {
    match fget(v, k) {
        None => Some(None),
        Some(JsonV::Null) => Some(None),
        Some(w) => match dec_server_capabilities(w) {
            Some(t) => Some(Some(t)),
            None => None,
        },
    }
}

/// An optional `ServerCapabilities`, encoded if present.
pub open spec fn opt_server_capabilities(o: Option<ServerCapabilitiesV>) -> Option<JsonV> {
    match o {
        Some(t) => Some(enc_server_capabilities(t)),
        None => None,
    }
}

/// A required `ToolsCapability` field.
pub open spec fn get_tools_capability(v: JsonV, k: Seq<char>) -> Option<ToolsCapabilityV> {
    match fget(v, k) {
        Some(w) => dec_tools_capability(w),
        None => None,
    }
}

/// An optional `ToolsCapability` field.
pub open spec fn get_opt_tools_capability(v: JsonV, k: Seq<char>) -> Option<Option<ToolsCapabilityV>> {
    match fget(v, k) {
        None => Some(None),
        Some(JsonV::Null) => Some(None),
        Some(w) => match dec_tools_capability(w) {
            Some(t) => Some(Some(t)),
            None => None,
        },
    }
}

/// An optional `ToolsCapability`, encoded if present.
pub open spec fn opt_tools_capability(o: Option<ToolsCapabilityV>) -> Option<JsonV> {
    match o {
        Some(t) => Some(enc_tools_capability(t)),
        None => None,
    }
}

/// How a `Implementation` stands on the wire.
pub open spec fn enc_implementation(x: ImplementationV) -> JsonV {
    JsonV::Obj(centry("name"@, JsonV::Str(x.name), centry("version"@, JsonV::Str(x.version), nilobj())))
}

/// The `Implementation` a JSON object holds, if it matches the shape.
pub open spec fn dec_implementation(v: JsonV) -> Option<ImplementationV> {
    if !(v matches JsonV::Obj(_)) {
        None
    } else {
        match get_s(v, "name"@) {
            Some(f_name) =>
            match get_s(v, "version"@) {
                Some(f_version) =>
                 Some(ImplementationV { name: f_name, version: f_version })
                ,
                None => None,
            }
            ,
            None => None,
        }
    }
}

impl Implementation {
    /// This payload as a JSON object.
    pub fn to_json(&self) -> (r: JsonValue)
        ensures
            jv(r) == enc_implementation(self.deep_view()),
    {
        let mut o: Vec<(String, JsonValue)> = Vec::new();
        o.push(("name".to_owned(), JsonValue::Str(self.name.clone())));
        o.push(("version".to_owned(), JsonValue::Str(self.version.clone())));
        proof {
            lemma_jv_obj(o);
            assert(o.deep_view() =~= enc_implementation(self.deep_view())->Obj_0);
        }
        JsonValue::Obj(o)
    }

    /// The payload a JSON value holds, if it matches this shape.
    pub fn from_json(v: &JsonValue) -> (r: Option<Implementation>)
        ensures
            r.deep_view() == dec_implementation(jv(*v)),
    {
        if !v.is_obj() {
            return None;
        }
        let x_name = match v.f_str("name") {
            Some(t) => t,
            None => {
                return None;
            },
        };
        let x_version = match v.f_str("version") {
            Some(t) => t,
            None => {
                return None;
            },
        };
        Some(Implementation { name: x_name, version: x_version })
    }
}

/// A `Implementation` survives the wire.
pub proof fn lemma_rt_implementation(x: ImplementationV)
    ensures
        dec_implementation(enc_implementation(x)) == Some(x),
{
    reveal_strlit("name");
    reveal_strlit("version");
    assert("name"@.len() == 4);
    assert("version"@.len() == 7);
}

/// How a `RootsCapabilities` stands on the wire.
pub open spec fn enc_roots_capabilities(x: RootsCapabilitiesV) -> JsonV {
    JsonV::Obj(oentry("listChanged"@, opt_bool(x.list_changed), nilobj()))
}

/// The `RootsCapabilities` a JSON object holds, if it matches the shape.
pub open spec fn dec_roots_capabilities(v: JsonV) -> Option<RootsCapabilitiesV> {
    if !(v matches JsonV::Obj(_)) {
        None
    } else {
        match get_opt_b(v, "listChanged"@) {
            Some(f_list_changed) =>
             Some(RootsCapabilitiesV { list_changed: f_list_changed })
            ,
            None => None,
        }
    }
}

impl RootsCapabilities {
    /// This payload as a JSON object.
    pub fn to_json(&self) -> (r: JsonValue)
        ensures
            jv(r) == enc_roots_capabilities(self.deep_view()),
    {
        let mut o: Vec<(String, JsonValue)> = Vec::new();
        if let Some(b) = &self.list_changed {
            o.push(("listChanged".to_owned(), JsonValue::Bool(*b)));
        }
        proof {
            lemma_jv_obj(o);
            assert(o.deep_view() =~= enc_roots_capabilities(self.deep_view())->Obj_0);
        }
        JsonValue::Obj(o)
    }

    /// The payload a JSON value holds, if it matches this shape.
    pub fn from_json(v: &JsonValue) -> (r: Option<RootsCapabilities>)
        ensures
            r.deep_view() == dec_roots_capabilities(jv(*v)),
    {
        if !v.is_obj() {
            return None;
        }
        let x_list_changed = match v.f_opt_bool("listChanged") {
            Some(t) => t,
            None => {
                return None;
            },
        };
        Some(RootsCapabilities { list_changed: x_list_changed })
    }
}

/// A `RootsCapabilities` survives the wire.
pub proof fn lemma_rt_roots_capabilities(x: RootsCapabilitiesV)
    ensures
        dec_roots_capabilities(enc_roots_capabilities(x)) == Some(x),
{
    reveal_strlit("listChanged");
    assert("listChanged"@.len() == 11);
}

/// How a `ClientCapabilities` stands on the wire.
pub open spec fn enc_client_capabilities(x: ClientCapabilitiesV) -> JsonV {
    JsonV::Obj(oentry("experimental"@, opt_obj(x.experimental), oentry("roots"@, opt_roots_capabilities(x.roots), oentry("sampling"@, opt_obj(x.sampling), nilobj()))))
}

/// The `ClientCapabilities` a JSON object holds, if it matches the shape.
pub open spec fn dec_client_capabilities(v: JsonV) -> Option<ClientCapabilitiesV> {
    if !(v matches JsonV::Obj(_)) {
        None
    } else {
        match get_opt_o(v, "experimental"@) {
            Some(f_experimental) =>
            match get_opt_roots_capabilities(v, "roots"@) {
                Some(f_roots) =>
                match get_opt_o(v, "sampling"@) {
                    Some(f_sampling) =>
                     Some(ClientCapabilitiesV { experimental: f_experimental, roots: f_roots, sampling: f_sampling })
                    ,
                    None => None,
                }
                ,
                None => None,
            }
            ,
            None => None,
        }
    }
}

impl ClientCapabilities {
    /// This payload as a JSON object.
    pub fn to_json(&self) -> (r: JsonValue)
        ensures
            jv(r) == enc_client_capabilities(self.deep_view()),
    {
        let mut o: Vec<(String, JsonValue)> = Vec::new();
        if let Some(m) = &self.experimental {
            let w_experimental = clone_obj(m);
            proof {
                lemma_jv_obj(w_experimental);
            }
            o.push(("experimental".to_owned(), JsonValue::Obj(w_experimental)));
        }
        if let Some(t) = &self.roots {
            o.push(("roots".to_owned(), t.to_json()));
        }
        if let Some(m) = &self.sampling {
            let w_sampling = clone_obj(m);
            proof {
                lemma_jv_obj(w_sampling);
            }
            o.push(("sampling".to_owned(), JsonValue::Obj(w_sampling)));
        }
        proof {
            lemma_jv_obj(o);
            assert(o.deep_view() =~= enc_client_capabilities(self.deep_view())->Obj_0);
        }
        JsonValue::Obj(o)
    }

    /// The payload a JSON value holds, if it matches this shape.
    pub fn from_json(v: &JsonValue) -> (r: Option<ClientCapabilities>)
        ensures
            r.deep_view() == dec_client_capabilities(jv(*v)),
    {
        if !v.is_obj() {
            return None;
        }
        let x_experimental = match v.f_opt_obj("experimental") {
            Some(t) => t,
            None => {
                return None;
            },
        };
        let x_roots = match v.get("roots") {
            None => None,
            Some(JsonValue::Null) => None,
            Some(w) => match RootsCapabilities::from_json(w) {
                Some(t) => Some(t),
                None => {
                    return None;
                },
            },
        };
        let x_sampling = match v.f_opt_obj("sampling") {
            Some(t) => t,
            None => {
                return None;
            },
        };
        Some(ClientCapabilities { experimental: x_experimental, roots: x_roots, sampling: x_sampling })
    }
}

/// A `ClientCapabilities` survives the wire.
pub proof fn lemma_rt_client_capabilities(x: ClientCapabilitiesV)
    ensures
        dec_client_capabilities(enc_client_capabilities(x)) == Some(x),
{
    reveal_strlit("experimental");
    reveal_strlit("roots");
    reveal_strlit("sampling");
    assert("experimental"@.len() == 12);
    assert("roots"@.len() == 5);
    assert("sampling"@.len() == 8);
    match x.roots {
        Some(t) => {
            lemma_rt_roots_capabilities(t);
        },
        None => {},
    }
}

/// How a `PromptsCapability` stands on the wire.
pub open spec fn enc_prompts_capability(x: PromptsCapabilityV) -> JsonV {
    JsonV::Obj(oentry("listChanged"@, opt_bool(x.list_changed), nilobj()))
}

/// The `PromptsCapability` a JSON object holds, if it matches the shape.
pub open spec fn dec_prompts_capability(v: JsonV) -> Option<PromptsCapabilityV> {
    if !(v matches JsonV::Obj(_)) {
        None
    } else {
        match get_opt_b(v, "listChanged"@) {
            Some(f_list_changed) =>
             Some(PromptsCapabilityV { list_changed: f_list_changed })
            ,
            None => None,
        }
    }
}

impl PromptsCapability {
    /// This payload as a JSON object.
    pub fn to_json(&self) -> (r: JsonValue)
        ensures
            jv(r) == enc_prompts_capability(self.deep_view()),
    {
        let mut o: Vec<(String, JsonValue)> = Vec::new();
        if let Some(b) = &self.list_changed {
            o.push(("listChanged".to_owned(), JsonValue::Bool(*b)));
        }
        proof {
            lemma_jv_obj(o);
            assert(o.deep_view() =~= enc_prompts_capability(self.deep_view())->Obj_0);
        }
        JsonValue::Obj(o)
    }

    /// The payload a JSON value holds, if it matches this shape.
    pub fn from_json(v: &JsonValue) -> (r: Option<PromptsCapability>)
        ensures
            r.deep_view() == dec_prompts_capability(jv(*v)),
    {
        if !v.is_obj() {
            return None;
        }
        let x_list_changed = match v.f_opt_bool("listChanged") {
            Some(t) => t,
            None => {
                return None;
            },
        };
        Some(PromptsCapability { list_changed: x_list_changed })
    }
}

/// A `PromptsCapability` survives the wire.
pub proof fn lemma_rt_prompts_capability(x: PromptsCapabilityV)
    ensures
        dec_prompts_capability(enc_prompts_capability(x)) == Some(x),
{
    reveal_strlit("listChanged");
    assert("listChanged"@.len() == 11);
}

/// How a `ResourcesCapability` stands on the wire.
pub open spec fn enc_resources_capability(x: ResourcesCapabilityV) -> JsonV {
    JsonV::Obj(oentry("subscribe"@, opt_bool(x.subscribe), oentry("listChanged"@, opt_bool(x.list_changed), nilobj())))
}

/// The `ResourcesCapability` a JSON object holds, if it matches the shape.
pub open spec fn dec_resources_capability(v: JsonV) -> Option<ResourcesCapabilityV> {
    if !(v matches JsonV::Obj(_)) {
        None
    } else {
        match get_opt_b(v, "subscribe"@) {
            Some(f_subscribe) =>
            match get_opt_b(v, "listChanged"@) {
                Some(f_list_changed) =>
                 Some(ResourcesCapabilityV { subscribe: f_subscribe, list_changed: f_list_changed })
                ,
                None => None,
            }
            ,
            None => None,
        }
    }
}

impl ResourcesCapability {
    /// This payload as a JSON object.
    pub fn to_json(&self) -> (r: JsonValue)
        ensures
            jv(r) == enc_resources_capability(self.deep_view()),
    {
        let mut o: Vec<(String, JsonValue)> = Vec::new();
        if let Some(b) = &self.subscribe {
            o.push(("subscribe".to_owned(), JsonValue::Bool(*b)));
        }
        if let Some(b) = &self.list_changed {
            o.push(("listChanged".to_owned(), JsonValue::Bool(*b)));
        }
        proof {
            lemma_jv_obj(o);
            assert(o.deep_view() =~= enc_resources_capability(self.deep_view())->Obj_0);
        }
        JsonValue::Obj(o)
    }

    /// The payload a JSON value holds, if it matches this shape.
    pub fn from_json(v: &JsonValue) -> (r: Option<ResourcesCapability>)
        ensures
            r.deep_view() == dec_resources_capability(jv(*v)),
    {
        if !v.is_obj() {
            return None;
        }
        let x_subscribe = match v.f_opt_bool("subscribe") {
            Some(t) => t,
            None => {
                return None;
            },
        };
        let x_list_changed = match v.f_opt_bool("listChanged") {
            Some(t) => t,
            None => {
                return None;
            },
        };
        Some(ResourcesCapability { subscribe: x_subscribe, list_changed: x_list_changed })
    }
}

/// A `ResourcesCapability` survives the wire.
pub proof fn lemma_rt_resources_capability(x: ResourcesCapabilityV)
    ensures
        dec_resources_capability(enc_resources_capability(x)) == Some(x),
{
    reveal_strlit("listChanged");
    reveal_strlit("subscribe");
    assert("listChanged"@.len() == 11);
    assert("subscribe"@.len() == 9);
}

/// How a `ToolsCapability` stands on the wire.
pub open spec fn enc_tools_capability(x: ToolsCapabilityV) -> JsonV {
    JsonV::Obj(oentry("listChanged"@, opt_bool(x.list_changed), nilobj()))
}

/// The `ToolsCapability` a JSON object holds, if it matches the shape.
pub open spec fn dec_tools_capability(v: JsonV) -> Option<ToolsCapabilityV> {
    if !(v matches JsonV::Obj(_)) {
        None
    } else {
        match get_opt_b(v, "listChanged"@) {
            Some(f_list_changed) =>
             Some(ToolsCapabilityV { list_changed: f_list_changed })
            ,
            None => None,
        }
    }
}

impl ToolsCapability {
    /// This payload as a JSON object.
    pub fn to_json(&self) -> (r: JsonValue)
        ensures
            jv(r) == enc_tools_capability(self.deep_view()),
    {
        let mut o: Vec<(String, JsonValue)> = Vec::new();
        if let Some(b) = &self.list_changed {
            o.push(("listChanged".to_owned(), JsonValue::Bool(*b)));
        }
        proof {
            lemma_jv_obj(o);
            assert(o.deep_view() =~= enc_tools_capability(self.deep_view())->Obj_0);
        }
        JsonValue::Obj(o)
    }

    /// The payload a JSON value holds, if it matches this shape.
    pub fn from_json(v: &JsonValue) -> (r: Option<ToolsCapability>)
        ensures
            r.deep_view() == dec_tools_capability(jv(*v)),
    {
        if !v.is_obj() {
            return None;
        }
        let x_list_changed = match v.f_opt_bool("listChanged") {
            Some(t) => t,
            None => {
                return None;
            },
        };
        Some(ToolsCapability { list_changed: x_list_changed })
    }
}

/// A `ToolsCapability` survives the wire.
pub proof fn lemma_rt_tools_capability(x: ToolsCapabilityV)
    ensures
        dec_tools_capability(enc_tools_capability(x)) == Some(x),
{
    reveal_strlit("listChanged");
    assert("listChanged"@.len() == 11);
}

/// How a `ServerCapabilities` stands on the wire.
pub open spec fn enc_server_capabilities(x: ServerCapabilitiesV) -> JsonV {
    JsonV::Obj(oentry("experimental"@, opt_obj(x.experimental), oentry("logging"@, opt_obj(x.logging), oentry("prompts"@, opt_prompts_capability(x.prompts), oentry("resources"@, opt_resources_capability(x.resources), oentry("tools"@, opt_tools_capability(x.tools), nilobj()))))))
}

/// The `ServerCapabilities` a JSON object holds, if it matches the shape.
pub open spec fn dec_server_capabilities(v: JsonV) -> Option<ServerCapabilitiesV> {
    if !(v matches JsonV::Obj(_)) {
        None
    } else {
        match get_opt_o(v, "experimental"@) {
            Some(f_experimental) =>
            match get_opt_o(v, "logging"@) {
                Some(f_logging) =>
                match get_opt_prompts_capability(v, "prompts"@) {
                    Some(f_prompts) =>
                    match get_opt_resources_capability(v, "resources"@) {
                        Some(f_resources) =>
                        match get_opt_tools_capability(v, "tools"@) {
                            Some(f_tools) =>
                             Some(ServerCapabilitiesV { experimental: f_experimental, logging: f_logging, prompts: f_prompts, resources: f_resources, tools: f_tools })
                            ,
                            None => None,
                        }
                        ,
                        None => None,
                    }
                    ,
                    None => None,
                }
                ,
                None => None,
            }
            ,
            None => None,
        }
    }
}

impl ServerCapabilities {
    /// This payload as a JSON object.
    pub fn to_json(&self) -> (r: JsonValue)
        ensures
            jv(r) == enc_server_capabilities(self.deep_view()),
    {
        let mut o: Vec<(String, JsonValue)> = Vec::new();
        if let Some(m) = &self.experimental {
            let w_experimental = clone_obj(m);
            proof {
                lemma_jv_obj(w_experimental);
            }
            o.push(("experimental".to_owned(), JsonValue::Obj(w_experimental)));
        }
        if let Some(m) = &self.logging {
            let w_logging = clone_obj(m);
            proof {
                lemma_jv_obj(w_logging);
            }
            o.push(("logging".to_owned(), JsonValue::Obj(w_logging)));
        }
        if let Some(t) = &self.prompts {
            o.push(("prompts".to_owned(), t.to_json()));
        }
        if let Some(t) = &self.resources {
            o.push(("resources".to_owned(), t.to_json()));
        }
        if let Some(t) = &self.tools {
            o.push(("tools".to_owned(), t.to_json()));
        }
        proof {
            lemma_jv_obj(o);
            assert(o.deep_view() =~= enc_server_capabilities(self.deep_view())->Obj_0);
        }
        JsonValue::Obj(o)
    }

    /// The payload a JSON value holds, if it matches this shape.
    pub fn from_json(v: &JsonValue) -> (r: Option<ServerCapabilities>)
        ensures
            r.deep_view() == dec_server_capabilities(jv(*v)),
    {
        if !v.is_obj() {
            return None;
        }
        let x_experimental = match v.f_opt_obj("experimental") {
            Some(t) => t,
            None => {
                return None;
            },
        };
        let x_logging = match v.f_opt_obj("logging") {
            Some(t) => t,
            None => {
                return None;
            },
        };
        let x_prompts = match v.get("prompts") {
            None => None,
            Some(JsonValue::Null) => None,
            Some(w) => match PromptsCapability::from_json(w) {
                Some(t) => Some(t),
                None => {
                    return None;
                },
            },
        };
        let x_resources = match v.get("resources") {
            None => None,
            Some(JsonValue::Null) => None,
            Some(w) => match ResourcesCapability::from_json(w) {
                Some(t) => Some(t),
                None => {
                    return None;
                },
            },
        };
        let x_tools = match v.get("tools") {
            None => None,
            Some(JsonValue::Null) => None,
            Some(w) => match ToolsCapability::from_json(w) {
                Some(t) => Some(t),
                None => {
                    return None;
                },
            },
        };
        Some(ServerCapabilities { experimental: x_experimental, logging: x_logging, prompts: x_prompts, resources: x_resources, tools: x_tools })
    }
}

/// A `ServerCapabilities` survives the wire.
pub proof fn lemma_rt_server_capabilities(x: ServerCapabilitiesV)
    ensures
        dec_server_capabilities(enc_server_capabilities(x)) == Some(x),
{
    reveal_strlit("experimental");
    reveal_strlit("logging");
    reveal_strlit("prompts");
    reveal_strlit("resources");
    reveal_strlit("tools");
    assert("experimental"@.len() == 12);
    assert("logging"@.len() == 7);
    assert("prompts"@.len() == 7);
    assert("resources"@.len() == 9);
    assert("tools"@.len() == 5);
    assert("logging"@.index(0) == 'l');
    assert("prompts"@.index(0) == 'p');
    match x.prompts {
        Some(t) => {
            lemma_rt_prompts_capability(t);
        },
        None => {},
    }
    match x.resources {
        Some(t) => {
            lemma_rt_resources_capability(t);
        },
        None => {},
    }
    match x.tools {
        Some(t) => {
            lemma_rt_tools_capability(t);
        },
        None => {},
    }
}

/// How a `InitializeRequestParam` stands on the wire.
pub open spec fn enc_initialize_request_param(x: InitializeRequestParamV) -> JsonV {
    JsonV::Obj(centry("protocolVersion"@, JsonV::Str(x.protocol_version), centry("capabilities"@, enc_client_capabilities(x.capabilities), centry("clientInfo"@, enc_implementation(x.client_info), nilobj()))))
}

/// The `InitializeRequestParam` a JSON object holds, if it matches the shape.
pub open spec fn dec_initialize_request_param(v: JsonV) -> Option<InitializeRequestParamV> {
    if !(v matches JsonV::Obj(_)) {
        None
    } else {
        match get_s(v, "protocolVersion"@) {
            Some(f_protocol_version) =>
            match get_client_capabilities(v, "capabilities"@) {
                Some(f_capabilities) =>
                match get_implementation(v, "clientInfo"@) {
                    Some(f_client_info) =>
                     Some(InitializeRequestParamV { protocol_version: f_protocol_version, capabilities: f_capabilities, client_info: f_client_info })
                    ,
                    None => None,
                }
                ,
                None => None,
            }
            ,
            None => None,
        }
    }
}

impl InitializeRequestParam {
    /// This payload as a JSON object.
    pub fn to_json(&self) -> (r: JsonValue)
        ensures
            jv(r) == enc_initialize_request_param(self.deep_view()),
    {
        let mut o: Vec<(String, JsonValue)> = Vec::new();
        o.push(("protocolVersion".to_owned(), JsonValue::Str(self.protocol_version.0.clone())));
        o.push(("capabilities".to_owned(), self.capabilities.to_json()));
        o.push(("clientInfo".to_owned(), self.client_info.to_json()));
        proof {
            lemma_jv_obj(o);
            assert(o.deep_view() =~= enc_initialize_request_param(self.deep_view())->Obj_0);
        }
        JsonValue::Obj(o)
    }

    /// The payload a JSON value holds, if it matches this shape.
    pub fn from_json(v: &JsonValue) -> (r: Option<InitializeRequestParam>)
        ensures
            r.deep_view() == dec_initialize_request_param(jv(*v)),
    {
        if !v.is_obj() {
            return None;
        }
        let x_protocol_version = match v.f_str("protocolVersion") {
            Some(t) => ProtocolVersion(t),
            None => {
                return None;
            },
        };
        let x_capabilities = match v.get("capabilities") {
            Some(w) => match ClientCapabilities::from_json(w) {
                Some(t) => t,
                None => {
                    return None;
                },
            },
            None => {
                return None;
            },
        };
        let x_client_info = match v.get("clientInfo") {
            Some(w) => match Implementation::from_json(w) {
                Some(t) => t,
                None => {
                    return None;
                },
            },
            None => {
                return None;
            },
        };
        Some(InitializeRequestParam { protocol_version: x_protocol_version, capabilities: x_capabilities, client_info: x_client_info })
    }
}

/// A `InitializeRequestParam` survives the wire.
pub proof fn lemma_rt_initialize_request_param(x: InitializeRequestParamV)
    ensures
        dec_initialize_request_param(enc_initialize_request_param(x)) == Some(x),
{
    reveal_strlit("capabilities");
    reveal_strlit("clientInfo");
    reveal_strlit("protocolVersion");
    assert("capabilities"@.len() == 12);
    assert("clientInfo"@.len() == 10);
    assert("protocolVersion"@.len() == 15);
    lemma_rt_client_capabilities(x.capabilities);
    lemma_rt_implementation(x.client_info);
}

/// How a `InitializeResult` stands on the wire.
pub open spec fn enc_initialize_result(x: InitializeResultV) -> JsonV {
    JsonV::Obj(centry("protocolVersion"@, JsonV::Str(x.protocol_version), centry("capabilities"@, enc_server_capabilities(x.capabilities), centry("serverInfo"@, enc_implementation(x.server_info), oentry("instructions"@, opt_str(x.instructions), nilobj())))))
}

/// The `InitializeResult` a JSON object holds, if it matches the shape.
pub open spec fn dec_initialize_result(v: JsonV) -> Option<InitializeResultV> {
    if !(v matches JsonV::Obj(_)) {
        None
    } else {
        match get_s(v, "protocolVersion"@) {
            Some(f_protocol_version) =>
            match get_server_capabilities(v, "capabilities"@) {
                Some(f_capabilities) =>
                match get_implementation(v, "serverInfo"@) {
                    Some(f_server_info) =>
                    match get_opt_s(v, "instructions"@) {
                        Some(f_instructions) =>
                         Some(InitializeResultV { protocol_version: f_protocol_version, capabilities: f_capabilities, server_info: f_server_info, instructions: f_instructions })
                        ,
                        None => None,
                    }
                    ,
                    None => None,
                }
                ,
                None => None,
            }
            ,
            None => None,
        }
    }
}

impl InitializeResult {
    /// This payload as a JSON object.
    pub fn to_json(&self) -> (r: JsonValue)
        ensures
            jv(r) == enc_initialize_result(self.deep_view()),
    {
        let mut o: Vec<(String, JsonValue)> = Vec::new();
        o.push(("protocolVersion".to_owned(), JsonValue::Str(self.protocol_version.0.clone())));
        o.push(("capabilities".to_owned(), self.capabilities.to_json()));
        o.push(("serverInfo".to_owned(), self.server_info.to_json()));
        if let Some(s) = &self.instructions {
            o.push(("instructions".to_owned(), JsonValue::Str(s.clone())));
        }
        proof {
            lemma_jv_obj(o);
            assert(o.deep_view() =~= enc_initialize_result(self.deep_view())->Obj_0);
        }
        JsonValue::Obj(o)
    }

    /// The payload a JSON value holds, if it matches this shape.
    pub fn from_json(v: &JsonValue) -> (r: Option<InitializeResult>)
        ensures
            r.deep_view() == dec_initialize_result(jv(*v)),
    {
        if !v.is_obj() {
            return None;
        }
        let x_protocol_version = match v.f_str("protocolVersion") {
            Some(t) => ProtocolVersion(t),
            None => {
                return None;
            },
        };
        let x_capabilities = match v.get("capabilities") {
            Some(w) => match ServerCapabilities::from_json(w) {
                Some(t) => t,
                None => {
                    return None;
                },
            },
            None => {
                return None;
            },
        };
        let x_server_info = match v.get("serverInfo") {
            Some(w) => match Implementation::from_json(w) {
                Some(t) => t,
                None => {
                    return None;
                },
            },
            None => {
                return None;
            },
        };
        let x_instructions = match v.f_opt_str("instructions") {
            Some(t) => t,
            None => {
                return None;
            },
        };
        Some(InitializeResult { protocol_version: x_protocol_version, capabilities: x_capabilities, server_info: x_server_info, instructions: x_instructions })
    }
}

/// A `InitializeResult` survives the wire.
pub proof fn lemma_rt_initialize_result(x: InitializeResultV)
    ensures
        dec_initialize_result(enc_initialize_result(x)) == Some(x),
{
    reveal_strlit("capabilities");
    reveal_strlit("instructions");
    reveal_strlit("protocolVersion");
    reveal_strlit("serverInfo");
    assert("capabilities"@.len() == 12);
    assert("instructions"@.len() == 12);
    assert("protocolVersion"@.len() == 15);
    assert("serverInfo"@.len() == 10);
    assert("capabilities"@.index(0) == 'c');
    assert("instructions"@.index(0) == 'i');
    lemma_rt_server_capabilities(x.capabilities);
    lemma_rt_implementation(x.server_info);
}

/// How a `CancelledNotificationParam` stands on the wire.
pub open spec fn enc_cancelled_notification_param(x: CancelledNotificationParamV) -> JsonV {
    JsonV::Obj(centry("requestId"@, enc_id(x.request_id), oentry("reason"@, opt_str(x.reason), nilobj())))
}

/// The `CancelledNotificationParam` a JSON object holds, if it matches the shape.
pub open spec fn dec_cancelled_notification_param(v: JsonV) -> Option<CancelledNotificationParamV> {
    if !(v matches JsonV::Obj(_)) {
        None
    } else {
        match get_id(v, "requestId"@) {
            Some(f_request_id) =>
            match get_opt_s(v, "reason"@) {
                Some(f_reason) =>
                 Some(CancelledNotificationParamV { request_id: f_request_id, reason: f_reason })
                ,
                None => None,
            }
            ,
            None => None,
        }
    }
}

impl CancelledNotificationParam {
    /// This payload as a JSON object.
    pub fn to_json(&self) -> (r: JsonValue)
        ensures
            jv(r) == enc_cancelled_notification_param(self.deep_view()),
    {
        let mut o: Vec<(String, JsonValue)> = Vec::new();
        o.push(("requestId".to_owned(), self.request_id.to_json()));
        if let Some(s) = &self.reason {
            o.push(("reason".to_owned(), JsonValue::Str(s.clone())));
        }
        proof {
            lemma_jv_obj(o);
            assert(o.deep_view() =~= enc_cancelled_notification_param(self.deep_view())->Obj_0);
        }
        JsonValue::Obj(o)
    }

    /// The payload a JSON value holds, if it matches this shape.
    pub fn from_json(v: &JsonValue) -> (r: Option<CancelledNotificationParam>)
        ensures
            r.deep_view() == dec_cancelled_notification_param(jv(*v)),
    {
        if !v.is_obj() {
            return None;
        }
        let x_request_id = match v.get("requestId") {
            Some(w) => match NumberOrString::from_json(w) {
                Some(i) => i,
                None => {
                    return None;
                },
            },
            None => {
                return None;
            },
        };
        let x_reason = match v.f_opt_str("reason") {
            Some(t) => t,
            None => {
                return None;
            },
        };
        Some(CancelledNotificationParam { request_id: x_request_id, reason: x_reason })
    }
}

/// A `CancelledNotificationParam` survives the wire.
pub proof fn lemma_rt_cancelled_notification_param(x: CancelledNotificationParamV)
    ensures
        dec_cancelled_notification_param(enc_cancelled_notification_param(x)) == Some(x),
{
    reveal_strlit("reason");
    reveal_strlit("requestId");
    assert("reason"@.len() == 6);
    assert("requestId"@.len() == 9);
    lemma_id_round_trip(x.request_id);
}

/// How a `ProgressNotificationParam` stands on the wire.
pub open spec fn enc_progress_notification_param(x: ProgressNotificationParamV) -> JsonV {
    JsonV::Obj(centry("progressToken"@, enc_id(x.progress_token), centry("progress"@, JsonV::Int(x.progress as int), oentry("total"@, opt_int(x.total), nilobj()))))
}

/// The `ProgressNotificationParam` a JSON object holds, if it matches the shape.
pub open spec fn dec_progress_notification_param(v: JsonV) -> Option<ProgressNotificationParamV> {
    if !(v matches JsonV::Obj(_)) {
        None
    } else {
        match get_id(v, "progressToken"@) {
            Some(f_progress_token) =>
            match get_u(v, "progress"@) {
                Some(f_progress) =>
                match get_opt_u(v, "total"@) {
                    Some(f_total) =>
                     Some(ProgressNotificationParamV { progress_token: f_progress_token, progress: f_progress, total: f_total })
                    ,
                    None => None,
                }
                ,
                None => None,
            }
            ,
            None => None,
        }
    }
}

impl ProgressNotificationParam {
    /// This payload as a JSON object.
    pub fn to_json(&self) -> (r: JsonValue)
        ensures
            jv(r) == enc_progress_notification_param(self.deep_view()),
    {
        let mut o: Vec<(String, JsonValue)> = Vec::new();
        o.push(("progressToken".to_owned(), self.progress_token.to_json()));
        o.push(("progress".to_owned(), JsonValue::Int(self.progress as i64)));
        if let Some(u) = &self.total {
            o.push(("total".to_owned(), JsonValue::Int(*u as i64)));
        }
        proof {
            lemma_jv_obj(o);
            assert(o.deep_view() =~= enc_progress_notification_param(self.deep_view())->Obj_0);
        }
        JsonValue::Obj(o)
    }

    /// The payload a JSON value holds, if it matches this shape.
    pub fn from_json(v: &JsonValue) -> (r: Option<ProgressNotificationParam>)
        ensures
            r.deep_view() == dec_progress_notification_param(jv(*v)),
    {
        if !v.is_obj() {
            return None;
        }
        let x_progress_token = match v.get("progressToken") {
            Some(w) => match NumberOrString::from_json(w) {
                Some(i) => i,
                None => {
                    return None;
                },
            },
            None => {
                return None;
            },
        };
        let x_progress = match v.f_u32("progress") {
            Some(t) => t,
            None => {
                return None;
            },
        };
        let x_total = match v.f_opt_u32("total") {
            Some(t) => t,
            None => {
                return None;
            },
        };
        Some(ProgressNotificationParam { progress_token: x_progress_token, progress: x_progress, total: x_total })
    }
}

/// A `ProgressNotificationParam` survives the wire.
pub proof fn lemma_rt_progress_notification_param(x: ProgressNotificationParamV)
    ensures
        dec_progress_notification_param(enc_progress_notification_param(x)) == Some(x),
{
    reveal_strlit("progress");
    reveal_strlit("progressToken");
    reveal_strlit("total");
    assert("progress"@.len() == 8);
    assert("progressToken"@.len() == 13);
    assert("total"@.len() == 5);
    lemma_id_round_trip(x.progress_token);
}

/// How a `PaginatedRequestParam` stands on the wire.
pub open spec fn enc_paginated_request_param(x: PaginatedRequestParamV) -> JsonV {
    JsonV::Obj(oentry("cursor"@, opt_str(x.cursor), nilobj()))
}

/// The `PaginatedRequestParam` a JSON object holds, if it matches the shape.
pub open spec fn dec_paginated_request_param(v: JsonV) -> Option<PaginatedRequestParamV> {
    if !(v matches JsonV::Obj(_)) {
        None
    } else {
        match get_opt_s(v, "cursor"@) {
            Some(f_cursor) =>
             Some(PaginatedRequestParamV { cursor: f_cursor })
            ,
            None => None,
        }
    }
}

impl PaginatedRequestParam {
    /// This payload as a JSON object.
    pub fn to_json(&self) -> (r: JsonValue)
        ensures
            jv(r) == enc_paginated_request_param(self.deep_view()),
    {
        let mut o: Vec<(String, JsonValue)> = Vec::new();
        if let Some(s) = &self.cursor {
            o.push(("cursor".to_owned(), JsonValue::Str(s.clone())));
        }
        proof {
            lemma_jv_obj(o);
            assert(o.deep_view() =~= enc_paginated_request_param(self.deep_view())->Obj_0);
        }
        JsonValue::Obj(o)
    }

    /// The payload a JSON value holds, if it matches this shape.
    pub fn from_json(v: &JsonValue) -> (r: Option<PaginatedRequestParam>)
        ensures
            r.deep_view() == dec_paginated_request_param(jv(*v)),
    {
        if !v.is_obj() {
            return None;
        }
        let x_cursor = match v.f_opt_str("cursor") {
            Some(t) => t,
            None => {
                return None;
            },
        };
        Some(PaginatedRequestParam { cursor: x_cursor })
    }
}

/// A `PaginatedRequestParam` survives the wire.
pub proof fn lemma_rt_paginated_request_param(x: PaginatedRequestParamV)
    ensures
        dec_paginated_request_param(enc_paginated_request_param(x)) == Some(x),
{
    reveal_strlit("cursor");
    assert("cursor"@.len() == 6);
}

/// How a `ReadResourceRequestParam` stands on the wire.
pub open spec fn enc_read_resource_request_param(x: ReadResourceRequestParamV) -> JsonV {
    JsonV::Obj(centry("uri"@, JsonV::Str(x.uri), nilobj()))
}

/// The `ReadResourceRequestParam` a JSON object holds, if it matches the shape.
pub open spec fn dec_read_resource_request_param(v: JsonV) -> Option<ReadResourceRequestParamV> {
    if !(v matches JsonV::Obj(_)) {
        None
    } else {
        match get_s(v, "uri"@) {
            Some(f_uri) =>
             Some(ReadResourceRequestParamV { uri: f_uri })
            ,
            None => None,
        }
    }
}

impl ReadResourceRequestParam {
    /// This payload as a JSON object.
    pub fn to_json(&self) -> (r: JsonValue)
        ensures
            jv(r) == enc_read_resource_request_param(self.deep_view()),
    {
        let mut o: Vec<(String, JsonValue)> = Vec::new();
        o.push(("uri".to_owned(), JsonValue::Str(self.uri.clone())));
        proof {
            lemma_jv_obj(o);
            assert(o.deep_view() =~= enc_read_resource_request_param(self.deep_view())->Obj_0);
        }
        JsonValue::Obj(o)
    }

    /// The payload a JSON value holds, if it matches this shape.
    pub fn from_json(v: &JsonValue) -> (r: Option<ReadResourceRequestParam>)
        ensures
            r.deep_view() == dec_read_resource_request_param(jv(*v)),
    {
        if !v.is_obj() {
            return None;
        }
        let x_uri = match v.f_str("uri") {
            Some(t) => t,
            None => {
                return None;
            },
        };
        Some(ReadResourceRequestParam { uri: x_uri })
    }
}

/// A `ReadResourceRequestParam` survives the wire.
pub proof fn lemma_rt_read_resource_request_param(x: ReadResourceRequestParamV)
    ensures
        dec_read_resource_request_param(enc_read_resource_request_param(x)) == Some(x),
{
    reveal_strlit("uri");
    assert("uri"@.len() == 3);
}

/// How a `SubscribeRequestParam` stands on the wire.
pub open spec fn enc_subscribe_request_param(x: SubscribeRequestParamV) -> JsonV {
    JsonV::Obj(centry("uri"@, JsonV::Str(x.uri), nilobj()))
}

/// The `SubscribeRequestParam` a JSON object holds, if it matches the shape.
pub open spec fn dec_subscribe_request_param(v: JsonV) -> Option<SubscribeRequestParamV> {
    if !(v matches JsonV::Obj(_)) {
        None
    } else {
        match get_s(v, "uri"@) {
            Some(f_uri) =>
             Some(SubscribeRequestParamV { uri: f_uri })
            ,
            None => None,
        }
    }
}

impl SubscribeRequestParam {
    /// This payload as a JSON object.
    pub fn to_json(&self) -> (r: JsonValue)
        ensures
            jv(r) == enc_subscribe_request_param(self.deep_view()),
    {
        let mut o: Vec<(String, JsonValue)> = Vec::new();
        o.push(("uri".to_owned(), JsonValue::Str(self.uri.clone())));
        proof {
            lemma_jv_obj(o);
            assert(o.deep_view() =~= enc_subscribe_request_param(self.deep_view())->Obj_0);
        }
        JsonValue::Obj(o)
    }

    /// The payload a JSON value holds, if it matches this shape.
    pub fn from_json(v: &JsonValue) -> (r: Option<SubscribeRequestParam>)
        ensures
            r.deep_view() == dec_subscribe_request_param(jv(*v)),
    {
        if !v.is_obj() {
            return None;
        }
        let x_uri = match v.f_str("uri") {
            Some(t) => t,
            None => {
                return None;
            },
        };
        Some(SubscribeRequestParam { uri: x_uri })
    }
}

/// A `SubscribeRequestParam` survives the wire.
pub proof fn lemma_rt_subscribe_request_param(x: SubscribeRequestParamV)
    ensures
        dec_subscribe_request_param(enc_subscribe_request_param(x)) == Some(x),
{
    reveal_strlit("uri");
    assert("uri"@.len() == 3);
}

/// How a `UnsubscribeRequestParam` stands on the wire.
pub open spec fn enc_unsubscribe_request_param(x: UnsubscribeRequestParamV) -> JsonV {
    JsonV::Obj(centry("uri"@, JsonV::Str(x.uri), nilobj()))
}

/// The `UnsubscribeRequestParam` a JSON object holds, if it matches the shape.
pub open spec fn dec_unsubscribe_request_param(v: JsonV) -> Option<UnsubscribeRequestParamV> {
    if !(v matches JsonV::Obj(_)) {
        None
    } else {
        match get_s(v, "uri"@) {
            Some(f_uri) =>
             Some(UnsubscribeRequestParamV { uri: f_uri })
            ,
            None => None,
        }
    }
}

impl UnsubscribeRequestParam {
    /// This payload as a JSON object.
    pub fn to_json(&self) -> (r: JsonValue)
        ensures
            jv(r) == enc_unsubscribe_request_param(self.deep_view()),
    {
        let mut o: Vec<(String, JsonValue)> = Vec::new();
        o.push(("uri".to_owned(), JsonValue::Str(self.uri.clone())));
        proof {
            lemma_jv_obj(o);
            assert(o.deep_view() =~= enc_unsubscribe_request_param(self.deep_view())->Obj_0);
        }
        JsonValue::Obj(o)
    }

    /// The payload a JSON value holds, if it matches this shape.
    pub fn from_json(v: &JsonValue) -> (r: Option<UnsubscribeRequestParam>)
        ensures
            r.deep_view() == dec_unsubscribe_request_param(jv(*v)),
    {
        if !v.is_obj() {
            return None;
        }
        let x_uri = match v.f_str("uri") {
            Some(t) => t,
            None => {
                return None;
            },
        };
        Some(UnsubscribeRequestParam { uri: x_uri })
    }
}

/// A `UnsubscribeRequestParam` survives the wire.
pub proof fn lemma_rt_unsubscribe_request_param(x: UnsubscribeRequestParamV)
    ensures
        dec_unsubscribe_request_param(enc_unsubscribe_request_param(x)) == Some(x),
{
    reveal_strlit("uri");
    assert("uri"@.len() == 3);
}

/// How a `ResourceUpdatedNotificationParam` stands on the wire.
pub open spec fn enc_resource_updated_notification_param(x: ResourceUpdatedNotificationParamV) -> JsonV {
    JsonV::Obj(centry("uri"@, JsonV::Str(x.uri), nilobj()))
}

/// The `ResourceUpdatedNotificationParam` a JSON object holds, if it matches the shape.
pub open spec fn dec_resource_updated_notification_param(v: JsonV) -> Option<ResourceUpdatedNotificationParamV> {
    if !(v matches JsonV::Obj(_)) {
        None
    } else {
        match get_s(v, "uri"@) {
            Some(f_uri) =>
             Some(ResourceUpdatedNotificationParamV { uri: f_uri })
            ,
            None => None,
        }
    }
}

impl ResourceUpdatedNotificationParam {
    /// This payload as a JSON object.
    pub fn to_json(&self) -> (r: JsonValue)
        ensures
            jv(r) == enc_resource_updated_notification_param(self.deep_view()),
    {
        let mut o: Vec<(String, JsonValue)> = Vec::new();
        o.push(("uri".to_owned(), JsonValue::Str(self.uri.clone())));
        proof {
            lemma_jv_obj(o);
            assert(o.deep_view() =~= enc_resource_updated_notification_param(self.deep_view())->Obj_0);
        }
        JsonValue::Obj(o)
    }

    /// The payload a JSON value holds, if it matches this shape.
    pub fn from_json(v: &JsonValue) -> (r: Option<ResourceUpdatedNotificationParam>)
        ensures
            r.deep_view() == dec_resource_updated_notification_param(jv(*v)),
    {
        if !v.is_obj() {
            return None;
        }
        let x_uri = match v.f_str("uri") {
            Some(t) => t,
            None => {
                return None;
            },
        };
        Some(ResourceUpdatedNotificationParam { uri: x_uri })
    }
}

/// A `ResourceUpdatedNotificationParam` survives the wire.
pub proof fn lemma_rt_resource_updated_notification_param(x: ResourceUpdatedNotificationParamV)
    ensures
        dec_resource_updated_notification_param(enc_resource_updated_notification_param(x)) == Some(x),
{
    reveal_strlit("uri");
    assert("uri"@.len() == 3);
}

/// How a `GetPromptRequestParam` stands on the wire.
pub open spec fn enc_get_prompt_request_param(x: GetPromptRequestParamV) -> JsonV {
    JsonV::Obj(centry("name"@, JsonV::Str(x.name), oentry("arguments"@, opt_obj(x.arguments), nilobj())))
}

/// The `GetPromptRequestParam` a JSON object holds, if it matches the shape.
pub open spec fn dec_get_prompt_request_param(v: JsonV) -> Option<GetPromptRequestParamV> {
    if !(v matches JsonV::Obj(_)) {
        None
    } else {
        match get_s(v, "name"@) {
            Some(f_name) =>
            match get_opt_o(v, "arguments"@) {
                Some(f_arguments) =>
                 Some(GetPromptRequestParamV { name: f_name, arguments: f_arguments })
                ,
                None => None,
            }
            ,
            None => None,
        }
    }
}

impl GetPromptRequestParam {
    /// This payload as a JSON object.
    pub fn to_json(&self) -> (r: JsonValue)
        ensures
            jv(r) == enc_get_prompt_request_param(self.deep_view()),
    {
        let mut o: Vec<(String, JsonValue)> = Vec::new();
        o.push(("name".to_owned(), JsonValue::Str(self.name.clone())));
        if let Some(m) = &self.arguments {
            let w_arguments = clone_obj(m);
            proof {
                lemma_jv_obj(w_arguments);
            }
            o.push(("arguments".to_owned(), JsonValue::Obj(w_arguments)));
        }
        proof {
            lemma_jv_obj(o);
            assert(o.deep_view() =~= enc_get_prompt_request_param(self.deep_view())->Obj_0);
        }
        JsonValue::Obj(o)
    }

    /// The payload a JSON value holds, if it matches this shape.
    pub fn from_json(v: &JsonValue) -> (r: Option<GetPromptRequestParam>)
        ensures
            r.deep_view() == dec_get_prompt_request_param(jv(*v)),
    {
        if !v.is_obj() {
            return None;
        }
        let x_name = match v.f_str("name") {
            Some(t) => t,
            None => {
                return None;
            },
        };
        let x_arguments = match v.f_opt_obj("arguments") {
            Some(t) => t,
            None => {
                return None;
            },
        };
        Some(GetPromptRequestParam { name: x_name, arguments: x_arguments })
    }
}

/// A `GetPromptRequestParam` survives the wire.
pub proof fn lemma_rt_get_prompt_request_param(x: GetPromptRequestParamV)
    ensures
        dec_get_prompt_request_param(enc_get_prompt_request_param(x)) == Some(x),
{
    reveal_strlit("arguments");
    reveal_strlit("name");
    assert("arguments"@.len() == 9);
    assert("name"@.len() == 4);
}

/// How a `SetLevelRequestParam` stands on the wire.
pub open spec fn enc_set_level_request_param(x: SetLevelRequestParamV) -> JsonV {
    JsonV::Obj(centry("level"@, JsonV::Str(level_str(x.level)), nilobj()))
}

/// The `SetLevelRequestParam` a JSON object holds, if it matches the shape.
pub open spec fn dec_set_level_request_param(v: JsonV) -> Option<SetLevelRequestParamV> {
    if !(v matches JsonV::Obj(_)) {
        None
    } else {
        match get_level(v, "level"@) {
            Some(f_level) =>
             Some(SetLevelRequestParamV { level: f_level })
            ,
            None => None,
        }
    }
}

impl SetLevelRequestParam {
    /// This payload as a JSON object.
    pub fn to_json(&self) -> (r: JsonValue)
        ensures
            jv(r) == enc_set_level_request_param(self.deep_view()),
    {
        let mut o: Vec<(String, JsonValue)> = Vec::new();
        o.push(("level".to_owned(), JsonValue::Str(level_string(&self.level))));
        proof {
            lemma_jv_obj(o);
            assert(o.deep_view() =~= enc_set_level_request_param(self.deep_view())->Obj_0);
        }
        JsonValue::Obj(o)
    }

    /// The payload a JSON value holds, if it matches this shape.
    pub fn from_json(v: &JsonValue) -> (r: Option<SetLevelRequestParam>)
        ensures
            r.deep_view() == dec_set_level_request_param(jv(*v)),
    {
        if !v.is_obj() {
            return None;
        }
        let x_level = match v.f_str("level") {
            Some(s) => match level_from_string(&s) {
                Some(l) => l,
                None => {
                    return None;
                },
            },
            None => {
                return None;
            },
        };
        Some(SetLevelRequestParam { level: x_level })
    }
}

/// A `SetLevelRequestParam` survives the wire.
pub proof fn lemma_rt_set_level_request_param(x: SetLevelRequestParamV)
    ensures
        dec_set_level_request_param(enc_set_level_request_param(x)) == Some(x),
{
    reveal_strlit("level");
    assert("level"@.len() == 5);
    lemma_rt_level(x.level);
}

/// How a `LoggingMessageNotificationParam` stands on the wire.
pub open spec fn enc_logging_message_notification_param(x: LoggingMessageNotificationParamV) -> JsonV {
    JsonV::Obj(centry("level"@, JsonV::Str(level_str(x.level)), oentry("logger"@, opt_str(x.logger), centry("data"@, x.data, nilobj()))))
}

/// The `LoggingMessageNotificationParam` a JSON object holds, if it matches the shape.
pub open spec fn dec_logging_message_notification_param(v: JsonV) -> Option<LoggingMessageNotificationParamV> {
    if !(v matches JsonV::Obj(_)) {
        None
    } else {
        match get_level(v, "level"@) {
            Some(f_level) =>
            match get_opt_s(v, "logger"@) {
                Some(f_logger) =>
                match get_any(v, "data"@) {
                    Some(f_data) =>
                     Some(LoggingMessageNotificationParamV { level: f_level, logger: f_logger, data: f_data })
                    ,
                    None => None,
                }
                ,
                None => None,
            }
            ,
            None => None,
        }
    }
}

impl LoggingMessageNotificationParam {
    /// This payload as a JSON object.
    pub fn to_json(&self) -> (r: JsonValue)
        ensures
            jv(r) == enc_logging_message_notification_param(self.deep_view()),
    {
        let mut o: Vec<(String, JsonValue)> = Vec::new();
        o.push(("level".to_owned(), JsonValue::Str(level_string(&self.level))));
        if let Some(s) = &self.logger {
            o.push(("logger".to_owned(), JsonValue::Str(s.clone())));
        }
        o.push(("data".to_owned(), self.data.duplicate()));
        proof {
            lemma_jv_obj(o);
            assert(o.deep_view() =~= enc_logging_message_notification_param(self.deep_view())->Obj_0);
        }
        JsonValue::Obj(o)
    }

    /// The payload a JSON value holds, if it matches this shape.
    pub fn from_json(v: &JsonValue) -> (r: Option<LoggingMessageNotificationParam>)
        ensures
            r.deep_view() == dec_logging_message_notification_param(jv(*v)),
    {
        if !v.is_obj() {
            return None;
        }
        let x_level = match v.f_str("level") {
            Some(s) => match level_from_string(&s) {
                Some(l) => l,
                None => {
                    return None;
                },
            },
            None => {
                return None;
            },
        };
        let x_logger = match v.f_opt_str("logger") {
            Some(t) => t,
            None => {
                return None;
            },
        };
        let x_data = match v.f_any("data") {
            Some(t) => t,
            None => {
                return None;
            },
        };
        Some(LoggingMessageNotificationParam { level: x_level, logger: x_logger, data: x_data })
    }
}

/// A `LoggingMessageNotificationParam` survives the wire.
pub proof fn lemma_rt_logging_message_notification_param(x: LoggingMessageNotificationParamV)
    ensures
        dec_logging_message_notification_param(enc_logging_message_notification_param(x)) == Some(x),
{
    reveal_strlit("data");
    reveal_strlit("level");
    reveal_strlit("logger");
    assert("data"@.len() == 4);
    assert("level"@.len() == 5);
    assert("logger"@.len() == 6);
    lemma_rt_level(x.level);
}

/// How a `SamplingMessage` stands on the wire.
pub open spec fn enc_sampling_message(x: SamplingMessageV) -> JsonV {
    JsonV::Obj(centry("role"@, JsonV::Str(role_str(x.role)), centry("content"@, enc_content(x.content), nilobj())))
}

/// The `SamplingMessage` a JSON object holds, if it matches the shape.
pub open spec fn dec_sampling_message(v: JsonV) -> Option<SamplingMessageV> {
    if !(v matches JsonV::Obj(_)) {
        None
    } else {
        match get_role(v, "role"@) {
            Some(f_role) =>
            match get_content(v, "content"@) {
                Some(f_content) =>
                 Some(SamplingMessageV { role: f_role, content: f_content })
                ,
                None => None,
            }
            ,
            None => None,
        }
    }
}

impl SamplingMessage {
    /// This payload as a JSON object.
    pub fn to_json(&self) -> (r: JsonValue)
        ensures
            jv(r) == enc_sampling_message(self.deep_view()),
    {
        let mut o: Vec<(String, JsonValue)> = Vec::new();
        o.push(("role".to_owned(), JsonValue::Str(role_string(&self.role))));
        o.push(("content".to_owned(), self.content.to_json()));
        proof {
            lemma_jv_obj(o);
            assert(o.deep_view() =~= enc_sampling_message(self.deep_view())->Obj_0);
        }
        JsonValue::Obj(o)
    }

    /// The payload a JSON value holds, if it matches this shape.
    pub fn from_json(v: &JsonValue) -> (r: Option<SamplingMessage>)
        ensures
            r.deep_view() == dec_sampling_message(jv(*v)),
    {
        if !v.is_obj() {
            return None;
        }
        let x_role = match v.f_str("role") {
            Some(s) => match role_from_string(&s) {
                Some(l) => l,
                None => {
                    return None;
                },
            },
            None => {
                return None;
            },
        };
        let x_content = match v.get("content") {
            Some(w) => match Content::from_json(w) {
                Some(t) => t,
                None => {
                    return None;
                },
            },
            None => {
                return None;
            },
        };
        Some(SamplingMessage { role: x_role, content: x_content })
    }
}

/// A `SamplingMessage` survives the wire.
pub proof fn lemma_rt_sampling_message(x: SamplingMessageV)
    ensures
        dec_sampling_message(enc_sampling_message(x)) == Some(x),
{
    reveal_strlit("content");
    reveal_strlit("role");
    assert("content"@.len() == 7);
    assert("role"@.len() == 4);
    lemma_rt_role(x.role);
    lemma_rt_content(x.content);
}

/// How a `ModelHint` stands on the wire.
pub open spec fn enc_model_hint(x: ModelHintV) -> JsonV {
    JsonV::Obj(oentry("name"@, opt_str(x.name), nilobj()))
}

/// The `ModelHint` a JSON object holds, if it matches the shape.
pub open spec fn dec_model_hint(v: JsonV) -> Option<ModelHintV> {
    if !(v matches JsonV::Obj(_)) {
        None
    } else {
        match get_opt_s(v, "name"@) {
            Some(f_name) =>
             Some(ModelHintV { name: f_name })
            ,
            None => None,
        }
    }
}

impl ModelHint {
    /// This payload as a JSON object.
    pub fn to_json(&self) -> (r: JsonValue)
        ensures
            jv(r) == enc_model_hint(self.deep_view()),
    {
        let mut o: Vec<(String, JsonValue)> = Vec::new();
        if let Some(s) = &self.name {
            o.push(("name".to_owned(), JsonValue::Str(s.clone())));
        }
        proof {
            lemma_jv_obj(o);
            assert(o.deep_view() =~= enc_model_hint(self.deep_view())->Obj_0);
        }
        JsonValue::Obj(o)
    }

    /// The payload a JSON value holds, if it matches this shape.
    pub fn from_json(v: &JsonValue) -> (r: Option<ModelHint>)
        ensures
            r.deep_view() == dec_model_hint(jv(*v)),
    {
        if !v.is_obj() {
            return None;
        }
        let x_name = match v.f_opt_str("name") {
            Some(t) => t,
            None => {
                return None;
            },
        };
        Some(ModelHint { name: x_name })
    }
}

/// A `ModelHint` survives the wire.
pub proof fn lemma_rt_model_hint(x: ModelHintV)
    ensures
        dec_model_hint(enc_model_hint(x)) == Some(x),
{
    reveal_strlit("name");
    assert("name"@.len() == 4);
}

/// How a `CreateMessageRequestParam` stands on the wire.
pub open spec fn enc_create_message_request_param(x: CreateMessageRequestParamV) -> JsonV {
    JsonV::Obj(centry("messages"@, JsonV::Arr(enc_seq_sampling_message(x.messages)), oentry("systemPrompt"@, opt_str(x.system_prompt), oentry("includeContext"@, opt_str(x.include_context), centry("maxTokens"@, JsonV::Int(x.max_tokens as int), oentry("stopSequences"@, opt_arr_string(x.stop_sequences), oentry("metadata"@, x.metadata, nilobj())))))))
}

/// The `CreateMessageRequestParam` a JSON object holds, if it matches the shape.
pub open spec fn dec_create_message_request_param(v: JsonV) -> Option<CreateMessageRequestParamV> {
    if !(v matches JsonV::Obj(_)) {
        None
    } else {
        match get_vec_sampling_message(v, "messages"@) {
            Some(f_messages) =>
            match get_opt_s(v, "systemPrompt"@) {
                Some(f_system_prompt) =>
                match get_opt_s(v, "includeContext"@) {
                    Some(f_include_context) =>
                    match get_u(v, "maxTokens"@) {
                        Some(f_max_tokens) =>
                        match get_opt_vec_string(v, "stopSequences"@) {
                            Some(f_stop_sequences) =>
                             Some(CreateMessageRequestParamV { messages: f_messages, system_prompt: f_system_prompt, include_context: f_include_context, max_tokens: f_max_tokens, stop_sequences: f_stop_sequences, metadata: get_oj(v, "metadata"@) })
                            ,
                            None => None,
                        }
                        ,
                        None => None,
                    }
                    ,
                    None => None,
                }
                ,
                None => None,
            }
            ,
            None => None,
        }
    }
}

impl CreateMessageRequestParam {
    /// This payload as a JSON object.
    pub fn to_json(&self) -> (r: JsonValue)
        ensures
            jv(r) == enc_create_message_request_param(self.deep_view()),
    {
        let mut o: Vec<(String, JsonValue)> = Vec::new();
        let arr_messages = enc_vec_sampling_message(&self.messages);
        proof {
            lemma_jv_arr(arr_messages);
        }
        o.push(("messages".to_owned(), JsonValue::Arr(arr_messages)));
        if let Some(s) = &self.system_prompt {
            o.push(("systemPrompt".to_owned(), JsonValue::Str(s.clone())));
        }
        if let Some(s) = &self.include_context {
            o.push(("includeContext".to_owned(), JsonValue::Str(s.clone())));
        }
        o.push(("maxTokens".to_owned(), JsonValue::Int(self.max_tokens as i64)));
        if let Some(items) = &self.stop_sequences {
            let arr_stop_sequences = enc_vec_string(items);
            proof {
                lemma_jv_arr(arr_stop_sequences);
            }
            o.push(("stopSequences".to_owned(), JsonValue::Arr(arr_stop_sequences)));
        }
        if let Some(vv) = &self.metadata {
            o.push(("metadata".to_owned(), vv.duplicate()));
        }
        proof {
            lemma_jv_obj(o);
            assert(o.deep_view() =~= enc_create_message_request_param(self.deep_view())->Obj_0);
        }
        JsonValue::Obj(o)
    }

    /// The payload a JSON value holds, if it matches this shape.
    pub fn from_json(v: &JsonValue) -> (r: Option<CreateMessageRequestParam>)
        ensures
            r.deep_view() == dec_create_message_request_param(jv(*v)),
    {
        if !v.is_obj() {
            return None;
        }
        let x_messages = match v.get("messages") {
            Some(JsonValue::Arr(a)) => {
                proof {
                    lemma_jv_arr(*a);
                }
                match dec_vec_sampling_message(a) {
                    Some(list) => list,
                    None => {
                        return None;
                    },
                }
            },
            _ => {
                return None;
            },
        };
        let x_system_prompt = match v.f_opt_str("systemPrompt") {
            Some(t) => t,
            None => {
                return None;
            },
        };
        let x_include_context = match v.f_opt_str("includeContext") {
            Some(t) => t,
            None => {
                return None;
            },
        };
        let x_max_tokens = match v.f_u32("maxTokens") {
            Some(t) => t,
            None => {
                return None;
            },
        };
        let x_stop_sequences = match v.get("stopSequences") {
            None => None,
            Some(JsonValue::Null) => None,
            Some(JsonValue::Arr(a)) => {
                proof {
                    lemma_jv_arr(*a);
                }
                match dec_vec_string(a) {
                    Some(list) => Some(list),
                    None => {
                        return None;
                    },
                }
            },
            Some(_) => {
                return None;
            },
        };
        let x_metadata = v.f_opt_any("metadata");
        Some(CreateMessageRequestParam { messages: x_messages, system_prompt: x_system_prompt, include_context: x_include_context, max_tokens: x_max_tokens, stop_sequences: x_stop_sequences, metadata: x_metadata })
    }
}

/// A `CreateMessageRequestParam` survives the wire.
pub proof fn lemma_rt_create_message_request_param(x: CreateMessageRequestParamV)
    requires
        x.metadata != Some(JsonV::Null),
    ensures
        dec_create_message_request_param(enc_create_message_request_param(x)) == Some(x),
{
    reveal_strlit("includeContext");
    reveal_strlit("maxTokens");
    reveal_strlit("messages");
    reveal_strlit("metadata");
    reveal_strlit("stopSequences");
    reveal_strlit("systemPrompt");
    assert("includeContext"@.len() == 14);
    assert("maxTokens"@.len() == 9);
    assert("messages"@.len() == 8);
    assert("metadata"@.len() == 8);
    assert("stopSequences"@.len() == 13);
    assert("systemPrompt"@.len() == 12);
    assert("messages"@.index(2) == 's');
    assert("metadata"@.index(2) == 't');
    lemma_rt_seq_sampling_message(x.messages);
    match x.stop_sequences {
        Some(items) => {
            lemma_rt_seq_string(items);
        },
        None => {},
    }
}

/// How a `ArgumentInfo` stands on the wire.
pub open spec fn enc_argument_info(x: ArgumentInfoV) -> JsonV {
    JsonV::Obj(centry("name"@, JsonV::Str(x.name), centry("value"@, JsonV::Str(x.value), nilobj())))
}

/// The `ArgumentInfo` a JSON object holds, if it matches the shape.
pub open spec fn dec_argument_info(v: JsonV) -> Option<ArgumentInfoV> {
    if !(v matches JsonV::Obj(_)) {
        None
    } else {
        match get_s(v, "name"@) {
            Some(f_name) =>
            match get_s(v, "value"@) {
                Some(f_value) =>
                 Some(ArgumentInfoV { name: f_name, value: f_value })
                ,
                None => None,
            }
            ,
            None => None,
        }
    }
}

impl ArgumentInfo {
    /// This payload as a JSON object.
    pub fn to_json(&self) -> (r: JsonValue)
        ensures
            jv(r) == enc_argument_info(self.deep_view()),
    {
        let mut o: Vec<(String, JsonValue)> = Vec::new();
        o.push(("name".to_owned(), JsonValue::Str(self.name.clone())));
        o.push(("value".to_owned(), JsonValue::Str(self.value.clone())));
        proof {
            lemma_jv_obj(o);
            assert(o.deep_view() =~= enc_argument_info(self.deep_view())->Obj_0);
        }
        JsonValue::Obj(o)
    }

    /// The payload a JSON value holds, if it matches this shape.
    pub fn from_json(v: &JsonValue) -> (r: Option<ArgumentInfo>)
        ensures
            r.deep_view() == dec_argument_info(jv(*v)),
    {
        if !v.is_obj() {
            return None;
        }
        let x_name = match v.f_str("name") {
            Some(t) => t,
            None => {
                return None;
            },
        };
        let x_value = match v.f_str("value") {
            Some(t) => t,
            None => {
                return None;
            },
        };
        Some(ArgumentInfo { name: x_name, value: x_value })
    }
}

/// A `ArgumentInfo` survives the wire.
pub proof fn lemma_rt_argument_info(x: ArgumentInfoV)
    ensures
        dec_argument_info(enc_argument_info(x)) == Some(x),
{
    reveal_strlit("name");
    reveal_strlit("value");
    assert("name"@.len() == 4);
    assert("value"@.len() == 5);
}

/// How a `CompleteRequestParam` stands on the wire.
pub open spec fn enc_complete_request_param(x: CompleteRequestParamV) -> JsonV {
    JsonV::Obj(centry("ref"@, enc_reference(x.reference), centry("argument"@, enc_argument_info(x.argument), nilobj())))
}

/// The `CompleteRequestParam` a JSON object holds, if it matches the shape.
pub open spec fn dec_complete_request_param(v: JsonV) -> Option<CompleteRequestParamV> {
    if !(v matches JsonV::Obj(_)) {
        None
    } else {
        match get_reference(v, "ref"@) {
            Some(f_reference) =>
            match get_argument_info(v, "argument"@) {
                Some(f_argument) =>
                 Some(CompleteRequestParamV { reference: f_reference, argument: f_argument })
                ,
                None => None,
            }
            ,
            None => None,
        }
    }
}

impl CompleteRequestParam {
    /// This payload as a JSON object.
    pub fn to_json(&self) -> (r: JsonValue)
        ensures
            jv(r) == enc_complete_request_param(self.deep_view()),
    {
        let mut o: Vec<(String, JsonValue)> = Vec::new();
        o.push(("ref".to_owned(), self.reference.to_json()));
        o.push(("argument".to_owned(), self.argument.to_json()));
        proof {
            lemma_jv_obj(o);
            assert(o.deep_view() =~= enc_complete_request_param(self.deep_view())->Obj_0);
        }
        JsonValue::Obj(o)
    }

    /// The payload a JSON value holds, if it matches this shape.
    pub fn from_json(v: &JsonValue) -> (r: Option<CompleteRequestParam>)
        ensures
            r.deep_view() == dec_complete_request_param(jv(*v)),
    {
        if !v.is_obj() {
            return None;
        }
        let x_reference = match v.get("ref") {
            Some(w) => match Reference::from_json(w) {
                Some(t) => t,
                None => {
                    return None;
                },
            },
            None => {
                return None;
            },
        };
        let x_argument = match v.get("argument") {
            Some(w) => match ArgumentInfo::from_json(w) {
                Some(t) => t,
                None => {
                    return None;
                },
            },
            None => {
                return None;
            },
        };
        Some(CompleteRequestParam { reference: x_reference, argument: x_argument })
    }
}

/// A `CompleteRequestParam` survives the wire.
pub proof fn lemma_rt_complete_request_param(x: CompleteRequestParamV)
    ensures
        dec_complete_request_param(enc_complete_request_param(x)) == Some(x),
{
    reveal_strlit("argument");
    reveal_strlit("ref");
    assert("argument"@.len() == 8);
    assert("ref"@.len() == 3);
    lemma_rt_reference(x.reference);
    lemma_rt_argument_info(x.argument);
}

/// How a `CompletionInfo` stands on the wire.
pub open spec fn enc_completion_info(x: CompletionInfoV) -> JsonV {
    JsonV::Obj(centry("values"@, JsonV::Arr(enc_seq_string(x.values)), oentry("total"@, opt_int(x.total), oentry("hasMore"@, opt_bool(x.has_more), nilobj()))))
}

/// The `CompletionInfo` a JSON object holds, if it matches the shape.
pub open spec fn dec_completion_info(v: JsonV) -> Option<CompletionInfoV> {
    if !(v matches JsonV::Obj(_)) {
        None
    } else {
        match get_vec_string(v, "values"@) {
            Some(f_values) =>
            match get_opt_u(v, "total"@) {
                Some(f_total) =>
                match get_opt_b(v, "hasMore"@) {
                    Some(f_has_more) =>
                     Some(CompletionInfoV { values: f_values, total: f_total, has_more: f_has_more })
                    ,
                    None => None,
                }
                ,
                None => None,
            }
            ,
            None => None,
        }
    }
}

impl CompletionInfo {
    /// This payload as a JSON object.
    pub fn to_json(&self) -> (r: JsonValue)
        ensures
            jv(r) == enc_completion_info(self.deep_view()),
    {
        let mut o: Vec<(String, JsonValue)> = Vec::new();
        let arr_values = enc_vec_string(&self.values);
        proof {
            lemma_jv_arr(arr_values);
        }
        o.push(("values".to_owned(), JsonValue::Arr(arr_values)));
        if let Some(u) = &self.total {
            o.push(("total".to_owned(), JsonValue::Int(*u as i64)));
        }
        if let Some(b) = &self.has_more {
            o.push(("hasMore".to_owned(), JsonValue::Bool(*b)));
        }
        proof {
            lemma_jv_obj(o);
            assert(o.deep_view() =~= enc_completion_info(self.deep_view())->Obj_0);
        }
        JsonValue::Obj(o)
    }

    /// The payload a JSON value holds, if it matches this shape.
    pub fn from_json(v: &JsonValue) -> (r: Option<CompletionInfo>)
        ensures
            r.deep_view() == dec_completion_info(jv(*v)),
    {
        if !v.is_obj() {
            return None;
        }
        let x_values = match v.get("values") {
            Some(JsonValue::Arr(a)) => {
                proof {
                    lemma_jv_arr(*a);
                }
                match dec_vec_string(a) {
                    Some(list) => list,
                    None => {
                        return None;
                    },
                }
            },
            _ => {
                return None;
            },
        };
        let x_total = match v.f_opt_u32("total") {
            Some(t) => t,
            None => {
                return None;
            },
        };
        let x_has_more = match v.f_opt_bool("hasMore") {
            Some(t) => t,
            None => {
                return None;
            },
        };
        Some(CompletionInfo { values: x_values, total: x_total, has_more: x_has_more })
    }
}

/// A `CompletionInfo` survives the wire.
pub proof fn lemma_rt_completion_info(x: CompletionInfoV)
    ensures
        dec_completion_info(enc_completion_info(x)) == Some(x),
{
    reveal_strlit("hasMore");
    reveal_strlit("total");
    reveal_strlit("values");
    assert("hasMore"@.len() == 7);
    assert("total"@.len() == 5);
    assert("values"@.len() == 6);
    lemma_rt_seq_string(x.values);
}

/// How a `CompleteResult` stands on the wire.
pub open spec fn enc_complete_result(x: CompleteResultV) -> JsonV {
    JsonV::Obj(centry("completion"@, enc_completion_info(x.completion), nilobj()))
}

/// The `CompleteResult` a JSON object holds, if it matches the shape.
pub open spec fn dec_complete_result(v: JsonV) -> Option<CompleteResultV> {
    if !(v matches JsonV::Obj(_)) {
        None
    } else {
        match get_completion_info(v, "completion"@) {
            Some(f_completion) =>
             Some(CompleteResultV { completion: f_completion })
            ,
            None => None,
        }
    }
}

impl CompleteResult {
    /// This payload as a JSON object.
    pub fn to_json(&self) -> (r: JsonValue)
        ensures
            jv(r) == enc_complete_result(self.deep_view()),
    {
        let mut o: Vec<(String, JsonValue)> = Vec::new();
        o.push(("completion".to_owned(), self.completion.to_json()));
        proof {
            lemma_jv_obj(o);
            assert(o.deep_view() =~= enc_complete_result(self.deep_view())->Obj_0);
        }
        JsonValue::Obj(o)
    }

    /// The payload a JSON value holds, if it matches this shape.
    pub fn from_json(v: &JsonValue) -> (r: Option<CompleteResult>)
        ensures
            r.deep_view() == dec_complete_result(jv(*v)),
    {
        if !v.is_obj() {
            return None;
        }
        let x_completion = match v.get("completion") {
            Some(w) => match CompletionInfo::from_json(w) {
                Some(t) => t,
                None => {
                    return None;
                },
            },
            None => {
                return None;
            },
        };
        Some(CompleteResult { completion: x_completion })
    }
}

/// A `CompleteResult` survives the wire.
pub proof fn lemma_rt_complete_result(x: CompleteResultV)
    ensures
        dec_complete_result(enc_complete_result(x)) == Some(x),
{
    reveal_strlit("completion");
    assert("completion"@.len() == 10);
    lemma_rt_completion_info(x.completion);
}

/// How a `Root` stands on the wire.
pub open spec fn enc_root(x: RootV) -> JsonV {
    JsonV::Obj(centry("uri"@, JsonV::Str(x.uri), oentry("name"@, opt_str(x.name), nilobj())))
}

/// The `Root` a JSON object holds, if it matches the shape.
pub open spec fn dec_root(v: JsonV) -> Option<RootV> {
    if !(v matches JsonV::Obj(_)) {
        None
    } else {
        match get_s(v, "uri"@) {
            Some(f_uri) =>
            match get_opt_s(v, "name"@) {
                Some(f_name) =>
                 Some(RootV { uri: f_uri, name: f_name })
                ,
                None => None,
            }
            ,
            None => None,
        }
    }
}

impl Root {
    /// This payload as a JSON object.
    pub fn to_json(&self) -> (r: JsonValue)
        ensures
            jv(r) == enc_root(self.deep_view()),
    {
        let mut o: Vec<(String, JsonValue)> = Vec::new();
        o.push(("uri".to_owned(), JsonValue::Str(self.uri.clone())));
        if let Some(s) = &self.name {
            o.push(("name".to_owned(), JsonValue::Str(s.clone())));
        }
        proof {
            lemma_jv_obj(o);
            assert(o.deep_view() =~= enc_root(self.deep_view())->Obj_0);
        }
        JsonValue::Obj(o)
    }

    /// The payload a JSON value holds, if it matches this shape.
    pub fn from_json(v: &JsonValue) -> (r: Option<Root>)
        ensures
            r.deep_view() == dec_root(jv(*v)),
    {
        if !v.is_obj() {
            return None;
        }
        let x_uri = match v.f_str("uri") {
            Some(t) => t,
            None => {
                return None;
            },
        };
        let x_name = match v.f_opt_str("name") {
            Some(t) => t,
            None => {
                return None;
            },
        };
        Some(Root { uri: x_uri, name: x_name })
    }
}

/// A `Root` survives the wire.
pub proof fn lemma_rt_root(x: RootV)
    ensures
        dec_root(enc_root(x)) == Some(x),
{
    reveal_strlit("name");
    reveal_strlit("uri");
    assert("name"@.len() == 4);
    assert("uri"@.len() == 3);
}

/// How a `ListRootsResult` stands on the wire.
pub open spec fn enc_list_roots_result(x: ListRootsResultV) -> JsonV {
    JsonV::Obj(centry("roots"@, JsonV::Arr(enc_seq_root(x.roots)), nilobj()))
}

/// The `ListRootsResult` a JSON object holds, if it matches the shape.
pub open spec fn dec_list_roots_result(v: JsonV) -> Option<ListRootsResultV> {
    if !(v matches JsonV::Obj(_)) {
        None
    } else {
        match get_vec_root(v, "roots"@) {
            Some(f_roots) =>
             Some(ListRootsResultV { roots: f_roots })
            ,
            None => None,
        }
    }
}

impl ListRootsResult {
    /// This payload as a JSON object.
    pub fn to_json(&self) -> (r: JsonValue)
        ensures
            jv(r) == enc_list_roots_result(self.deep_view()),
    {
        let mut o: Vec<(String, JsonValue)> = Vec::new();
        let arr_roots = enc_vec_root(&self.roots);
        proof {
            lemma_jv_arr(arr_roots);
        }
        o.push(("roots".to_owned(), JsonValue::Arr(arr_roots)));
        proof {
            lemma_jv_obj(o);
            assert(o.deep_view() =~= enc_list_roots_result(self.deep_view())->Obj_0);
        }
        JsonValue::Obj(o)
    }

    /// The payload a JSON value holds, if it matches this shape.
    pub fn from_json(v: &JsonValue) -> (r: Option<ListRootsResult>)
        ensures
            r.deep_view() == dec_list_roots_result(jv(*v)),
    {
        if !v.is_obj() {
            return None;
        }
        let x_roots = match v.get("roots") {
            Some(JsonValue::Arr(a)) => {
                proof {
                    lemma_jv_arr(*a);
                }
                match dec_vec_root(a) {
                    Some(list) => list,
                    None => {
                        return None;
                    },
                }
            },
            _ => {
                return None;
            },
        };
        Some(ListRootsResult { roots: x_roots })
    }
}

/// A `ListRootsResult` survives the wire.
pub proof fn lemma_rt_list_roots_result(x: ListRootsResultV)
    ensures
        dec_list_roots_result(enc_list_roots_result(x)) == Some(x),
{
    reveal_strlit("roots");
    assert("roots"@.len() == 5);
    lemma_rt_seq_root(x.roots);
}

/// How a `CallToolRequestParam` stands on the wire.
pub open spec fn enc_call_tool_request_param(x: CallToolRequestParamV) -> JsonV {
    JsonV::Obj(centry("name"@, JsonV::Str(x.name), oentry("arguments"@, opt_obj(x.arguments), nilobj())))
}

/// The `CallToolRequestParam` a JSON object holds, if it matches the shape.
pub open spec fn dec_call_tool_request_param(v: JsonV) -> Option<CallToolRequestParamV> {
    if !(v matches JsonV::Obj(_)) {
        None
    } else {
        match get_s(v, "name"@) {
            Some(f_name) =>
            match get_opt_o(v, "arguments"@) {
                Some(f_arguments) =>
                 Some(CallToolRequestParamV { name: f_name, arguments: f_arguments })
                ,
                None => None,
            }
            ,
            None => None,
        }
    }
}

impl CallToolRequestParam {
    /// This payload as a JSON object.
    pub fn to_json(&self) -> (r: JsonValue)
        ensures
            jv(r) == enc_call_tool_request_param(self.deep_view()),
    {
        let mut o: Vec<(String, JsonValue)> = Vec::new();
        o.push(("name".to_owned(), JsonValue::Str(self.name.clone())));
        if let Some(m) = &self.arguments {
            let w_arguments = clone_obj(m);
            proof {
                lemma_jv_obj(w_arguments);
            }
            o.push(("arguments".to_owned(), JsonValue::Obj(w_arguments)));
        }
        proof {
            lemma_jv_obj(o);
            assert(o.deep_view() =~= enc_call_tool_request_param(self.deep_view())->Obj_0);
        }
        JsonValue::Obj(o)
    }

    /// The payload a JSON value holds, if it matches this shape.
    pub fn from_json(v: &JsonValue) -> (r: Option<CallToolRequestParam>)
        ensures
            r.deep_view() == dec_call_tool_request_param(jv(*v)),
    {
        if !v.is_obj() {
            return None;
        }
        let x_name = match v.f_str("name") {
            Some(t) => t,
            None => {
                return None;
            },
        };
        let x_arguments = match v.f_opt_obj("arguments") {
            Some(t) => t,
            None => {
                return None;
            },
        };
        Some(CallToolRequestParam { name: x_name, arguments: x_arguments })
    }
}

/// A `CallToolRequestParam` survives the wire.
pub proof fn lemma_rt_call_tool_request_param(x: CallToolRequestParamV)
    ensures
        dec_call_tool_request_param(enc_call_tool_request_param(x)) == Some(x),
{
    reveal_strlit("arguments");
    reveal_strlit("name");
    assert("arguments"@.len() == 9);
    assert("name"@.len() == 4);
}

/// How a `CallToolResult` stands on the wire.
pub open spec fn enc_call_tool_result(x: CallToolResultV) -> JsonV {
    JsonV::Obj(centry("content"@, JsonV::Arr(enc_seq_content(x.content)), oentry("isError"@, opt_bool(x.is_error), nilobj())))
}

/// The `CallToolResult` a JSON object holds, if it matches the shape.
pub open spec fn dec_call_tool_result(v: JsonV) -> Option<CallToolResultV> {
    if !(v matches JsonV::Obj(_)) {
        None
    } else {
        match get_vec_content(v, "content"@) {
            Some(f_content) =>
            match get_opt_b(v, "isError"@) {
                Some(f_is_error) =>
                 Some(CallToolResultV { content: f_content, is_error: f_is_error })
                ,
                None => None,
            }
            ,
            None => None,
        }
    }
}

impl CallToolResult {
    /// This payload as a JSON object.
    pub fn to_json(&self) -> (r: JsonValue)
        ensures
            jv(r) == enc_call_tool_result(self.deep_view()),
    {
        let mut o: Vec<(String, JsonValue)> = Vec::new();
        let arr_content = enc_vec_content(&self.content);
        proof {
            lemma_jv_arr(arr_content);
        }
        o.push(("content".to_owned(), JsonValue::Arr(arr_content)));
        if let Some(b) = &self.is_error {
            o.push(("isError".to_owned(), JsonValue::Bool(*b)));
        }
        proof {
            lemma_jv_obj(o);
            assert(o.deep_view() =~= enc_call_tool_result(self.deep_view())->Obj_0);
        }
        JsonValue::Obj(o)
    }

    /// The payload a JSON value holds, if it matches this shape.
    pub fn from_json(v: &JsonValue) -> (r: Option<CallToolResult>)
        ensures
            r.deep_view() == dec_call_tool_result(jv(*v)),
    {
        if !v.is_obj() {
            return None;
        }
        let x_content = match v.get("content") {
            Some(JsonValue::Arr(a)) => {
                proof {
                    lemma_jv_arr(*a);
                }
                match dec_vec_content(a) {
                    Some(list) => list,
                    None => {
                        return None;
                    },
                }
            },
            _ => {
                return None;
            },
        };
        let x_is_error = match v.f_opt_bool("isError") {
            Some(t) => t,
            None => {
                return None;
            },
        };
        Some(CallToolResult { content: x_content, is_error: x_is_error })
    }
}

/// A `CallToolResult` survives the wire.
pub proof fn lemma_rt_call_tool_result(x: CallToolResultV)
    ensures
        dec_call_tool_result(enc_call_tool_result(x)) == Some(x),
{
    reveal_strlit("content");
    reveal_strlit("isError");
    assert("content"@.len() == 7);
    assert("isError"@.len() == 7);
    assert("content"@.index(0) == 'c');
    assert("isError"@.index(0) == 'i');
    lemma_rt_seq_content(x.content);
}

/// How a `PromptMessage` stands on the wire.
pub open spec fn enc_prompt_message(x: PromptMessageV) -> JsonV {
    JsonV::Obj(centry("role"@, JsonV::Str(role_str(x.role)), centry("content"@, enc_content(x.content), nilobj())))
}

/// The `PromptMessage` a JSON object holds, if it matches the shape.
pub open spec fn dec_prompt_message(v: JsonV) -> Option<PromptMessageV> {
    if !(v matches JsonV::Obj(_)) {
        None
    } else {
        match get_role(v, "role"@) {
            Some(f_role) =>
            match get_content(v, "content"@) {
                Some(f_content) =>
                 Some(PromptMessageV { role: f_role, content: f_content })
                ,
                None => None,
            }
            ,
            None => None,
        }
    }
}

impl PromptMessage {
    /// This payload as a JSON object.
    pub fn to_json(&self) -> (r: JsonValue)
        ensures
            jv(r) == enc_prompt_message(self.deep_view()),
    {
        let mut o: Vec<(String, JsonValue)> = Vec::new();
        o.push(("role".to_owned(), JsonValue::Str(role_string(&self.role))));
        o.push(("content".to_owned(), self.content.to_json()));
        proof {
            lemma_jv_obj(o);
            assert(o.deep_view() =~= enc_prompt_message(self.deep_view())->Obj_0);
        }
        JsonValue::Obj(o)
    }

    /// The payload a JSON value holds, if it matches this shape.
    pub fn from_json(v: &JsonValue) -> (r: Option<PromptMessage>)
        ensures
            r.deep_view() == dec_prompt_message(jv(*v)),
    {
        if !v.is_obj() {
            return None;
        }
        let x_role = match v.f_str("role") {
            Some(s) => match role_from_string(&s) {
                Some(l) => l,
                None => {
                    return None;
                },
            },
            None => {
                return None;
            },
        };
        let x_content = match v.get("content") {
            Some(w) => match Content::from_json(w) {
                Some(t) => t,
                None => {
                    return None;
                },
            },
            None => {
                return None;
            },
        };
        Some(PromptMessage { role: x_role, content: x_content })
    }
}

/// A `PromptMessage` survives the wire.
pub proof fn lemma_rt_prompt_message(x: PromptMessageV)
    ensures
        dec_prompt_message(enc_prompt_message(x)) == Some(x),
{
    reveal_strlit("content");
    reveal_strlit("role");
    assert("content"@.len() == 7);
    assert("role"@.len() == 4);
    lemma_rt_role(x.role);
    lemma_rt_content(x.content);
}

/// How a `PromptArgument` stands on the wire.
pub open spec fn enc_prompt_argument(x: PromptArgumentV) -> JsonV {
    JsonV::Obj(centry("name"@, JsonV::Str(x.name), oentry("description"@, opt_str(x.description), oentry("required"@, opt_bool(x.required), nilobj()))))
}

/// The `PromptArgument` a JSON object holds, if it matches the shape.
pub open spec fn dec_prompt_argument(v: JsonV) -> Option<PromptArgumentV> {
    if !(v matches JsonV::Obj(_)) {
        None
    } else {
        match get_s(v, "name"@) {
            Some(f_name) =>
            match get_opt_s(v, "description"@) {
                Some(f_description) =>
                match get_opt_b(v, "required"@) {
                    Some(f_required) =>
                     Some(PromptArgumentV { name: f_name, description: f_description, required: f_required })
                    ,
                    None => None,
                }
                ,
                None => None,
            }
            ,
            None => None,
        }
    }
}

impl PromptArgument {
    /// This payload as a JSON object.
    pub fn to_json(&self) -> (r: JsonValue)
        ensures
            jv(r) == enc_prompt_argument(self.deep_view()),
    {
        let mut o: Vec<(String, JsonValue)> = Vec::new();
        o.push(("name".to_owned(), JsonValue::Str(self.name.clone())));
        if let Some(s) = &self.description {
            o.push(("description".to_owned(), JsonValue::Str(s.clone())));
        }
        if let Some(b) = &self.required {
            o.push(("required".to_owned(), JsonValue::Bool(*b)));
        }
        proof {
            lemma_jv_obj(o);
            assert(o.deep_view() =~= enc_prompt_argument(self.deep_view())->Obj_0);
        }
        JsonValue::Obj(o)
    }

    /// The payload a JSON value holds, if it matches this shape.
    pub fn from_json(v: &JsonValue) -> (r: Option<PromptArgument>)
        ensures
            r.deep_view() == dec_prompt_argument(jv(*v)),
    {
        if !v.is_obj() {
            return None;
        }
        let x_name = match v.f_str("name") {
            Some(t) => t,
            None => {
                return None;
            },
        };
        let x_description = match v.f_opt_str("description") {
            Some(t) => t,
            None => {
                return None;
            },
        };
        let x_required = match v.f_opt_bool("required") {
            Some(t) => t,
            None => {
                return None;
            },
        };
        Some(PromptArgument { name: x_name, description: x_description, required: x_required })
    }
}

/// A `PromptArgument` survives the wire.
pub proof fn lemma_rt_prompt_argument(x: PromptArgumentV)
    ensures
        dec_prompt_argument(enc_prompt_argument(x)) == Some(x),
{
    reveal_strlit("description");
    reveal_strlit("name");
    reveal_strlit("required");
    assert("description"@.len() == 11);
    assert("name"@.len() == 4);
    assert("required"@.len() == 8);
}

/// How a `Prompt` stands on the wire.
pub open spec fn enc_prompt(x: PromptV) -> JsonV {
    JsonV::Obj(centry("name"@, JsonV::Str(x.name), oentry("description"@, opt_str(x.description), oentry("arguments"@, opt_arr_prompt_argument(x.arguments), nilobj()))))
}

/// The `Prompt` a JSON object holds, if it matches the shape.
pub open spec fn dec_prompt(v: JsonV) -> Option<PromptV> {
    if !(v matches JsonV::Obj(_)) {
        None
    } else {
        match get_s(v, "name"@) {
            Some(f_name) =>
            match get_opt_s(v, "description"@) {
                Some(f_description) =>
                match get_opt_vec_prompt_argument(v, "arguments"@) {
                    Some(f_arguments) =>
                     Some(PromptV { name: f_name, description: f_description, arguments: f_arguments })
                    ,
                    None => None,
                }
                ,
                None => None,
            }
            ,
            None => None,
        }
    }
}

impl Prompt {
    /// This payload as a JSON object.
    pub fn to_json(&self) -> (r: JsonValue)
        ensures
            jv(r) == enc_prompt(self.deep_view()),
    {
        let mut o: Vec<(String, JsonValue)> = Vec::new();
        o.push(("name".to_owned(), JsonValue::Str(self.name.clone())));
        if let Some(s) = &self.description {
            o.push(("description".to_owned(), JsonValue::Str(s.clone())));
        }
        if let Some(items) = &self.arguments {
            let arr_arguments = enc_vec_prompt_argument(items);
            proof {
                lemma_jv_arr(arr_arguments);
            }
            o.push(("arguments".to_owned(), JsonValue::Arr(arr_arguments)));
        }
        proof {
            lemma_jv_obj(o);
            assert(o.deep_view() =~= enc_prompt(self.deep_view())->Obj_0);
        }
        JsonValue::Obj(o)
    }

    /// The payload a JSON value holds, if it matches this shape.
    pub fn from_json(v: &JsonValue) -> (r: Option<Prompt>)
        ensures
            r.deep_view() == dec_prompt(jv(*v)),
    {
        if !v.is_obj() {
            return None;
        }
        let x_name = match v.f_str("name") {
            Some(t) => t,
            None => {
                return None;
            },
        };
        let x_description = match v.f_opt_str("description") {
            Some(t) => t,
            None => {
                return None;
            },
        };
        let x_arguments = match v.get("arguments") {
            None => None,
            Some(JsonValue::Null) => None,
            Some(JsonValue::Arr(a)) => {
                proof {
                    lemma_jv_arr(*a);
                }
                match dec_vec_prompt_argument(a) {
                    Some(list) => Some(list),
                    None => {
                        return None;
                    },
                }
            },
            Some(_) => {
                return None;
            },
        };
        Some(Prompt { name: x_name, description: x_description, arguments: x_arguments })
    }
}

/// A `Prompt` survives the wire.
pub proof fn lemma_rt_prompt(x: PromptV)
    ensures
        dec_prompt(enc_prompt(x)) == Some(x),
{
    reveal_strlit("arguments");
    reveal_strlit("description");
    reveal_strlit("name");
    assert("arguments"@.len() == 9);
    assert("description"@.len() == 11);
    assert("name"@.len() == 4);
    match x.arguments {
        Some(items) => {
            lemma_rt_seq_prompt_argument(items);
        },
        None => {},
    }
}

/// How a `Resource` stands on the wire.
pub open spec fn enc_resource(x: ResourceV) -> JsonV {
    JsonV::Obj(centry("uri"@, JsonV::Str(x.uri), centry("name"@, JsonV::Str(x.name), oentry("description"@, opt_str(x.description), oentry("mimeType"@, opt_str(x.mime_type), nilobj())))))
}

/// The `Resource` a JSON object holds, if it matches the shape.
pub open spec fn dec_resource(v: JsonV) -> Option<ResourceV> {
    if !(v matches JsonV::Obj(_)) {
        None
    } else {
        match get_s(v, "uri"@) {
            Some(f_uri) =>
            match get_s(v, "name"@) {
                Some(f_name) =>
                match get_opt_s(v, "description"@) {
                    Some(f_description) =>
                    match get_opt_s(v, "mimeType"@) {
                        Some(f_mime_type) =>
                         Some(ResourceV { uri: f_uri, name: f_name, description: f_description, mime_type: f_mime_type })
                        ,
                        None => None,
                    }
                    ,
                    None => None,
                }
                ,
                None => None,
            }
            ,
            None => None,
        }
    }
}

impl Resource {
    /// This payload as a JSON object.
    pub fn to_json(&self) -> (r: JsonValue)
        ensures
            jv(r) == enc_resource(self.deep_view()),
    {
        let mut o: Vec<(String, JsonValue)> = Vec::new();
        o.push(("uri".to_owned(), JsonValue::Str(self.uri.clone())));
        o.push(("name".to_owned(), JsonValue::Str(self.name.clone())));
        if let Some(s) = &self.description {
            o.push(("description".to_owned(), JsonValue::Str(s.clone())));
        }
        if let Some(s) = &self.mime_type {
            o.push(("mimeType".to_owned(), JsonValue::Str(s.clone())));
        }
        proof {
            lemma_jv_obj(o);
            assert(o.deep_view() =~= enc_resource(self.deep_view())->Obj_0);
        }
        JsonValue::Obj(o)
    }

    /// The payload a JSON value holds, if it matches this shape.
    pub fn from_json(v: &JsonValue) -> (r: Option<Resource>)
        ensures
            r.deep_view() == dec_resource(jv(*v)),
    {
        if !v.is_obj() {
            return None;
        }
        let x_uri = match v.f_str("uri") {
            Some(t) => t,
            None => {
                return None;
            },
        };
        let x_name = match v.f_str("name") {
            Some(t) => t,
            None => {
                return None;
            },
        };
        let x_description = match v.f_opt_str("description") {
            Some(t) => t,
            None => {
                return None;
            },
        };
        let x_mime_type = match v.f_opt_str("mimeType") {
            Some(t) => t,
            None => {
                return None;
            },
        };
        Some(Resource { uri: x_uri, name: x_name, description: x_description, mime_type: x_mime_type })
    }
}

/// A `Resource` survives the wire.
pub proof fn lemma_rt_resource(x: ResourceV)
    ensures
        dec_resource(enc_resource(x)) == Some(x),
{
    reveal_strlit("description");
    reveal_strlit("mimeType");
    reveal_strlit("name");
    reveal_strlit("uri");
    assert("description"@.len() == 11);
    assert("mimeType"@.len() == 8);
    assert("name"@.len() == 4);
    assert("uri"@.len() == 3);
}

/// How a `Tool` stands on the wire.
pub open spec fn enc_tool(x: ToolV) -> JsonV {
    JsonV::Obj(centry("name"@, JsonV::Str(x.name), oentry("description"@, opt_str(x.description), centry("inputSchema"@, JsonV::Obj(x.input_schema), nilobj()))))
}

/// The `Tool` a JSON object holds, if it matches the shape.
pub open spec fn dec_tool(v: JsonV) -> Option<ToolV> {
    if !(v matches JsonV::Obj(_)) {
        None
    } else {
        match get_s(v, "name"@) {
            Some(f_name) =>
            match get_opt_s(v, "description"@) {
                Some(f_description) =>
                match get_o(v, "inputSchema"@) {
                    Some(f_input_schema) =>
                     Some(ToolV { name: f_name, description: f_description, input_schema: f_input_schema })
                    ,
                    None => None,
                }
                ,
                None => None,
            }
            ,
            None => None,
        }
    }
}

impl Tool {
    /// This payload as a JSON object.
    pub fn to_json(&self) -> (r: JsonValue)
        ensures
            jv(r) == enc_tool(self.deep_view()),
    {
        let mut o: Vec<(String, JsonValue)> = Vec::new();
        o.push(("name".to_owned(), JsonValue::Str(self.name.clone())));
        if let Some(s) = &self.description {
            o.push(("description".to_owned(), JsonValue::Str(s.clone())));
        }
        let w_input_schema = clone_obj(&self.input_schema);
        proof {
            lemma_jv_obj(w_input_schema);
        }
        o.push(("inputSchema".to_owned(), JsonValue::Obj(w_input_schema)));
        proof {
            lemma_jv_obj(o);
            assert(o.deep_view() =~= enc_tool(self.deep_view())->Obj_0);
        }
        JsonValue::Obj(o)
    }

    /// The payload a JSON value holds, if it matches this shape.
    pub fn from_json(v: &JsonValue) -> (r: Option<Tool>)
        ensures
            r.deep_view() == dec_tool(jv(*v)),
    {
        if !v.is_obj() {
            return None;
        }
        let x_name = match v.f_str("name") {
            Some(t) => t,
            None => {
                return None;
            },
        };
        let x_description = match v.f_opt_str("description") {
            Some(t) => t,
            None => {
                return None;
            },
        };
        let x_input_schema = match v.f_obj("inputSchema") {
            Some(t) => t,
            None => {
                return None;
            },
        };
        Some(Tool { name: x_name, description: x_description, input_schema: x_input_schema })
    }
}

/// A `Tool` survives the wire.
pub proof fn lemma_rt_tool(x: ToolV)
    ensures
        dec_tool(enc_tool(x)) == Some(x),
{
    reveal_strlit("description");
    reveal_strlit("inputSchema");
    reveal_strlit("name");
    assert("description"@.len() == 11);
    assert("inputSchema"@.len() == 11);
    assert("name"@.len() == 4);
    assert("description"@.index(0) == 'd');
    assert("inputSchema"@.index(0) == 'i');
}

/// How a `ListResourcesResult` stands on the wire.
pub open spec fn enc_list_resources_result(x: ListResourcesResultV) -> JsonV {
    JsonV::Obj(oentry("nextCursor"@, opt_str(x.next_cursor), centry("resources"@, JsonV::Arr(enc_seq_resource(x.resources)), nilobj())))
}

/// The `ListResourcesResult` a JSON object holds, if it matches the shape.
pub open spec fn dec_list_resources_result(v: JsonV) -> Option<ListResourcesResultV> {
    if !(v matches JsonV::Obj(_)) {
        None
    } else {
        match get_opt_s(v, "nextCursor"@) {
            Some(f_next_cursor) =>
            match get_vec_resource(v, "resources"@) {
                Some(f_resources) =>
                 Some(ListResourcesResultV { next_cursor: f_next_cursor, resources: f_resources })
                ,
                None => None,
            }
            ,
            None => None,
        }
    }
}

impl ListResourcesResult {
    /// This payload as a JSON object.
    pub fn to_json(&self) -> (r: JsonValue)
        ensures
            jv(r) == enc_list_resources_result(self.deep_view()),
    {
        let mut o: Vec<(String, JsonValue)> = Vec::new();
        if let Some(s) = &self.next_cursor {
            o.push(("nextCursor".to_owned(), JsonValue::Str(s.clone())));
        }
        let arr_resources = enc_vec_resource(&self.resources);
        proof {
            lemma_jv_arr(arr_resources);
        }
        o.push(("resources".to_owned(), JsonValue::Arr(arr_resources)));
        proof {
            lemma_jv_obj(o);
            assert(o.deep_view() =~= enc_list_resources_result(self.deep_view())->Obj_0);
        }
        JsonValue::Obj(o)
    }

    /// The payload a JSON value holds, if it matches this shape.
    pub fn from_json(v: &JsonValue) -> (r: Option<ListResourcesResult>)
        ensures
            r.deep_view() == dec_list_resources_result(jv(*v)),
    {
        if !v.is_obj() {
            return None;
        }
        let x_next_cursor = match v.f_opt_str("nextCursor") {
            Some(t) => t,
            None => {
                return None;
            },
        };
        let x_resources = match v.get("resources") {
            Some(JsonValue::Arr(a)) => {
                proof {
                    lemma_jv_arr(*a);
                }
                match dec_vec_resource(a) {
                    Some(list) => list,
                    None => {
                        return None;
                    },
                }
            },
            _ => {
                return None;
            },
        };
        Some(ListResourcesResult { next_cursor: x_next_cursor, resources: x_resources })
    }
}

/// A `ListResourcesResult` survives the wire.
pub proof fn lemma_rt_list_resources_result(x: ListResourcesResultV)
    ensures
        dec_list_resources_result(enc_list_resources_result(x)) == Some(x),
{
    reveal_strlit("nextCursor");
    reveal_strlit("resources");
    assert("nextCursor"@.len() == 10);
    assert("resources"@.len() == 9);
    lemma_rt_seq_resource(x.resources);
}

/// How a `ListResourceTemplatesResult` stands on the wire.
pub open spec fn enc_list_resource_templates_result(x: ListResourceTemplatesResultV) -> JsonV {
    JsonV::Obj(oentry("nextCursor"@, opt_str(x.next_cursor), centry("resourceTemplates"@, JsonV::Arr(enc_seq_resource(x.resource_templates)), nilobj())))
}

/// The `ListResourceTemplatesResult` a JSON object holds, if it matches the shape.
pub open spec fn dec_list_resource_templates_result(v: JsonV) -> Option<ListResourceTemplatesResultV> {
    if !(v matches JsonV::Obj(_)) {
        None
    } else {
        match get_opt_s(v, "nextCursor"@) {
            Some(f_next_cursor) =>
            match get_vec_resource(v, "resourceTemplates"@) {
                Some(f_resource_templates) =>
                 Some(ListResourceTemplatesResultV { next_cursor: f_next_cursor, resource_templates: f_resource_templates })
                ,
                None => None,
            }
            ,
            None => None,
        }
    }
}

impl ListResourceTemplatesResult {
    /// This payload as a JSON object.
    pub fn to_json(&self) -> (r: JsonValue)
        ensures
            jv(r) == enc_list_resource_templates_result(self.deep_view()),
    {
        let mut o: Vec<(String, JsonValue)> = Vec::new();
        if let Some(s) = &self.next_cursor {
            o.push(("nextCursor".to_owned(), JsonValue::Str(s.clone())));
        }
        let arr_resource_templates = enc_vec_resource(&self.resource_templates);
        proof {
            lemma_jv_arr(arr_resource_templates);
        }
        o.push(("resourceTemplates".to_owned(), JsonValue::Arr(arr_resource_templates)));
        proof {
            lemma_jv_obj(o);
            assert(o.deep_view() =~= enc_list_resource_templates_result(self.deep_view())->Obj_0);
        }
        JsonValue::Obj(o)
    }

    /// The payload a JSON value holds, if it matches this shape.
    pub fn from_json(v: &JsonValue) -> (r: Option<ListResourceTemplatesResult>)
        ensures
            r.deep_view() == dec_list_resource_templates_result(jv(*v)),
    {
        if !v.is_obj() {
            return None;
        }
        let x_next_cursor = match v.f_opt_str("nextCursor") {
            Some(t) => t,
            None => {
                return None;
            },
        };
        let x_resource_templates = match v.get("resourceTemplates") {
            Some(JsonValue::Arr(a)) => {
                proof {
                    lemma_jv_arr(*a);
                }
                match dec_vec_resource(a) {
                    Some(list) => list,
                    None => {
                        return None;
                    },
                }
            },
            _ => {
                return None;
            },
        };
        Some(ListResourceTemplatesResult { next_cursor: x_next_cursor, resource_templates: x_resource_templates })
    }
}

/// A `ListResourceTemplatesResult` survives the wire.
pub proof fn lemma_rt_list_resource_templates_result(x: ListResourceTemplatesResultV)
    ensures
        dec_list_resource_templates_result(enc_list_resource_templates_result(x)) == Some(x),
{
    reveal_strlit("nextCursor");
    reveal_strlit("resourceTemplates");
    assert("nextCursor"@.len() == 10);
    assert("resourceTemplates"@.len() == 17);
    lemma_rt_seq_resource(x.resource_templates);
}

/// How a `ListPromptsResult` stands on the wire.
pub open spec fn enc_list_prompts_result(x: ListPromptsResultV) -> JsonV {
    JsonV::Obj(oentry("nextCursor"@, opt_str(x.next_cursor), centry("prompts"@, JsonV::Arr(enc_seq_prompt(x.prompts)), nilobj())))
}

/// The `ListPromptsResult` a JSON object holds, if it matches the shape.
pub open spec fn dec_list_prompts_result(v: JsonV) -> Option<ListPromptsResultV> {
    if !(v matches JsonV::Obj(_)) {
        None
    } else {
        match get_opt_s(v, "nextCursor"@) {
            Some(f_next_cursor) =>
            match get_vec_prompt(v, "prompts"@) {
                Some(f_prompts) =>
                 Some(ListPromptsResultV { next_cursor: f_next_cursor, prompts: f_prompts })
                ,
                None => None,
            }
            ,
            None => None,
        }
    }
}

impl ListPromptsResult {
    /// This payload as a JSON object.
    pub fn to_json(&self) -> (r: JsonValue)
        ensures
            jv(r) == enc_list_prompts_result(self.deep_view()),
    {
        let mut o: Vec<(String, JsonValue)> = Vec::new();
        if let Some(s) = &self.next_cursor {
            o.push(("nextCursor".to_owned(), JsonValue::Str(s.clone())));
        }
        let arr_prompts = enc_vec_prompt(&self.prompts);
        proof {
            lemma_jv_arr(arr_prompts);
        }
        o.push(("prompts".to_owned(), JsonValue::Arr(arr_prompts)));
        proof {
            lemma_jv_obj(o);
            assert(o.deep_view() =~= enc_list_prompts_result(self.deep_view())->Obj_0);
        }
        JsonValue::Obj(o)
    }

    /// The payload a JSON value holds, if it matches this shape.
    pub fn from_json(v: &JsonValue) -> (r: Option<ListPromptsResult>)
        ensures
            r.deep_view() == dec_list_prompts_result(jv(*v)),
    {
        if !v.is_obj() {
            return None;
        }
        let x_next_cursor = match v.f_opt_str("nextCursor") {
            Some(t) => t,
            None => {
                return None;
            },
        };
        let x_prompts = match v.get("prompts") {
            Some(JsonValue::Arr(a)) => {
                proof {
                    lemma_jv_arr(*a);
                }
                match dec_vec_prompt(a) {
                    Some(list) => list,
                    None => {
                        return None;
                    },
                }
            },
            _ => {
                return None;
            },
        };
        Some(ListPromptsResult { next_cursor: x_next_cursor, prompts: x_prompts })
    }
}

/// A `ListPromptsResult` survives the wire.
pub proof fn lemma_rt_list_prompts_result(x: ListPromptsResultV)
    ensures
        dec_list_prompts_result(enc_list_prompts_result(x)) == Some(x),
{
    reveal_strlit("nextCursor");
    reveal_strlit("prompts");
    assert("nextCursor"@.len() == 10);
    assert("prompts"@.len() == 7);
    lemma_rt_seq_prompt(x.prompts);
}

/// How a `ListToolsResult` stands on the wire.
pub open spec fn enc_list_tools_result(x: ListToolsResultV) -> JsonV {
    JsonV::Obj(oentry("nextCursor"@, opt_str(x.next_cursor), centry("tools"@, JsonV::Arr(enc_seq_tool(x.tools)), nilobj())))
}

/// The `ListToolsResult` a JSON object holds, if it matches the shape.
pub open spec fn dec_list_tools_result(v: JsonV) -> Option<ListToolsResultV> {
    if !(v matches JsonV::Obj(_)) {
        None
    } else {
        match get_opt_s(v, "nextCursor"@) {
            Some(f_next_cursor) =>
            match get_vec_tool(v, "tools"@) {
                Some(f_tools) =>
                 Some(ListToolsResultV { next_cursor: f_next_cursor, tools: f_tools })
                ,
                None => None,
            }
            ,
            None => None,
        }
    }
}

impl ListToolsResult {
    /// This payload as a JSON object.
    pub fn to_json(&self) -> (r: JsonValue)
        ensures
            jv(r) == enc_list_tools_result(self.deep_view()),
    {
        let mut o: Vec<(String, JsonValue)> = Vec::new();
        if let Some(s) = &self.next_cursor {
            o.push(("nextCursor".to_owned(), JsonValue::Str(s.clone())));
        }
        let arr_tools = enc_vec_tool(&self.tools);
        proof {
            lemma_jv_arr(arr_tools);
        }
        o.push(("tools".to_owned(), JsonValue::Arr(arr_tools)));
        proof {
            lemma_jv_obj(o);
            assert(o.deep_view() =~= enc_list_tools_result(self.deep_view())->Obj_0);
        }
        JsonValue::Obj(o)
    }

    /// The payload a JSON value holds, if it matches this shape.
    pub fn from_json(v: &JsonValue) -> (r: Option<ListToolsResult>)
        ensures
            r.deep_view() == dec_list_tools_result(jv(*v)),
    {
        if !v.is_obj() {
            return None;
        }
        let x_next_cursor = match v.f_opt_str("nextCursor") {
            Some(t) => t,
            None => {
                return None;
            },
        };
        let x_tools = match v.get("tools") {
            Some(JsonValue::Arr(a)) => {
                proof {
                    lemma_jv_arr(*a);
                }
                match dec_vec_tool(a) {
                    Some(list) => list,
                    None => {
                        return None;
                    },
                }
            },
            _ => {
                return None;
            },
        };
        Some(ListToolsResult { next_cursor: x_next_cursor, tools: x_tools })
    }
}

/// A `ListToolsResult` survives the wire.
pub proof fn lemma_rt_list_tools_result(x: ListToolsResultV)
    ensures
        dec_list_tools_result(enc_list_tools_result(x)) == Some(x),
{
    reveal_strlit("nextCursor");
    reveal_strlit("tools");
    assert("nextCursor"@.len() == 10);
    assert("tools"@.len() == 5);
    lemma_rt_seq_tool(x.tools);
}

/// How a `GetPromptResult` stands on the wire.
pub open spec fn enc_get_prompt_result(x: GetPromptResultV) -> JsonV {
    JsonV::Obj(oentry("description"@, opt_str(x.description), centry("messages"@, JsonV::Arr(enc_seq_prompt_message(x.messages)), nilobj())))
}

/// The `GetPromptResult` a JSON object holds, if it matches the shape.
pub open spec fn dec_get_prompt_result(v: JsonV) -> Option<GetPromptResultV> {
    if !(v matches JsonV::Obj(_)) {
        None
    } else {
        match get_opt_s(v, "description"@) {
            Some(f_description) =>
            match get_vec_prompt_message(v, "messages"@) {
                Some(f_messages) =>
                 Some(GetPromptResultV { description: f_description, messages: f_messages })
                ,
                None => None,
            }
            ,
            None => None,
        }
    }
}

impl GetPromptResult {
    /// This payload as a JSON object.
    pub fn to_json(&self) -> (r: JsonValue)
        ensures
            jv(r) == enc_get_prompt_result(self.deep_view()),
    {
        let mut o: Vec<(String, JsonValue)> = Vec::new();
        if let Some(s) = &self.description {
            o.push(("description".to_owned(), JsonValue::Str(s.clone())));
        }
        let arr_messages = enc_vec_prompt_message(&self.messages);
        proof {
            lemma_jv_arr(arr_messages);
        }
        o.push(("messages".to_owned(), JsonValue::Arr(arr_messages)));
        proof {
            lemma_jv_obj(o);
            assert(o.deep_view() =~= enc_get_prompt_result(self.deep_view())->Obj_0);
        }
        JsonValue::Obj(o)
    }

    /// The payload a JSON value holds, if it matches this shape.
    pub fn from_json(v: &JsonValue) -> (r: Option<GetPromptResult>)
        ensures
            r.deep_view() == dec_get_prompt_result(jv(*v)),
    {
        if !v.is_obj() {
            return None;
        }
        let x_description = match v.f_opt_str("description") {
            Some(t) => t,
            None => {
                return None;
            },
        };
        let x_messages = match v.get("messages") {
            Some(JsonValue::Arr(a)) => {
                proof {
                    lemma_jv_arr(*a);
                }
                match dec_vec_prompt_message(a) {
                    Some(list) => list,
                    None => {
                        return None;
                    },
                }
            },
            _ => {
                return None;
            },
        };
        Some(GetPromptResult { description: x_description, messages: x_messages })
    }
}

/// A `GetPromptResult` survives the wire.
pub proof fn lemma_rt_get_prompt_result(x: GetPromptResultV)
    ensures
        dec_get_prompt_result(enc_get_prompt_result(x)) == Some(x),
{
    reveal_strlit("description");
    reveal_strlit("messages");
    assert("description"@.len() == 11);
    assert("messages"@.len() == 8);
    lemma_rt_seq_prompt_message(x.messages);
}

/// How a `ReadResourceResult` stands on the wire.
pub open spec fn enc_read_resource_result(x: ReadResourceResultV) -> JsonV {
    JsonV::Obj(centry("contents"@, JsonV::Arr(enc_seq_resource_contents(x.contents)), nilobj()))
}

/// The `ReadResourceResult` a JSON object holds, if it matches the shape.
pub open spec fn dec_read_resource_result(v: JsonV) -> Option<ReadResourceResultV> {
    if !(v matches JsonV::Obj(_)) {
        None
    } else {
        match get_vec_resource_contents(v, "contents"@) {
            Some(f_contents) =>
             Some(ReadResourceResultV { contents: f_contents })
            ,
            None => None,
        }
    }
}

impl ReadResourceResult {
    /// This payload as a JSON object.
    pub fn to_json(&self) -> (r: JsonValue)
        ensures
            jv(r) == enc_read_resource_result(self.deep_view()),
    {
        let mut o: Vec<(String, JsonValue)> = Vec::new();
        let arr_contents = enc_vec_resource_contents(&self.contents);
        proof {
            lemma_jv_arr(arr_contents);
        }
        o.push(("contents".to_owned(), JsonValue::Arr(arr_contents)));
        proof {
            lemma_jv_obj(o);
            assert(o.deep_view() =~= enc_read_resource_result(self.deep_view())->Obj_0);
        }
        JsonValue::Obj(o)
    }

    /// The payload a JSON value holds, if it matches this shape.
    pub fn from_json(v: &JsonValue) -> (r: Option<ReadResourceResult>)
        ensures
            r.deep_view() == dec_read_resource_result(jv(*v)),
    {
        if !v.is_obj() {
            return None;
        }
        let x_contents = match v.get("contents") {
            Some(JsonValue::Arr(a)) => {
                proof {
                    lemma_jv_arr(*a);
                }
                match dec_vec_resource_contents(a) {
                    Some(list) => list,
                    None => {
                        return None;
                    },
                }
            },
            _ => {
                return None;
            },
        };
        Some(ReadResourceResult { contents: x_contents })
    }
}

/// A `ReadResourceResult` survives the wire.
pub proof fn lemma_rt_read_resource_result(x: ReadResourceResultV)
    ensures
        dec_read_resource_result(enc_read_resource_result(x)) == Some(x),
{
    reveal_strlit("contents");
    assert("contents"@.len() == 8);
    lemma_rt_seq_resource_contents(x.contents);
}

/// How a `RequestMeta` stands on the wire.
pub open spec fn enc_request_meta(x: RequestMetaV) -> JsonV {
    JsonV::Obj(centry("progressToken"@, enc_id(x.progress_token), nilobj()))
}

/// The `RequestMeta` a JSON object holds, if it matches the shape.
pub open spec fn dec_request_meta(v: JsonV) -> Option<RequestMetaV> {
    if !(v matches JsonV::Obj(_)) {
        None
    } else {
        match get_id(v, "progressToken"@) {
            Some(f_progress_token) =>
             Some(RequestMetaV { progress_token: f_progress_token })
            ,
            None => None,
        }
    }
}

impl RequestMeta {
    /// This payload as a JSON object.
    pub fn to_json(&self) -> (r: JsonValue)
        ensures
            jv(r) == enc_request_meta(self.deep_view()),
    {
        let mut o: Vec<(String, JsonValue)> = Vec::new();
        o.push(("progressToken".to_owned(), self.progress_token.to_json()));
        proof {
            lemma_jv_obj(o);
            assert(o.deep_view() =~= enc_request_meta(self.deep_view())->Obj_0);
        }
        JsonValue::Obj(o)
    }

    /// The payload a JSON value holds, if it matches this shape.
    pub fn from_json(v: &JsonValue) -> (r: Option<RequestMeta>)
        ensures
            r.deep_view() == dec_request_meta(jv(*v)),
    {
        if !v.is_obj() {
            return None;
        }
        let x_progress_token = match v.get("progressToken") {
            Some(w) => match NumberOrString::from_json(w) {
                Some(i) => i,
                None => {
                    return None;
                },
            },
            None => {
                return None;
            },
        };
        Some(RequestMeta { progress_token: x_progress_token })
    }
}

/// A `RequestMeta` survives the wire.
pub proof fn lemma_rt_request_meta(x: RequestMetaV)
    ensures
        dec_request_meta(enc_request_meta(x)) == Some(x),
{
    reveal_strlit("progressToken");
    assert("progressToken"@.len() == 13);
    lemma_id_round_trip(x.progress_token);
}

} // verus!
