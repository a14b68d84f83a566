//! Encoders and decoders for the leaf enumerations: roles, logging levels,
//! content pieces, completion references and resource contents, plus the
//! empty result object and id fields.

use vstd::prelude::*;

use crate::json::{
    centry, fget, get_opt_s, get_s, jv, lemma_jv_obj, nilobj, oentry, opt_str, string_eq, JsonV,
    JsonValue,
};
use crate::model::{
    Content, ContentV, EmptyObject, ImageContent, ImageContentV, LoggingLevel, PromptReference,
    PromptReferenceV, Reference, ReferenceV, ResourceContents, ResourceContentsV,
    ResourceReference, ResourceReferenceV, Role, TextContent, TextContentV,
};
use crate::rpc::{dec_id, NumberOrStringV};

verus! {

broadcast use crate::json::group_obj_lemmas;

/// An id-valued field.
pub open spec fn get_id(v: JsonV, k: Seq<char>) -> Option<NumberOrStringV> {
    match fget(v, k) {
        Some(w) => dec_id(w),
        None => None,
    }
}

/// The wire spelling of a role.
pub open spec fn role_str(r: Role) -> Seq<char> {
    match r {
        Role::User => "user"@,
        Role::Assistant => "assistant"@,
    }
}

/// The role a wire string names, if any.
pub open spec fn parse_role(s: Seq<char>) -> Option<Role> {
    if s == "user"@ {
        Some(Role::User)
    } else if s == "assistant"@ {
        Some(Role::Assistant)
    } else {
        None
    }
}

/// A role survives the wire.
pub proof fn lemma_rt_role(r: Role)
    ensures
        parse_role(role_str(r)) == Some(r),
{
    reveal_strlit("user");
    reveal_strlit("assistant");
    assert("user"@.len() == 4);
    assert("assistant"@.len() == 9);
}

/// A role-valued field.
pub open spec fn get_role(v: JsonV, k: Seq<char>) -> Option<Role> {
    match get_s(v, k) {
        Some(s) => parse_role(s),
        None => None,
    }
}

/// The wire spelling of a role, as an owned string.
pub fn role_string(r: &Role) -> (s: String)
    ensures
        s@ == role_str(*r),
{
    match r {
        Role::User => "user".to_owned(),
        Role::Assistant => "assistant".to_owned(),
    }
}

/// The role a wire string names, if any.
pub fn role_from_string(s: &String) -> (r: Option<Role>)
    ensures
        r == parse_role(s@),
{
    if string_eq(s, "user") {
        Some(Role::User)
    } else if string_eq(s, "assistant") {
        Some(Role::Assistant)
    } else {
        None
    }
}

/// The wire spelling of a logging level.
pub open spec fn level_str(l: LoggingLevel) -> Seq<char> {
    match l {
        LoggingLevel::Debug => "debug"@,
        LoggingLevel::Info => "info"@,
        LoggingLevel::Notice => "notice"@,
        LoggingLevel::Warning => "warning"@,
        LoggingLevel::Error => "error"@,
        LoggingLevel::Critical => "critical"@,
        LoggingLevel::Alert => "alert"@,
        LoggingLevel::Emergency => "emergency"@,
    }
}

/// The logging level a wire string names, if any.
pub open spec fn parse_level(s: Seq<char>) -> Option<LoggingLevel> {
    if s == "debug"@ {
        Some(LoggingLevel::Debug)
    } else if s == "info"@ {
        Some(LoggingLevel::Info)
    } else if s == "notice"@ {
        Some(LoggingLevel::Notice)
    } else if s == "warning"@ {
        Some(LoggingLevel::Warning)
    } else if s == "error"@ {
        Some(LoggingLevel::Error)
    } else if s == "critical"@ {
        Some(LoggingLevel::Critical)
    } else if s == "alert"@ {
        Some(LoggingLevel::Alert)
    } else if s == "emergency"@ {
        Some(LoggingLevel::Emergency)
    } else {
        None
    }
}

/// A logging level survives the wire.
pub proof fn lemma_rt_level(l: LoggingLevel)
    ensures
        parse_level(level_str(l)) == Some(l),
{
    reveal_strlit("alert");
    reveal_strlit("critical");
    reveal_strlit("debug");
    reveal_strlit("emergency");
    reveal_strlit("error");
    reveal_strlit("info");
    reveal_strlit("notice");
    reveal_strlit("warning");
    assert("alert"@.len() == 5);
    assert("alert"@.index(0) == 'a');
    assert("alert"@.index(1) == 'l');
    assert("alert"@.index(2) == 'e');
    assert("alert"@.index(3) == 'r');
    assert("alert"@.index(4) == 't');
    assert("critical"@.len() == 8);
    assert("critical"@.index(0) == 'c');
    assert("critical"@.index(1) == 'r');
    assert("critical"@.index(2) == 'i');
    assert("critical"@.index(3) == 't');
    assert("critical"@.index(4) == 'i');
    assert("critical"@.index(5) == 'c');
    assert("critical"@.index(6) == 'a');
    assert("critical"@.index(7) == 'l');
    assert("debug"@.len() == 5);
    assert("debug"@.index(0) == 'd');
    assert("debug"@.index(1) == 'e');
    assert("debug"@.index(2) == 'b');
    assert("debug"@.index(3) == 'u');
    assert("debug"@.index(4) == 'g');
    assert("emergency"@.len() == 9);
    assert("emergency"@.index(0) == 'e');
    assert("emergency"@.index(1) == 'm');
    assert("emergency"@.index(2) == 'e');
    assert("emergency"@.index(3) == 'r');
    assert("emergency"@.index(4) == 'g');
    assert("emergency"@.index(5) == 'e');
    assert("emergency"@.index(6) == 'n');
    assert("emergency"@.index(7) == 'c');
    assert("emergency"@.index(8) == 'y');
    assert("error"@.len() == 5);
    assert("error"@.index(0) == 'e');
    assert("error"@.index(1) == 'r');
    assert("error"@.index(2) == 'r');
    assert("error"@.index(3) == 'o');
    assert("error"@.index(4) == 'r');
    assert("info"@.len() == 4);
    assert("info"@.index(0) == 'i');
    assert("info"@.index(1) == 'n');
    assert("info"@.index(2) == 'f');
    assert("info"@.index(3) == 'o');
    assert("notice"@.len() == 6);
    assert("notice"@.index(0) == 'n');
    assert("notice"@.index(1) == 'o');
    assert("notice"@.index(2) == 't');
    assert("notice"@.index(3) == 'i');
    assert("notice"@.index(4) == 'c');
    assert("notice"@.index(5) == 'e');
    assert("warning"@.len() == 7);
    assert("warning"@.index(0) == 'w');
    assert("warning"@.index(1) == 'a');
    assert("warning"@.index(2) == 'r');
    assert("warning"@.index(3) == 'n');
    assert("warning"@.index(4) == 'i');
    assert("warning"@.index(5) == 'n');
    assert("warning"@.index(6) == 'g');
}

/// A level-valued field.
pub open spec fn get_level(v: JsonV, k: Seq<char>) -> Option<LoggingLevel> {
    match get_s(v, k) {
        Some(s) => parse_level(s),
        None => None,
    }
}

/// The wire spelling of a logging level, as an owned string.
pub fn level_string(l: &LoggingLevel) -> (s: String)
    ensures
        s@ == level_str(*l),
{
    match l {
        LoggingLevel::Debug => "debug".to_owned(),
        LoggingLevel::Info => "info".to_owned(),
        LoggingLevel::Notice => "notice".to_owned(),
        LoggingLevel::Warning => "warning".to_owned(),
        LoggingLevel::Error => "error".to_owned(),
        LoggingLevel::Critical => "critical".to_owned(),
        LoggingLevel::Alert => "alert".to_owned(),
        LoggingLevel::Emergency => "emergency".to_owned(),
    }
}

/// The logging level a wire string names, if any.
pub fn level_from_string(s: &String) -> (r: Option<LoggingLevel>)
    ensures
        r == parse_level(s@),
{
    if string_eq(s, "debug") {
        Some(LoggingLevel::Debug)
    } else if string_eq(s, "info") {
        Some(LoggingLevel::Info)
    } else if string_eq(s, "notice") {
        Some(LoggingLevel::Notice)
    } else if string_eq(s, "warning") {
        Some(LoggingLevel::Warning)
    } else if string_eq(s, "error") {
        Some(LoggingLevel::Error)
    } else if string_eq(s, "critical") {
        Some(LoggingLevel::Critical)
    } else if string_eq(s, "alert") {
        Some(LoggingLevel::Alert)
    } else if string_eq(s, "emergency") {
        Some(LoggingLevel::Emergency)
    } else {
        None
    }
}

/// How a content piece stands on the wire: its kind under `type`, its
/// fields beside it.
pub open spec fn enc_content(c: ContentV) -> JsonV {
    match c {
        ContentV::Text(t) => JsonV::Obj(
            centry("type"@, JsonV::Str("text"@), centry("text"@, JsonV::Str(t.text), nilobj())),
        ),
        ContentV::Image(i) => JsonV::Obj(
            centry(
                "type"@,
                JsonV::Str("image"@),
                centry(
                    "data"@,
                    JsonV::Str(i.data),
                    centry("mimeType"@, JsonV::Str(i.mime_type), nilobj()),
                ),
            ),
        ),
    }
}

/// The content piece a JSON value holds, if any: the `type` field picks
/// the variant, whose own fields must then be present.
pub open spec fn dec_content(v: JsonV) -> Option<ContentV> {
    match get_s(v, "type"@) {
        Some(ty) => if ty == "text"@ {
            match get_s(v, "text"@) {
                Some(tx) => Some(ContentV::Text(TextContentV { text: tx })),
                None => None,
            }
        } else if ty == "image"@ {
            match get_s(v, "data"@) {
                Some(d) => match get_s(v, "mimeType"@) {
                    Some(m) => Some(ContentV::Image(ImageContentV { data: d, mime_type: m })),
                    None => None,
                },
                None => None,
            }
        } else {
            None
        },
        None => None,
    }
}

/// A content piece survives the wire.
pub proof fn lemma_rt_content(c: ContentV)
    ensures
        dec_content(enc_content(c)) == Some(c),
{
    reveal_strlit("data");
    reveal_strlit("image");
    reveal_strlit("mimeType");
    reveal_strlit("text");
    reveal_strlit("type");
    assert("data"@.len() == 4);
    assert("data"@.index(0) == 'd');
    assert("data"@.index(1) == 'a');
    assert("data"@.index(2) == 't');
    assert("data"@.index(3) == 'a');
    assert("image"@.len() == 5);
    assert("image"@.index(0) == 'i');
    assert("image"@.index(1) == 'm');
    assert("image"@.index(2) == 'a');
    assert("image"@.index(3) == 'g');
    assert("image"@.index(4) == 'e');
    assert("mimeType"@.len() == 8);
    assert("mimeType"@.index(0) == 'm');
    assert("mimeType"@.index(1) == 'i');
    assert("mimeType"@.index(2) == 'm');
    assert("mimeType"@.index(3) == 'e');
    assert("mimeType"@.index(4) == 'T');
    assert("mimeType"@.index(5) == 'y');
    assert("mimeType"@.index(6) == 'p');
    assert("mimeType"@.index(7) == 'e');
    assert("text"@.len() == 4);
    assert("text"@.index(0) == 't');
    assert("text"@.index(1) == 'e');
    assert("text"@.index(2) == 'x');
    assert("text"@.index(3) == 't');
    assert("type"@.len() == 4);
    assert("type"@.index(0) == 't');
    assert("type"@.index(1) == 'y');
    assert("type"@.index(2) == 'p');
    assert("type"@.index(3) == 'e');
}

impl Content {
    /// This content piece as a JSON object.
    pub fn to_json(&self) -> (r: JsonValue)
        ensures
            jv(r) == enc_content(self.deep_view()),
    {
        let mut o: Vec<(String, JsonValue)> = Vec::new();
        match self {
            Content::Text(t) => {
                o.push(("type".to_owned(), JsonValue::Str("text".to_owned())));
                o.push(("text".to_owned(), JsonValue::Str(t.text.clone())));
            },
            Content::Image(i) => {
                o.push(("type".to_owned(), JsonValue::Str("image".to_owned())));
                o.push(("data".to_owned(), JsonValue::Str(i.data.clone())));
                o.push(("mimeType".to_owned(), JsonValue::Str(i.mime_type.clone())));
            },
        }
        proof {
            lemma_jv_obj(o);
            assert(o.deep_view() =~= enc_content(self.deep_view())->Obj_0);
        }
        JsonValue::Obj(o)
    }

    /// The content piece a JSON value holds, if any.
    pub fn from_json(v: &JsonValue) -> (r: Option<Content>)
        ensures
            r.deep_view() == dec_content(jv(*v)),
    {
        let ty = match v.f_str("type") {
            Some(s) => s,
            None => {
                return None;
            },
        };
        if string_eq(&ty, "text") {
            let tx = match v.f_str("text") {
                Some(s) => s,
                None => {
                    return None;
                },
            };
            Some(Content::Text(TextContent { text: tx }))
        } else if string_eq(&ty, "image") {
            let d = match v.f_str("data") {
                Some(s) => s,
                None => {
                    return None;
                },
            };
            let m = match v.f_str("mimeType") {
                Some(s) => s,
                None => {
                    return None;
                },
            };
            Some(Content::Image(ImageContent { data: d, mime_type: m }))
        } else {
            None
        }
    }
}

/// How a completion reference stands on the wire.
pub open spec fn enc_reference(r: ReferenceV) -> JsonV {
    match r {
        ReferenceV::Resource(rr) => JsonV::Obj(
            centry(
                "type"@,
                JsonV::Str("ref/resource"@),
                centry("uri"@, JsonV::Str(rr.uri), nilobj()),
            ),
        ),
        ReferenceV::Prompt(p) => JsonV::Obj(
            centry(
                "type"@,
                JsonV::Str("ref/prompt"@),
                centry("name"@, JsonV::Str(p.name), nilobj()),
            ),
        ),
    }
}

/// The completion reference a JSON value holds, if any.
pub open spec fn dec_reference(v: JsonV) -> Option<ReferenceV> {
    match get_s(v, "type"@) {
        Some(ty) => if ty == "ref/resource"@ {
            match get_s(v, "uri"@) {
                Some(u) => Some(ReferenceV::Resource(ResourceReferenceV { uri: u })),
                None => None,
            }
        } else if ty == "ref/prompt"@ {
            match get_s(v, "name"@) {
                Some(n) => Some(ReferenceV::Prompt(PromptReferenceV { name: n })),
                None => None,
            }
        } else {
            None
        },
        None => None,
    }
}

/// A completion reference survives the wire.
pub proof fn lemma_rt_reference(r: ReferenceV)
    ensures
        dec_reference(enc_reference(r)) == Some(r),
{
    reveal_strlit("name");
    reveal_strlit("ref/prompt");
    reveal_strlit("ref/resource");
    reveal_strlit("type");
    reveal_strlit("uri");
    assert("name"@.len() == 4);
    assert("name"@.index(0) == 'n');
    assert("name"@.index(1) == 'a');
    assert("name"@.index(2) == 'm');
    assert("name"@.index(3) == 'e');
    assert("ref/prompt"@.len() == 10);
    assert("ref/prompt"@.index(0) == 'r');
    assert("ref/prompt"@.index(1) == 'e');
    assert("ref/prompt"@.index(2) == 'f');
    assert("ref/prompt"@.index(3) == '/');
    assert("ref/prompt"@.index(4) == 'p');
    assert("ref/prompt"@.index(5) == 'r');
    assert("ref/prompt"@.index(6) == 'o');
    assert("ref/prompt"@.index(7) == 'm');
    assert("ref/prompt"@.index(8) == 'p');
    assert("ref/prompt"@.index(9) == 't');
    assert("ref/resource"@.len() == 12);
    assert("ref/resource"@.index(0) == 'r');
    assert("ref/resource"@.index(1) == 'e');
    assert("ref/resource"@.index(2) == 'f');
    assert("ref/resource"@.index(3) == '/');
    assert("ref/resource"@.index(4) == 'r');
    assert("ref/resource"@.index(5) == 'e');
    assert("ref/resource"@.index(6) == 's');
    assert("ref/resource"@.index(7) == 'o');
    assert("ref/resource"@.index(8) == 'u');
    assert("ref/resource"@.index(9) == 'r');
    assert("ref/resource"@.index(10) == 'c');
    assert("ref/resource"@.index(11) == 'e');
    assert("type"@.len() == 4);
    assert("type"@.index(0) == 't');
    assert("type"@.index(1) == 'y');
    assert("type"@.index(2) == 'p');
    assert("type"@.index(3) == 'e');
    assert("uri"@.len() == 3);
    assert("uri"@.index(0) == 'u');
    assert("uri"@.index(1) == 'r');
    assert("uri"@.index(2) == 'i');
}

impl Reference {
    /// This reference as a JSON object.
    pub fn to_json(&self) -> (r: JsonValue)
        ensures
            jv(r) == enc_reference(self.deep_view()),
    {
        let mut o: Vec<(String, JsonValue)> = Vec::new();
        match self {
            Reference::Resource(rr) => {
                o.push(("type".to_owned(), JsonValue::Str("ref/resource".to_owned())));
                o.push(("uri".to_owned(), JsonValue::Str(rr.uri.clone())));
            },
            Reference::Prompt(p) => {
                o.push(("type".to_owned(), JsonValue::Str("ref/prompt".to_owned())));
                o.push(("name".to_owned(), JsonValue::Str(p.name.clone())));
            },
        }
        proof {
            lemma_jv_obj(o);
            assert(o.deep_view() =~= enc_reference(self.deep_view())->Obj_0);
        }
        JsonValue::Obj(o)
    }

    /// The reference a JSON value holds, if any.
    pub fn from_json(v: &JsonValue) -> (r: Option<Reference>)
        ensures
            r.deep_view() == dec_reference(jv(*v)),
    {
        let ty = match v.f_str("type") {
            Some(s) => s,
            None => {
                return None;
            },
        };
        if string_eq(&ty, "ref/resource") {
            match v.f_str("uri") {
                Some(u) => Some(Reference::Resource(ResourceReference { uri: u })),
                None => None,
            }
        } else if string_eq(&ty, "ref/prompt") {
            match v.f_str("name") {
                Some(n) => Some(Reference::Prompt(PromptReference { name: n })),
                None => None,
            }
        } else {
            None
        }
    }
}

/// How read resource contents stand on the wire: text or blob beside the
/// uri and media type.
pub open spec fn enc_resource_contents(c: ResourceContentsV) -> JsonV {
    match c {
        ResourceContentsV::TextResourceContents { uri, mime_type, text } => JsonV::Obj(
            centry(
                "uri"@,
                JsonV::Str(uri),
                oentry("mimeType"@, opt_str(mime_type), centry("text"@, JsonV::Str(text), nilobj())),
            ),
        ),
        ResourceContentsV::BlobResourceContents { uri, mime_type, blob } => JsonV::Obj(
            centry(
                "uri"@,
                JsonV::Str(uri),
                oentry("mimeType"@, opt_str(mime_type), centry("blob"@, JsonV::Str(blob), nilobj())),
            ),
        ),
    }
}

/// The text shape, when all its fields are present and well-typed.
pub open spec fn dec_text_resource_contents(v: JsonV) -> Option<ResourceContentsV> {
    match get_s(v, "uri"@) {
        Some(u) => match get_opt_s(v, "mimeType"@) {
            Some(m) => match get_s(v, "text"@) {
                Some(t) => Some(
                    ResourceContentsV::TextResourceContents { uri: u, mime_type: m, text: t },
                ),
                None => None,
            },
            None => None,
        },
        None => None,
    }
}

/// The blob shape, when all its fields are present and well-typed.
pub open spec fn dec_blob_resource_contents(v: JsonV) -> Option<ResourceContentsV> {
    match get_s(v, "uri"@) {
        Some(u) => match get_opt_s(v, "mimeType"@) {
            Some(m) => match get_s(v, "blob"@) {
                Some(b) => Some(
                    ResourceContentsV::BlobResourceContents { uri: u, mime_type: m, blob: b },
                ),
                None => None,
            },
            None => None,
        },
        None => None,
    }
}

/// The resource contents a JSON value holds: the text shape is tried
/// first, then the blob shape.
pub open spec fn dec_resource_contents(v: JsonV) -> Option<ResourceContentsV> {
    match dec_text_resource_contents(v) {
        Some(c) => Some(c),
        None => dec_blob_resource_contents(v),
    }
}

/// Resource contents survive the wire.
pub proof fn lemma_rt_resource_contents(c: ResourceContentsV)
    ensures
        dec_resource_contents(enc_resource_contents(c)) == Some(c),
{
    reveal_strlit("blob");
    reveal_strlit("mimeType");
    reveal_strlit("text");
    reveal_strlit("uri");
    assert("blob"@.len() == 4);
    assert("blob"@.index(0) == 'b');
    assert("blob"@.index(1) == 'l');
    assert("blob"@.index(2) == 'o');
    assert("blob"@.index(3) == 'b');
    assert("mimeType"@.len() == 8);
    assert("mimeType"@.index(0) == 'm');
    assert("mimeType"@.index(1) == 'i');
    assert("mimeType"@.index(2) == 'm');
    assert("mimeType"@.index(3) == 'e');
    assert("mimeType"@.index(4) == 'T');
    assert("mimeType"@.index(5) == 'y');
    assert("mimeType"@.index(6) == 'p');
    assert("mimeType"@.index(7) == 'e');
    assert("text"@.len() == 4);
    assert("text"@.index(0) == 't');
    assert("text"@.index(1) == 'e');
    assert("text"@.index(2) == 'x');
    assert("text"@.index(3) == 't');
    assert("uri"@.len() == 3);
    assert("uri"@.index(0) == 'u');
    assert("uri"@.index(1) == 'r');
    assert("uri"@.index(2) == 'i');
}

impl ResourceContents {
    /// These contents as a JSON object.
    pub fn to_json(&self) -> (r: JsonValue)
        ensures
            jv(r) == enc_resource_contents(self.deep_view()),
    {
        let mut o: Vec<(String, JsonValue)> = Vec::new();
        match self {
            ResourceContents::TextResourceContents { uri, mime_type, text } => {
                o.push(("uri".to_owned(), JsonValue::Str(uri.clone())));
                if let Some(m) = mime_type {
                    o.push(("mimeType".to_owned(), JsonValue::Str(m.clone())));
                }
                o.push(("text".to_owned(), JsonValue::Str(text.clone())));
            },
            ResourceContents::BlobResourceContents { uri, mime_type, blob } => {
                o.push(("uri".to_owned(), JsonValue::Str(uri.clone())));
                if let Some(m) = mime_type {
                    o.push(("mimeType".to_owned(), JsonValue::Str(m.clone())));
                }
                o.push(("blob".to_owned(), JsonValue::Str(blob.clone())));
            },
        }
        proof {
            lemma_jv_obj(o);
            assert(o.deep_view() =~= enc_resource_contents(self.deep_view())->Obj_0);
        }
        JsonValue::Obj(o)
    }

    /// The resource contents a JSON value holds, if any.
    pub fn from_json(v: &JsonValue) -> (r: Option<ResourceContents>)
        ensures
            r.deep_view() == dec_resource_contents(jv(*v)),
    {
        let uri = match v.f_str("uri") {
            Some(s) => s,
            None => {
                return None;
            },
        };
        let mime_type = match v.f_opt_str("mimeType") {
            Some(m) => m,
            None => {
                return None;
            },
        };
        if let Some(t) = v.f_str("text") {
            return Some(ResourceContents::TextResourceContents { uri, mime_type, text: t });
        }
        match v.f_str("blob") {
            Some(b) => Some(ResourceContents::BlobResourceContents { uri, mime_type, blob: b }),
            None => None,
        }
    }
}

/// How the empty result stands on the wire: an object with no entries.
pub open spec fn enc_empty_object(e: EmptyObject) -> JsonV {
    JsonV::Obj(nilobj())
}

/// Any object at all reads back as the empty result: unknown keys are
/// tolerated everywhere, so here everything is an unknown key.
pub open spec fn dec_empty_object(v: JsonV) -> Option<EmptyObject> {
    match v {
        JsonV::Obj(_) => Some(EmptyObject {  }),
        _ => None,
    }
}

/// The empty result survives the wire.
pub proof fn lemma_rt_empty_object(e: EmptyObject)
    ensures
        dec_empty_object(enc_empty_object(e)) == Some(e),
{
}

impl EmptyObject {
    /// The empty result as a JSON object.
    pub fn to_json(&self) -> (r: JsonValue)
        ensures
            jv(r) == enc_empty_object(*self),
    {
        let o: Vec<(String, JsonValue)> = Vec::new();
        proof {
            lemma_jv_obj(o);
            assert(o.deep_view() =~= nilobj());
        }
        JsonValue::Obj(o)
    }

    /// The empty result any JSON object holds.
    pub fn from_json(v: &JsonValue) -> (r: Option<EmptyObject>)
        ensures
            r.deep_view() == dec_empty_object(jv(*v)),
    {
        if v.is_obj() {
            Some(EmptyObject {  })
        } else {
            None
        }
    }
}

} // verus!
