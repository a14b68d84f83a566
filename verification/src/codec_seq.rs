//! Element-wise encoders and decoders for the runs of payloads that the
//! listing results and sampled conversations carry.

use vstd::prelude::*;

use crate::json::{
    fget, get_a, jv, lemma_deep_view_push, JsonV, JsonValue,
};
use crate::codec_base::{enc_content, dec_content, lemma_rt_content, enc_resource_contents, dec_resource_contents, lemma_rt_resource_contents};
use crate::codec_payload::{dec_prompt, dec_prompt_argument, dec_prompt_message, dec_resource, dec_root, dec_sampling_message, dec_tool, enc_prompt, enc_prompt_argument, enc_prompt_message, enc_resource, enc_root, enc_sampling_message, enc_tool, lemma_rt_prompt, lemma_rt_prompt_argument, lemma_rt_prompt_message, lemma_rt_resource, lemma_rt_root, lemma_rt_sampling_message, lemma_rt_tool};
use crate::model::{Content, ContentV, Prompt, PromptArgument, PromptArgumentV, PromptMessage, PromptMessageV, PromptV, Resource, ResourceContents, ResourceContentsV, ResourceV, Root, RootV, SamplingMessage, SamplingMessageV, Tool, ToolV};

verus! {

broadcast use crate::json::group_obj_lemmas;

/// A string as a JSON value.
pub open spec fn enc_str_val(s: Seq<char>) -> JsonV {
    JsonV::Str(s)
}

/// The string a JSON value holds, if it is one.
pub open spec fn dec_str_val(v: JsonV) -> Option<Seq<char>> {
    match v {
        JsonV::Str(s) => Some(s),
        _ => None,
    }
}

/// A string as a JSON value.
fn enc_str_val_exec(s: &String) -> (r: JsonValue)
    ensures
        jv(r) == enc_str_val(s@),
{
    JsonValue::Str(s.clone())
}

/// The string a JSON value holds, if it is one.
fn dec_str_val_exec(v: &JsonValue) -> (r: Option<String>)
    ensures
        r.deep_view() == dec_str_val(jv(*v)),
{
    match v {
        JsonValue::Str(s) => Some(s.clone()),
        _ => None,
    }
}

/// Element-wise encoding of a run of strings.
pub open spec fn enc_seq_string(s: Seq<Seq<char>>) -> Seq<JsonV>
    decreases s.len(),
{
    if s.len() == 0 {
        Seq::empty()
    } else {
        seq![enc_str_val(s[0])] + enc_seq_string(s.drop_first())
    }
}

/// What each position of an encoded run holds.
pub proof fn lemma_enc_seq_string(s: Seq<Seq<char>>)
    ensures
        enc_seq_string(s).len() == s.len(),
        forall|j: int| 0 <= j < s.len() ==> enc_seq_string(s)[j] == enc_str_val(#[trigger] s[j]),
    decreases s.len(),
{
    if s.len() > 0 {
        lemma_enc_seq_string(s.drop_first());
        assert forall|j: int| 0 <= j < s.len() implies enc_seq_string(s)[j] == enc_str_val(#[trigger] s[j]) by {
            if j > 0 {
                assert(enc_seq_string(s)[j] == enc_seq_string(s.drop_first())[j - 1]);
                assert(s.drop_first()[j - 1] == s[j]);
            }
        }
    }
}

/// Element-wise decoding of a run of strings: every element must fit.
pub open spec fn dec_seq_string(s: Seq<JsonV>) -> Option<Seq<Seq<char>>>
    decreases s.len(),
{
    if s.len() == 0 {
        Some(Seq::empty())
    } else {
        match dec_str_val(s[0]) {
            Some(t) => match dec_seq_string(s.drop_first()) {
                Some(rest) => Some(seq![t] + rest),
                None => None,
            },
            None => None,
        }
    }
}

/// Unfolds the decoding of a run at position `i`.
pub proof fn lemma_dec_seq_string_skip(s: Seq<JsonV>, i: int)
    requires
        0 <= i < s.len(),
    ensures
        dec_seq_string(s.skip(i)) == match dec_str_val(s[i]) {
            Some(t) => match dec_seq_string(s.skip(i + 1)) {
                Some(rest) => Some(seq![t] + rest),
                None => None::<Seq<Seq<char>>>,
            },
            None => None::<Seq<Seq<char>>>,
        },
{
    let sub = s.skip(i);
    assert(sub.len() > 0);
    assert(sub[0] == s[i]);
    assert(sub.drop_first() =~= s.skip(i + 1));
}

/// A run of strings survives the wire.
pub proof fn lemma_rt_seq_string(s: Seq<Seq<char>>)
    ensures
        dec_seq_string(enc_seq_string(s)) == Some(s),
    decreases s.len(),
{
    let m = enc_seq_string(s);
    if s.len() == 0 {
        assert(Seq::<Seq<char>>::empty() =~= s);
    } else {
        assert(m[0] == enc_str_val(s[0]));
        assert(m.drop_first() =~= enc_seq_string(s.drop_first()));
        lemma_rt_seq_string(s.drop_first());
        assert(seq![s[0]] + s.drop_first() =~= s);
    }
}

/// A required array field of strings elements.
pub open spec fn get_vec_string(v: JsonV, k: Seq<char>) -> Option<Seq<Seq<char>>> {
    match get_a(v, k) {
        Some(a) => dec_seq_string(a),
        None => None,
    }
}

/// An optional array field of strings elements.
pub open spec fn get_opt_vec_string(v: JsonV, k: Seq<char>) -> Option<Option<Seq<Seq<char>>>> {
    match fget(v, k) {
        None => Some(None),
        Some(JsonV::Null) => Some(None),
        Some(JsonV::Arr(a)) => match dec_seq_string(a) {
            Some(list) => Some(Some(list)),
            None => None,
        },
        Some(_) => None,
    }
}

/// An optional run of strings, encoded if present.
pub open spec fn opt_arr_string(o: Option<Seq<Seq<char>>>) -> Option<JsonV> {
    match o {
        Some(s) => Some(JsonV::Arr(enc_seq_string(s))),
        None => None,
    }
}

/// Encodes each element of `items`, in order.
pub fn enc_vec_string(items: &Vec<String>) -> (r: Vec<JsonValue>)
    ensures
        r.deep_view() == enc_seq_string(items.deep_view()),
{
    let mut out: Vec<JsonValue> = Vec::new();
    let mut i: usize = 0;
    while i < items.len()
        invariant
            i <= items@.len(),
            out@.len() == i,
            forall|j: int| 0 <= j < i ==> jv(#[trigger] out@[j]) == enc_str_val(items@[j].deep_view()),
        decreases items@.len() - i,
    {
        out.push(enc_str_val_exec(&items[i]));
        i = i + 1;
    }
    proof {
        lemma_enc_seq_string(items.deep_view());
        assert forall|j: int| 0 <= j < out@.len() implies out.deep_view()[j] == enc_seq_string(
            items.deep_view(),
        )[j] by {
            assert(out.deep_view()[j] == jv(out@[j]));
            assert(items.deep_view()[j] == items@[j].deep_view());
        }
        assert(out.deep_view() =~= enc_seq_string(items.deep_view()));
    }
    out
}

/// Decodes each element; any misshapen element fails the array.
pub fn dec_vec_string(items: &Vec<JsonValue>) -> (r: Option<Vec<String>>)
    ensures
        r.deep_view() == dec_seq_string(items.deep_view()),
{
    let ghost s = items.deep_view();
    let mut out: Vec<String> = Vec::new();
    let mut i: usize = 0;
    proof {
        assert(s.skip(0) =~= s);
    }
    while i < items.len()
        invariant
            i <= items@.len(),
            s == items.deep_view(),
            out.deep_view().len() == i,
            (dec_seq_string(s) is Some) == (dec_seq_string(s.skip(i as int)) is Some),
            dec_seq_string(s) matches Some(full) ==> dec_seq_string(s.skip(i as int)) matches Some(rest)
                && full == out.deep_view() + rest,
        decreases items@.len() - i,
    {
        proof {
            lemma_dec_seq_string_skip(s, i as int);
        }
        match dec_str_val_exec(&items[i]) {
            Some(t) => {
                let ghost out0 = out;
                out.push(t);
                proof {
                    lemma_deep_view_push(out0, out, t);
                    if dec_seq_string(s) is Some {
                        let rest2 = dec_seq_string(s.skip(i + 1))->Some_0;
                        assert(out0.deep_view() + (seq![t.deep_view()] + rest2) =~= out.deep_view() + rest2);
                    }
                }
            },
            None => {
                return None;
            },
        }
        i = i + 1;
    }
    proof {
        assert(s.skip(i as int) =~= Seq::empty());
        if dec_seq_string(s) is Some {
            assert(out.deep_view() + Seq::<Seq<char>>::empty() =~= out.deep_view());
        }
    }
    Some(out)
}

/// Element-wise encoding of a run of `SamplingMessage`.
pub open spec fn enc_seq_sampling_message(s: Seq<SamplingMessageV>) -> Seq<JsonV>
    decreases s.len(),
{
    if s.len() == 0 {
        Seq::empty()
    } else {
        seq![enc_sampling_message(s[0])] + enc_seq_sampling_message(s.drop_first())
    }
}

/// What each position of an encoded run holds.
pub proof fn lemma_enc_seq_sampling_message(s: Seq<SamplingMessageV>)
    ensures
        enc_seq_sampling_message(s).len() == s.len(),
        forall|j: int| 0 <= j < s.len() ==> enc_seq_sampling_message(s)[j] == enc_sampling_message(#[trigger] s[j]),
    decreases s.len(),
{
    if s.len() > 0 {
        lemma_enc_seq_sampling_message(s.drop_first());
        assert forall|j: int| 0 <= j < s.len() implies enc_seq_sampling_message(s)[j] == enc_sampling_message(#[trigger] s[j]) by {
            if j > 0 {
                assert(enc_seq_sampling_message(s)[j] == enc_seq_sampling_message(s.drop_first())[j - 1]);
                assert(s.drop_first()[j - 1] == s[j]);
            }
        }
    }
}

/// Element-wise decoding of a run of `SamplingMessage`: every element must fit.
pub open spec fn dec_seq_sampling_message(s: Seq<JsonV>) -> Option<Seq<SamplingMessageV>>
    decreases s.len(),
{
    if s.len() == 0 {
        Some(Seq::empty())
    } else {
        match dec_sampling_message(s[0]) {
            Some(t) => match dec_seq_sampling_message(s.drop_first()) {
                Some(rest) => Some(seq![t] + rest),
                None => None,
            },
            None => None,
        }
    }
}

/// Unfolds the decoding of a run at position `i`.
pub proof fn lemma_dec_seq_sampling_message_skip(s: Seq<JsonV>, i: int)
    requires
        0 <= i < s.len(),
    ensures
        dec_seq_sampling_message(s.skip(i)) == match dec_sampling_message(s[i]) {
            Some(t) => match dec_seq_sampling_message(s.skip(i + 1)) {
                Some(rest) => Some(seq![t] + rest),
                None => None::<Seq<SamplingMessageV>>,
            },
            None => None::<Seq<SamplingMessageV>>,
        },
{
    let sub = s.skip(i);
    assert(sub.len() > 0);
    assert(sub[0] == s[i]);
    assert(sub.drop_first() =~= s.skip(i + 1));
}

/// A run of `SamplingMessage` survives the wire.
pub proof fn lemma_rt_seq_sampling_message(s: Seq<SamplingMessageV>)
    ensures
        dec_seq_sampling_message(enc_seq_sampling_message(s)) == Some(s),
    decreases s.len(),
{
    let m = enc_seq_sampling_message(s);
    if s.len() == 0 {
        assert(Seq::<SamplingMessageV>::empty() =~= s);
    } else {
        assert(m[0] == enc_sampling_message(s[0]));
        assert(m.drop_first() =~= enc_seq_sampling_message(s.drop_first()));
        lemma_rt_sampling_message(s[0]);
        lemma_rt_seq_sampling_message(s.drop_first());
        assert(seq![s[0]] + s.drop_first() =~= s);
    }
}

/// A required array field of `SamplingMessage` elements.
pub open spec fn get_vec_sampling_message(v: JsonV, k: Seq<char>) -> Option<Seq<SamplingMessageV>> {
    match get_a(v, k) {
        Some(a) => dec_seq_sampling_message(a),
        None => None,
    }
}

/// An optional array field of `SamplingMessage` elements.
pub open spec fn get_opt_vec_sampling_message(v: JsonV, k: Seq<char>) -> Option<Option<Seq<SamplingMessageV>>> {
    match fget(v, k) {
        None => Some(None),
        Some(JsonV::Null) => Some(None),
        Some(JsonV::Arr(a)) => match dec_seq_sampling_message(a) {
            Some(list) => Some(Some(list)),
            None => None,
        },
        Some(_) => None,
    }
}

/// An optional run of `SamplingMessage`, encoded if present.
pub open spec fn opt_arr_sampling_message(o: Option<Seq<SamplingMessageV>>) -> Option<JsonV> {
    match o {
        Some(s) => Some(JsonV::Arr(enc_seq_sampling_message(s))),
        None => None,
    }
}

/// Encodes each element of `items`, in order.
pub fn enc_vec_sampling_message(items: &Vec<SamplingMessage>) -> (r: Vec<JsonValue>)
    ensures
        r.deep_view() == enc_seq_sampling_message(items.deep_view()),
{
    let mut out: Vec<JsonValue> = Vec::new();
    let mut i: usize = 0;
    while i < items.len()
        invariant
            i <= items@.len(),
            out@.len() == i,
            forall|j: int| 0 <= j < i ==> jv(#[trigger] out@[j]) == enc_sampling_message(items@[j].deep_view()),
        decreases items@.len() - i,
    {
        out.push(items[i].to_json());
        i = i + 1;
    }
    proof {
        lemma_enc_seq_sampling_message(items.deep_view());
        assert forall|j: int| 0 <= j < out@.len() implies out.deep_view()[j] == enc_seq_sampling_message(
            items.deep_view(),
        )[j] by {
            assert(out.deep_view()[j] == jv(out@[j]));
            assert(items.deep_view()[j] == items@[j].deep_view());
        }
        assert(out.deep_view() =~= enc_seq_sampling_message(items.deep_view()));
    }
    out
}

/// Decodes each element; any misshapen element fails the array.
pub fn dec_vec_sampling_message(items: &Vec<JsonValue>) -> (r: Option<Vec<SamplingMessage>>)
    ensures
        r.deep_view() == dec_seq_sampling_message(items.deep_view()),
{
    let ghost s = items.deep_view();
    let mut out: Vec<SamplingMessage> = Vec::new();
    let mut i: usize = 0;
    proof {
        assert(s.skip(0) =~= s);
    }
    while i < items.len()
        invariant
            i <= items@.len(),
            s == items.deep_view(),
            out.deep_view().len() == i,
            (dec_seq_sampling_message(s) is Some) == (dec_seq_sampling_message(s.skip(i as int)) is Some),
            dec_seq_sampling_message(s) matches Some(full) ==> dec_seq_sampling_message(s.skip(i as int)) matches Some(rest)
                && full == out.deep_view() + rest,
        decreases items@.len() - i,
    {
        proof {
            lemma_dec_seq_sampling_message_skip(s, i as int);
        }
        match SamplingMessage::from_json(&items[i]) {
            Some(t) => {
                let ghost out0 = out;
                out.push(t);
                proof {
                    lemma_deep_view_push(out0, out, t);
                    if dec_seq_sampling_message(s) is Some {
                        let rest2 = dec_seq_sampling_message(s.skip(i + 1))->Some_0;
                        assert(out0.deep_view() + (seq![t.deep_view()] + rest2) =~= out.deep_view() + rest2);
                    }
                }
            },
            None => {
                return None;
            },
        }
        i = i + 1;
    }
    proof {
        assert(s.skip(i as int) =~= Seq::empty());
        if dec_seq_sampling_message(s) is Some {
            assert(out.deep_view() + Seq::<SamplingMessageV>::empty() =~= out.deep_view());
        }
    }
    Some(out)
}

/// Element-wise encoding of a run of `Root`.
pub open spec fn enc_seq_root(s: Seq<RootV>) -> Seq<JsonV>
    decreases s.len(),
{
    if s.len() == 0 {
        Seq::empty()
    } else {
        seq![enc_root(s[0])] + enc_seq_root(s.drop_first())
    }
}

/// What each position of an encoded run holds.
pub proof fn lemma_enc_seq_root(s: Seq<RootV>)
    ensures
        enc_seq_root(s).len() == s.len(),
        forall|j: int| 0 <= j < s.len() ==> enc_seq_root(s)[j] == enc_root(#[trigger] s[j]),
    decreases s.len(),
{
    if s.len() > 0 {
        lemma_enc_seq_root(s.drop_first());
        assert forall|j: int| 0 <= j < s.len() implies enc_seq_root(s)[j] == enc_root(#[trigger] s[j]) by {
            if j > 0 {
                assert(enc_seq_root(s)[j] == enc_seq_root(s.drop_first())[j - 1]);
                assert(s.drop_first()[j - 1] == s[j]);
            }
        }
    }
}

/// Element-wise decoding of a run of `Root`: every element must fit.
pub open spec fn dec_seq_root(s: Seq<JsonV>) -> Option<Seq<RootV>>
    decreases s.len(),
{
    if s.len() == 0 {
        Some(Seq::empty())
    } else {
        match dec_root(s[0]) {
            Some(t) => match dec_seq_root(s.drop_first()) {
                Some(rest) => Some(seq![t] + rest),
                None => None,
            },
            None => None,
        }
    }
}

/// Unfolds the decoding of a run at position `i`.
pub proof fn lemma_dec_seq_root_skip(s: Seq<JsonV>, i: int)
    requires
        0 <= i < s.len(),
    ensures
        dec_seq_root(s.skip(i)) == match dec_root(s[i]) {
            Some(t) => match dec_seq_root(s.skip(i + 1)) {
                Some(rest) => Some(seq![t] + rest),
                None => None::<Seq<RootV>>,
            },
            None => None::<Seq<RootV>>,
        },
{
    let sub = s.skip(i);
    assert(sub.len() > 0);
    assert(sub[0] == s[i]);
    assert(sub.drop_first() =~= s.skip(i + 1));
}

/// A run of `Root` survives the wire.
pub proof fn lemma_rt_seq_root(s: Seq<RootV>)
    ensures
        dec_seq_root(enc_seq_root(s)) == Some(s),
    decreases s.len(),
{
    let m = enc_seq_root(s);
    if s.len() == 0 {
        assert(Seq::<RootV>::empty() =~= s);
    } else {
        assert(m[0] == enc_root(s[0]));
        assert(m.drop_first() =~= enc_seq_root(s.drop_first()));
        lemma_rt_root(s[0]);
        lemma_rt_seq_root(s.drop_first());
        assert(seq![s[0]] + s.drop_first() =~= s);
    }
}

/// A required array field of `Root` elements.
pub open spec fn get_vec_root(v: JsonV, k: Seq<char>) -> Option<Seq<RootV>> {
    match get_a(v, k) {
        Some(a) => dec_seq_root(a),
        None => None,
    }
}

/// An optional array field of `Root` elements.
pub open spec fn get_opt_vec_root(v: JsonV, k: Seq<char>) -> Option<Option<Seq<RootV>>> {
    match fget(v, k) {
        None => Some(None),
        Some(JsonV::Null) => Some(None),
        Some(JsonV::Arr(a)) => match dec_seq_root(a) {
            Some(list) => Some(Some(list)),
            None => None,
        },
        Some(_) => None,
    }
}

/// An optional run of `Root`, encoded if present.
pub open spec fn opt_arr_root(o: Option<Seq<RootV>>) -> Option<JsonV> {
    match o {
        Some(s) => Some(JsonV::Arr(enc_seq_root(s))),
        None => None,
    }
}

/// Encodes each element of `items`, in order.
pub fn enc_vec_root(items: &Vec<Root>) -> (r: Vec<JsonValue>)
    ensures
        r.deep_view() == enc_seq_root(items.deep_view()),
{
    let mut out: Vec<JsonValue> = Vec::new();
    let mut i: usize = 0;
    while i < items.len()
        invariant
            i <= items@.len(),
            out@.len() == i,
            forall|j: int| 0 <= j < i ==> jv(#[trigger] out@[j]) == enc_root(items@[j].deep_view()),
        decreases items@.len() - i,
    {
        out.push(items[i].to_json());
        i = i + 1;
    }
    proof {
        lemma_enc_seq_root(items.deep_view());
        assert forall|j: int| 0 <= j < out@.len() implies out.deep_view()[j] == enc_seq_root(
            items.deep_view(),
        )[j] by {
            assert(out.deep_view()[j] == jv(out@[j]));
            assert(items.deep_view()[j] == items@[j].deep_view());
        }
        assert(out.deep_view() =~= enc_seq_root(items.deep_view()));
    }
    out
}

/// Decodes each element; any misshapen element fails the array.
pub fn dec_vec_root(items: &Vec<JsonValue>) -> (r: Option<Vec<Root>>)
    ensures
        r.deep_view() == dec_seq_root(items.deep_view()),
{
    let ghost s = items.deep_view();
    let mut out: Vec<Root> = Vec::new();
    let mut i: usize = 0;
    proof {
        assert(s.skip(0) =~= s);
    }
    while i < items.len()
        invariant
            i <= items@.len(),
            s == items.deep_view(),
            out.deep_view().len() == i,
            (dec_seq_root(s) is Some) == (dec_seq_root(s.skip(i as int)) is Some),
            dec_seq_root(s) matches Some(full) ==> dec_seq_root(s.skip(i as int)) matches Some(rest)
                && full == out.deep_view() + rest,
        decreases items@.len() - i,
    {
        proof {
            lemma_dec_seq_root_skip(s, i as int);
        }
        match Root::from_json(&items[i]) {
            Some(t) => {
                let ghost out0 = out;
                out.push(t);
                proof {
                    lemma_deep_view_push(out0, out, t);
                    if dec_seq_root(s) is Some {
                        let rest2 = dec_seq_root(s.skip(i + 1))->Some_0;
                        assert(out0.deep_view() + (seq![t.deep_view()] + rest2) =~= out.deep_view() + rest2);
                    }
                }
            },
            None => {
                return None;
            },
        }
        i = i + 1;
    }
    proof {
        assert(s.skip(i as int) =~= Seq::empty());
        if dec_seq_root(s) is Some {
            assert(out.deep_view() + Seq::<RootV>::empty() =~= out.deep_view());
        }
    }
    Some(out)
}

/// Element-wise encoding of a run of `Content`.
pub open spec fn enc_seq_content(s: Seq<ContentV>) -> Seq<JsonV>
    decreases s.len(),
{
    if s.len() == 0 {
        Seq::empty()
    } else {
        seq![enc_content(s[0])] + enc_seq_content(s.drop_first())
    }
}

/// What each position of an encoded run holds.
pub proof fn lemma_enc_seq_content(s: Seq<ContentV>)
    ensures
        enc_seq_content(s).len() == s.len(),
        forall|j: int| 0 <= j < s.len() ==> enc_seq_content(s)[j] == enc_content(#[trigger] s[j]),
    decreases s.len(),
{
    if s.len() > 0 {
        lemma_enc_seq_content(s.drop_first());
        assert forall|j: int| 0 <= j < s.len() implies enc_seq_content(s)[j] == enc_content(#[trigger] s[j]) by {
            if j > 0 {
                assert(enc_seq_content(s)[j] == enc_seq_content(s.drop_first())[j - 1]);
                assert(s.drop_first()[j - 1] == s[j]);
            }
        }
    }
}

/// Element-wise decoding of a run of `Content`: every element must fit.
pub open spec fn dec_seq_content(s: Seq<JsonV>) -> Option<Seq<ContentV>>
    decreases s.len(),
{
    if s.len() == 0 {
        Some(Seq::empty())
    } else {
        match dec_content(s[0]) {
            Some(t) => match dec_seq_content(s.drop_first()) {
                Some(rest) => Some(seq![t] + rest),
                None => None,
            },
            None => None,
        }
    }
}

/// Unfolds the decoding of a run at position `i`.
pub proof fn lemma_dec_seq_content_skip(s: Seq<JsonV>, i: int)
    requires
        0 <= i < s.len(),
    ensures
        dec_seq_content(s.skip(i)) == match dec_content(s[i]) {
            Some(t) => match dec_seq_content(s.skip(i + 1)) {
                Some(rest) => Some(seq![t] + rest),
                None => None::<Seq<ContentV>>,
            },
            None => None::<Seq<ContentV>>,
        },
{
    let sub = s.skip(i);
    assert(sub.len() > 0);
    assert(sub[0] == s[i]);
    assert(sub.drop_first() =~= s.skip(i + 1));
}

/// A run of `Content` survives the wire.
pub proof fn lemma_rt_seq_content(s: Seq<ContentV>)
    ensures
        dec_seq_content(enc_seq_content(s)) == Some(s),
    decreases s.len(),
{
    let m = enc_seq_content(s);
    if s.len() == 0 {
        assert(Seq::<ContentV>::empty() =~= s);
    } else {
        assert(m[0] == enc_content(s[0]));
        assert(m.drop_first() =~= enc_seq_content(s.drop_first()));
        lemma_rt_content(s[0]);
        lemma_rt_seq_content(s.drop_first());
        assert(seq![s[0]] + s.drop_first() =~= s);
    }
}

/// A required array field of `Content` elements.
pub open spec fn get_vec_content(v: JsonV, k: Seq<char>) -> Option<Seq<ContentV>> {
    match get_a(v, k) {
        Some(a) => dec_seq_content(a),
        None => None,
    }
}

/// An optional array field of `Content` elements.
pub open spec fn get_opt_vec_content(v: JsonV, k: Seq<char>) -> Option<Option<Seq<ContentV>>> {
    match fget(v, k) {
        None => Some(None),
        Some(JsonV::Null) => Some(None),
        Some(JsonV::Arr(a)) => match dec_seq_content(a) {
            Some(list) => Some(Some(list)),
            None => None,
        },
        Some(_) => None,
    }
}

/// An optional run of `Content`, encoded if present.
pub open spec fn opt_arr_content(o: Option<Seq<ContentV>>) -> Option<JsonV> {
    match o {
        Some(s) => Some(JsonV::Arr(enc_seq_content(s))),
        None => None,
    }
}

/// Encodes each element of `items`, in order.
pub fn enc_vec_content(items: &Vec<Content>) -> (r: Vec<JsonValue>)
    ensures
        r.deep_view() == enc_seq_content(items.deep_view()),
{
    let mut out: Vec<JsonValue> = Vec::new();
    let mut i: usize = 0;
    while i < items.len()
        invariant
            i <= items@.len(),
            out@.len() == i,
            forall|j: int| 0 <= j < i ==> jv(#[trigger] out@[j]) == enc_content(items@[j].deep_view()),
        decreases items@.len() - i,
    {
        out.push(items[i].to_json());
        i = i + 1;
    }
    proof {
        lemma_enc_seq_content(items.deep_view());
        assert forall|j: int| 0 <= j < out@.len() implies out.deep_view()[j] == enc_seq_content(
            items.deep_view(),
        )[j] by {
            assert(out.deep_view()[j] == jv(out@[j]));
            assert(items.deep_view()[j] == items@[j].deep_view());
        }
        assert(out.deep_view() =~= enc_seq_content(items.deep_view()));
    }
    out
}

/// Decodes each element; any misshapen element fails the array.
pub fn dec_vec_content(items: &Vec<JsonValue>) -> (r: Option<Vec<Content>>)
    ensures
        r.deep_view() == dec_seq_content(items.deep_view()),
{
    let ghost s = items.deep_view();
    let mut out: Vec<Content> = Vec::new();
    let mut i: usize = 0;
    proof {
        assert(s.skip(0) =~= s);
    }
    while i < items.len()
        invariant
            i <= items@.len(),
            s == items.deep_view(),
            out.deep_view().len() == i,
            (dec_seq_content(s) is Some) == (dec_seq_content(s.skip(i as int)) is Some),
            dec_seq_content(s) matches Some(full) ==> dec_seq_content(s.skip(i as int)) matches Some(rest)
                && full == out.deep_view() + rest,
        decreases items@.len() - i,
    {
        proof {
            lemma_dec_seq_content_skip(s, i as int);
        }
        match Content::from_json(&items[i]) {
            Some(t) => {
                let ghost out0 = out;
                out.push(t);
                proof {
                    lemma_deep_view_push(out0, out, t);
                    if dec_seq_content(s) is Some {
                        let rest2 = dec_seq_content(s.skip(i + 1))->Some_0;
                        assert(out0.deep_view() + (seq![t.deep_view()] + rest2) =~= out.deep_view() + rest2);
                    }
                }
            },
            None => {
                return None;
            },
        }
        i = i + 1;
    }
    proof {
        assert(s.skip(i as int) =~= Seq::empty());
        if dec_seq_content(s) is Some {
            assert(out.deep_view() + Seq::<ContentV>::empty() =~= out.deep_view());
        }
    }
    Some(out)
}

/// Element-wise encoding of a run of `PromptArgument`.
pub open spec fn enc_seq_prompt_argument(s: Seq<PromptArgumentV>) -> Seq<JsonV>
    decreases s.len(),
{
    if s.len() == 0 {
        Seq::empty()
    } else {
        seq![enc_prompt_argument(s[0])] + enc_seq_prompt_argument(s.drop_first())
    }
}

/// What each position of an encoded run holds.
pub proof fn lemma_enc_seq_prompt_argument(s: Seq<PromptArgumentV>)
    ensures
        enc_seq_prompt_argument(s).len() == s.len(),
        forall|j: int| 0 <= j < s.len() ==> enc_seq_prompt_argument(s)[j] == enc_prompt_argument(#[trigger] s[j]),
    decreases s.len(),
{
    if s.len() > 0 {
        lemma_enc_seq_prompt_argument(s.drop_first());
        assert forall|j: int| 0 <= j < s.len() implies enc_seq_prompt_argument(s)[j] == enc_prompt_argument(#[trigger] s[j]) by {
            if j > 0 {
                assert(enc_seq_prompt_argument(s)[j] == enc_seq_prompt_argument(s.drop_first())[j - 1]);
                assert(s.drop_first()[j - 1] == s[j]);
            }
        }
    }
}

/// Element-wise decoding of a run of `PromptArgument`: every element must fit.
pub open spec fn dec_seq_prompt_argument(s: Seq<JsonV>) -> Option<Seq<PromptArgumentV>>
    decreases s.len(),
{
    if s.len() == 0 {
        Some(Seq::empty())
    } else {
        match dec_prompt_argument(s[0]) {
            Some(t) => match dec_seq_prompt_argument(s.drop_first()) {
                Some(rest) => Some(seq![t] + rest),
                None => None,
            },
            None => None,
        }
    }
}

/// Unfolds the decoding of a run at position `i`.
pub proof fn lemma_dec_seq_prompt_argument_skip(s: Seq<JsonV>, i: int)
    requires
        0 <= i < s.len(),
    ensures
        dec_seq_prompt_argument(s.skip(i)) == match dec_prompt_argument(s[i]) {
            Some(t) => match dec_seq_prompt_argument(s.skip(i + 1)) {
                Some(rest) => Some(seq![t] + rest),
                None => None::<Seq<PromptArgumentV>>,
            },
            None => None::<Seq<PromptArgumentV>>,
        },
{
    let sub = s.skip(i);
    assert(sub.len() > 0);
    assert(sub[0] == s[i]);
    assert(sub.drop_first() =~= s.skip(i + 1));
}

/// A run of `PromptArgument` survives the wire.
pub proof fn lemma_rt_seq_prompt_argument(s: Seq<PromptArgumentV>)
    ensures
        dec_seq_prompt_argument(enc_seq_prompt_argument(s)) == Some(s),
    decreases s.len(),
{
    let m = enc_seq_prompt_argument(s);
    if s.len() == 0 {
        assert(Seq::<PromptArgumentV>::empty() =~= s);
    } else {
        assert(m[0] == enc_prompt_argument(s[0]));
        assert(m.drop_first() =~= enc_seq_prompt_argument(s.drop_first()));
        lemma_rt_prompt_argument(s[0]);
        lemma_rt_seq_prompt_argument(s.drop_first());
        assert(seq![s[0]] + s.drop_first() =~= s);
    }
}

/// A required array field of `PromptArgument` elements.
pub open spec fn get_vec_prompt_argument(v: JsonV, k: Seq<char>) -> Option<Seq<PromptArgumentV>> {
    match get_a(v, k) {
        Some(a) => dec_seq_prompt_argument(a),
        None => None,
    }
}

/// An optional array field of `PromptArgument` elements.
pub open spec fn get_opt_vec_prompt_argument(v: JsonV, k: Seq<char>) -> Option<Option<Seq<PromptArgumentV>>> {
    match fget(v, k) {
        None => Some(None),
        Some(JsonV::Null) => Some(None),
        Some(JsonV::Arr(a)) => match dec_seq_prompt_argument(a) {
            Some(list) => Some(Some(list)),
            None => None,
        },
        Some(_) => None,
    }
}

/// An optional run of `PromptArgument`, encoded if present.
pub open spec fn opt_arr_prompt_argument(o: Option<Seq<PromptArgumentV>>) -> Option<JsonV> {
    match o {
        Some(s) => Some(JsonV::Arr(enc_seq_prompt_argument(s))),
        None => None,
    }
}

/// Encodes each element of `items`, in order.
pub fn enc_vec_prompt_argument(items: &Vec<PromptArgument>) -> (r: Vec<JsonValue>)
    ensures
        r.deep_view() == enc_seq_prompt_argument(items.deep_view()),
{
    let mut out: Vec<JsonValue> = Vec::new();
    let mut i: usize = 0;
    while i < items.len()
        invariant
            i <= items@.len(),
            out@.len() == i,
            forall|j: int| 0 <= j < i ==> jv(#[trigger] out@[j]) == enc_prompt_argument(items@[j].deep_view()),
        decreases items@.len() - i,
    {
        out.push(items[i].to_json());
        i = i + 1;
    }
    proof {
        lemma_enc_seq_prompt_argument(items.deep_view());
        assert forall|j: int| 0 <= j < out@.len() implies out.deep_view()[j] == enc_seq_prompt_argument(
            items.deep_view(),
        )[j] by {
            assert(out.deep_view()[j] == jv(out@[j]));
            assert(items.deep_view()[j] == items@[j].deep_view());
        }
        assert(out.deep_view() =~= enc_seq_prompt_argument(items.deep_view()));
    }
    out
}

/// Decodes each element; any misshapen element fails the array.
pub fn dec_vec_prompt_argument(items: &Vec<JsonValue>) -> (r: Option<Vec<PromptArgument>>)
    ensures
        r.deep_view() == dec_seq_prompt_argument(items.deep_view()),
{
    let ghost s = items.deep_view();
    let mut out: Vec<PromptArgument> = Vec::new();
    let mut i: usize = 0;
    proof {
        assert(s.skip(0) =~= s);
    }
    while i < items.len()
        invariant
            i <= items@.len(),
            s == items.deep_view(),
            out.deep_view().len() == i,
            (dec_seq_prompt_argument(s) is Some) == (dec_seq_prompt_argument(s.skip(i as int)) is Some),
            dec_seq_prompt_argument(s) matches Some(full) ==> dec_seq_prompt_argument(s.skip(i as int)) matches Some(rest)
                && full == out.deep_view() + rest,
        decreases items@.len() - i,
    {
        proof {
            lemma_dec_seq_prompt_argument_skip(s, i as int);
        }
        match PromptArgument::from_json(&items[i]) {
            Some(t) => {
                let ghost out0 = out;
                out.push(t);
                proof {
                    lemma_deep_view_push(out0, out, t);
                    if dec_seq_prompt_argument(s) is Some {
                        let rest2 = dec_seq_prompt_argument(s.skip(i + 1))->Some_0;
                        assert(out0.deep_view() + (seq![t.deep_view()] + rest2) =~= out.deep_view() + rest2);
                    }
                }
            },
            None => {
                return None;
            },
        }
        i = i + 1;
    }
    proof {
        assert(s.skip(i as int) =~= Seq::empty());
        if dec_seq_prompt_argument(s) is Some {
            assert(out.deep_view() + Seq::<PromptArgumentV>::empty() =~= out.deep_view());
        }
    }
    Some(out)
}

/// Element-wise encoding of a run of `Resource`.
pub open spec fn enc_seq_resource(s: Seq<ResourceV>) -> Seq<JsonV>
    decreases s.len(),
{
    if s.len() == 0 {
        Seq::empty()
    } else {
        seq![enc_resource(s[0])] + enc_seq_resource(s.drop_first())
    }
}

/// What each position of an encoded run holds.
pub proof fn lemma_enc_seq_resource(s: Seq<ResourceV>)
    ensures
        enc_seq_resource(s).len() == s.len(),
        forall|j: int| 0 <= j < s.len() ==> enc_seq_resource(s)[j] == enc_resource(#[trigger] s[j]),
    decreases s.len(),
{
    if s.len() > 0 {
        lemma_enc_seq_resource(s.drop_first());
        assert forall|j: int| 0 <= j < s.len() implies enc_seq_resource(s)[j] == enc_resource(#[trigger] s[j]) by {
            if j > 0 {
                assert(enc_seq_resource(s)[j] == enc_seq_resource(s.drop_first())[j - 1]);
                assert(s.drop_first()[j - 1] == s[j]);
            }
        }
    }
}

/// Element-wise decoding of a run of `Resource`: every element must fit.
pub open spec fn dec_seq_resource(s: Seq<JsonV>) -> Option<Seq<ResourceV>>
    decreases s.len(),
{
    if s.len() == 0 {
        Some(Seq::empty())
    } else {
        match dec_resource(s[0]) {
            Some(t) => match dec_seq_resource(s.drop_first()) {
                Some(rest) => Some(seq![t] + rest),
                None => None,
            },
            None => None,
        }
    }
}

/// Unfolds the decoding of a run at position `i`.
pub proof fn lemma_dec_seq_resource_skip(s: Seq<JsonV>, i: int)
    requires
        0 <= i < s.len(),
    ensures
        dec_seq_resource(s.skip(i)) == match dec_resource(s[i]) {
            Some(t) => match dec_seq_resource(s.skip(i + 1)) {
                Some(rest) => Some(seq![t] + rest),
                None => None::<Seq<ResourceV>>,
            },
            None => None::<Seq<ResourceV>>,
        },
{
    let sub = s.skip(i);
    assert(sub.len() > 0);
    assert(sub[0] == s[i]);
    assert(sub.drop_first() =~= s.skip(i + 1));
}

/// A run of `Resource` survives the wire.
pub proof fn lemma_rt_seq_resource(s: Seq<ResourceV>)
    ensures
        dec_seq_resource(enc_seq_resource(s)) == Some(s),
    decreases s.len(),
{
    let m = enc_seq_resource(s);
    if s.len() == 0 {
        assert(Seq::<ResourceV>::empty() =~= s);
    } else {
        assert(m[0] == enc_resource(s[0]));
        assert(m.drop_first() =~= enc_seq_resource(s.drop_first()));
        lemma_rt_resource(s[0]);
        lemma_rt_seq_resource(s.drop_first());
        assert(seq![s[0]] + s.drop_first() =~= s);
    }
}

/// A required array field of `Resource` elements.
pub open spec fn get_vec_resource(v: JsonV, k: Seq<char>) -> Option<Seq<ResourceV>> {
    match get_a(v, k) {
        Some(a) => dec_seq_resource(a),
        None => None,
    }
}

/// An optional array field of `Resource` elements.
pub open spec fn get_opt_vec_resource(v: JsonV, k: Seq<char>) -> Option<Option<Seq<ResourceV>>> {
    match fget(v, k) {
        None => Some(None),
        Some(JsonV::Null) => Some(None),
        Some(JsonV::Arr(a)) => match dec_seq_resource(a) {
            Some(list) => Some(Some(list)),
            None => None,
        },
        Some(_) => None,
    }
}

/// An optional run of `Resource`, encoded if present.
pub open spec fn opt_arr_resource(o: Option<Seq<ResourceV>>) -> Option<JsonV> {
    match o {
        Some(s) => Some(JsonV::Arr(enc_seq_resource(s))),
        None => None,
    }
}

/// Encodes each element of `items`, in order.
pub fn enc_vec_resource(items: &Vec<Resource>) -> (r: Vec<JsonValue>)
    ensures
        r.deep_view() == enc_seq_resource(items.deep_view()),
{
    let mut out: Vec<JsonValue> = Vec::new();
    let mut i: usize = 0;
    while i < items.len()
        invariant
            i <= items@.len(),
            out@.len() == i,
            forall|j: int| 0 <= j < i ==> jv(#[trigger] out@[j]) == enc_resource(items@[j].deep_view()),
        decreases items@.len() - i,
    {
        out.push(items[i].to_json());
        i = i + 1;
    }
    proof {
        lemma_enc_seq_resource(items.deep_view());
        assert forall|j: int| 0 <= j < out@.len() implies out.deep_view()[j] == enc_seq_resource(
            items.deep_view(),
        )[j] by {
            assert(out.deep_view()[j] == jv(out@[j]));
            assert(items.deep_view()[j] == items@[j].deep_view());
        }
        assert(out.deep_view() =~= enc_seq_resource(items.deep_view()));
    }
    out
}

/// Decodes each element; any misshapen element fails the array.
pub fn dec_vec_resource(items: &Vec<JsonValue>) -> (r: Option<Vec<Resource>>)
    ensures
        r.deep_view() == dec_seq_resource(items.deep_view()),
{
    let ghost s = items.deep_view();
    let mut out: Vec<Resource> = Vec::new();
    let mut i: usize = 0;
    proof {
        assert(s.skip(0) =~= s);
    }
    while i < items.len()
        invariant
            i <= items@.len(),
            s == items.deep_view(),
            out.deep_view().len() == i,
            (dec_seq_resource(s) is Some) == (dec_seq_resource(s.skip(i as int)) is Some),
            dec_seq_resource(s) matches Some(full) ==> dec_seq_resource(s.skip(i as int)) matches Some(rest)
                && full == out.deep_view() + rest,
        decreases items@.len() - i,
    {
        proof {
            lemma_dec_seq_resource_skip(s, i as int);
        }
        match Resource::from_json(&items[i]) {
            Some(t) => {
                let ghost out0 = out;
                out.push(t);
                proof {
                    lemma_deep_view_push(out0, out, t);
                    if dec_seq_resource(s) is Some {
                        let rest2 = dec_seq_resource(s.skip(i + 1))->Some_0;
                        assert(out0.deep_view() + (seq![t.deep_view()] + rest2) =~= out.deep_view() + rest2);
                    }
                }
            },
            None => {
                return None;
            },
        }
        i = i + 1;
    }
    proof {
        assert(s.skip(i as int) =~= Seq::empty());
        if dec_seq_resource(s) is Some {
            assert(out.deep_view() + Seq::<ResourceV>::empty() =~= out.deep_view());
        }
    }
    Some(out)
}

/// Element-wise encoding of a run of `Prompt`.
pub open spec fn enc_seq_prompt(s: Seq<PromptV>) -> Seq<JsonV>
    decreases s.len(),
{
    if s.len() == 0 {
        Seq::empty()
    } else {
        seq![enc_prompt(s[0])] + enc_seq_prompt(s.drop_first())
    }
}

/// What each position of an encoded run holds.
pub proof fn lemma_enc_seq_prompt(s: Seq<PromptV>)
    ensures
        enc_seq_prompt(s).len() == s.len(),
        forall|j: int| 0 <= j < s.len() ==> enc_seq_prompt(s)[j] == enc_prompt(#[trigger] s[j]),
    decreases s.len(),
{
    if s.len() > 0 {
        lemma_enc_seq_prompt(s.drop_first());
        assert forall|j: int| 0 <= j < s.len() implies enc_seq_prompt(s)[j] == enc_prompt(#[trigger] s[j]) by {
            if j > 0 {
                assert(enc_seq_prompt(s)[j] == enc_seq_prompt(s.drop_first())[j - 1]);
                assert(s.drop_first()[j - 1] == s[j]);
            }
        }
    }
}

/// Element-wise decoding of a run of `Prompt`: every element must fit.
pub open spec fn dec_seq_prompt(s: Seq<JsonV>) -> Option<Seq<PromptV>>
    decreases s.len(),
{
    if s.len() == 0 {
        Some(Seq::empty())
    } else {
        match dec_prompt(s[0]) {
            Some(t) => match dec_seq_prompt(s.drop_first()) {
                Some(rest) => Some(seq![t] + rest),
                None => None,
            },
            None => None,
        }
    }
}

/// Unfolds the decoding of a run at position `i`.
pub proof fn lemma_dec_seq_prompt_skip(s: Seq<JsonV>, i: int)
    requires
        0 <= i < s.len(),
    ensures
        dec_seq_prompt(s.skip(i)) == match dec_prompt(s[i]) {
            Some(t) => match dec_seq_prompt(s.skip(i + 1)) {
                Some(rest) => Some(seq![t] + rest),
                None => None::<Seq<PromptV>>,
            },
            None => None::<Seq<PromptV>>,
        },
{
    let sub = s.skip(i);
    assert(sub.len() > 0);
    assert(sub[0] == s[i]);
    assert(sub.drop_first() =~= s.skip(i + 1));
}

/// A run of `Prompt` survives the wire.
pub proof fn lemma_rt_seq_prompt(s: Seq<PromptV>)
    ensures
        dec_seq_prompt(enc_seq_prompt(s)) == Some(s),
    decreases s.len(),
{
    let m = enc_seq_prompt(s);
    if s.len() == 0 {
        assert(Seq::<PromptV>::empty() =~= s);
    } else {
        assert(m[0] == enc_prompt(s[0]));
        assert(m.drop_first() =~= enc_seq_prompt(s.drop_first()));
        lemma_rt_prompt(s[0]);
        lemma_rt_seq_prompt(s.drop_first());
        assert(seq![s[0]] + s.drop_first() =~= s);
    }
}

/// A required array field of `Prompt` elements.
pub open spec fn get_vec_prompt(v: JsonV, k: Seq<char>) -> Option<Seq<PromptV>> {
    match get_a(v, k) {
        Some(a) => dec_seq_prompt(a),
        None => None,
    }
}

/// An optional array field of `Prompt` elements.
pub open spec fn get_opt_vec_prompt(v: JsonV, k: Seq<char>) -> Option<Option<Seq<PromptV>>> {
    match fget(v, k) {
        None => Some(None),
        Some(JsonV::Null) => Some(None),
        Some(JsonV::Arr(a)) => match dec_seq_prompt(a) {
            Some(list) => Some(Some(list)),
            None => None,
        },
        Some(_) => None,
    }
}

/// An optional run of `Prompt`, encoded if present.
pub open spec fn opt_arr_prompt(o: Option<Seq<PromptV>>) -> Option<JsonV> {
    match o {
        Some(s) => Some(JsonV::Arr(enc_seq_prompt(s))),
        None => None,
    }
}

/// Encodes each element of `items`, in order.
pub fn enc_vec_prompt(items: &Vec<Prompt>) -> (r: Vec<JsonValue>)
    ensures
        r.deep_view() == enc_seq_prompt(items.deep_view()),
{
    let mut out: Vec<JsonValue> = Vec::new();
    let mut i: usize = 0;
    while i < items.len()
        invariant
            i <= items@.len(),
            out@.len() == i,
            forall|j: int| 0 <= j < i ==> jv(#[trigger] out@[j]) == enc_prompt(items@[j].deep_view()),
        decreases items@.len() - i,
    {
        out.push(items[i].to_json());
        i = i + 1;
    }
    proof {
        lemma_enc_seq_prompt(items.deep_view());
        assert forall|j: int| 0 <= j < out@.len() implies out.deep_view()[j] == enc_seq_prompt(
            items.deep_view(),
        )[j] by {
            assert(out.deep_view()[j] == jv(out@[j]));
            assert(items.deep_view()[j] == items@[j].deep_view());
        }
        assert(out.deep_view() =~= enc_seq_prompt(items.deep_view()));
    }
    out
}

/// Decodes each element; any misshapen element fails the array.
pub fn dec_vec_prompt(items: &Vec<JsonValue>) -> (r: Option<Vec<Prompt>>)
    ensures
        r.deep_view() == dec_seq_prompt(items.deep_view()),
{
    let ghost s = items.deep_view();
    let mut out: Vec<Prompt> = Vec::new();
    let mut i: usize = 0;
    proof {
        assert(s.skip(0) =~= s);
    }
    while i < items.len()
        invariant
            i <= items@.len(),
            s == items.deep_view(),
            out.deep_view().len() == i,
            (dec_seq_prompt(s) is Some) == (dec_seq_prompt(s.skip(i as int)) is Some),
            dec_seq_prompt(s) matches Some(full) ==> dec_seq_prompt(s.skip(i as int)) matches Some(rest)
                && full == out.deep_view() + rest,
        decreases items@.len() - i,
    {
        proof {
            lemma_dec_seq_prompt_skip(s, i as int);
        }
        match Prompt::from_json(&items[i]) {
            Some(t) => {
                let ghost out0 = out;
                out.push(t);
                proof {
                    lemma_deep_view_push(out0, out, t);
                    if dec_seq_prompt(s) is Some {
                        let rest2 = dec_seq_prompt(s.skip(i + 1))->Some_0;
                        assert(out0.deep_view() + (seq![t.deep_view()] + rest2) =~= out.deep_view() + rest2);
                    }
                }
            },
            None => {
                return None;
            },
        }
        i = i + 1;
    }
    proof {
        assert(s.skip(i as int) =~= Seq::empty());
        if dec_seq_prompt(s) is Some {
            assert(out.deep_view() + Seq::<PromptV>::empty() =~= out.deep_view());
        }
    }
    Some(out)
}

/// Element-wise encoding of a run of `Tool`.
pub open spec fn enc_seq_tool(s: Seq<ToolV>) -> Seq<JsonV>
    decreases s.len(),
{
    if s.len() == 0 {
        Seq::empty()
    } else {
        seq![enc_tool(s[0])] + enc_seq_tool(s.drop_first())
    }
}

/// What each position of an encoded run holds.
pub proof fn lemma_enc_seq_tool(s: Seq<ToolV>)
    ensures
        enc_seq_tool(s).len() == s.len(),
        forall|j: int| 0 <= j < s.len() ==> enc_seq_tool(s)[j] == enc_tool(#[trigger] s[j]),
    decreases s.len(),
{
    if s.len() > 0 {
        lemma_enc_seq_tool(s.drop_first());
        assert forall|j: int| 0 <= j < s.len() implies enc_seq_tool(s)[j] == enc_tool(#[trigger] s[j]) by {
            if j > 0 {
                assert(enc_seq_tool(s)[j] == enc_seq_tool(s.drop_first())[j - 1]);
                assert(s.drop_first()[j - 1] == s[j]);
            }
        }
    }
}

/// Element-wise decoding of a run of `Tool`: every element must fit.
pub open spec fn dec_seq_tool(s: Seq<JsonV>) -> Option<Seq<ToolV>>
    decreases s.len(),
{
    if s.len() == 0 {
        Some(Seq::empty())
    } else {
        match dec_tool(s[0]) {
            Some(t) => match dec_seq_tool(s.drop_first()) {
                Some(rest) => Some(seq![t] + rest),
                None => None,
            },
            None => None,
        }
    }
}

/// Unfolds the decoding of a run at position `i`.
pub proof fn lemma_dec_seq_tool_skip(s: Seq<JsonV>, i: int)
    requires
        0 <= i < s.len(),
    ensures
        dec_seq_tool(s.skip(i)) == match dec_tool(s[i]) {
            Some(t) => match dec_seq_tool(s.skip(i + 1)) {
                Some(rest) => Some(seq![t] + rest),
                None => None::<Seq<ToolV>>,
            },
            None => None::<Seq<ToolV>>,
        },
{
    let sub = s.skip(i);
    assert(sub.len() > 0);
    assert(sub[0] == s[i]);
    assert(sub.drop_first() =~= s.skip(i + 1));
}

/// A run of `Tool` survives the wire.
pub proof fn lemma_rt_seq_tool(s: Seq<ToolV>)
    ensures
        dec_seq_tool(enc_seq_tool(s)) == Some(s),
    decreases s.len(),
{
    let m = enc_seq_tool(s);
    if s.len() == 0 {
        assert(Seq::<ToolV>::empty() =~= s);
    } else {
        assert(m[0] == enc_tool(s[0]));
        assert(m.drop_first() =~= enc_seq_tool(s.drop_first()));
        lemma_rt_tool(s[0]);
        lemma_rt_seq_tool(s.drop_first());
        assert(seq![s[0]] + s.drop_first() =~= s);
    }
}

/// A required array field of `Tool` elements.
pub open spec fn get_vec_tool(v: JsonV, k: Seq<char>) -> Option<Seq<ToolV>> {
    match get_a(v, k) {
        Some(a) => dec_seq_tool(a),
        None => None,
    }
}

/// An optional array field of `Tool` elements.
pub open spec fn get_opt_vec_tool(v: JsonV, k: Seq<char>) -> Option<Option<Seq<ToolV>>> {
    match fget(v, k) {
        None => Some(None),
        Some(JsonV::Null) => Some(None),
        Some(JsonV::Arr(a)) => match dec_seq_tool(a) {
            Some(list) => Some(Some(list)),
            None => None,
        },
        Some(_) => None,
    }
}

/// An optional run of `Tool`, encoded if present.
pub open spec fn opt_arr_tool(o: Option<Seq<ToolV>>) -> Option<JsonV> {
    match o {
        Some(s) => Some(JsonV::Arr(enc_seq_tool(s))),
        None => None,
    }
}

/// Encodes each element of `items`, in order.
pub fn enc_vec_tool(items: &Vec<Tool>) -> (r: Vec<JsonValue>)
    ensures
        r.deep_view() == enc_seq_tool(items.deep_view()),
{
    let mut out: Vec<JsonValue> = Vec::new();
    let mut i: usize = 0;
    while i < items.len()
        invariant
            i <= items@.len(),
            out@.len() == i,
            forall|j: int| 0 <= j < i ==> jv(#[trigger] out@[j]) == enc_tool(items@[j].deep_view()),
        decreases items@.len() - i,
    {
        out.push(items[i].to_json());
        i = i + 1;
    }
    proof {
        lemma_enc_seq_tool(items.deep_view());
        assert forall|j: int| 0 <= j < out@.len() implies out.deep_view()[j] == enc_seq_tool(
            items.deep_view(),
        )[j] by {
            assert(out.deep_view()[j] == jv(out@[j]));
            assert(items.deep_view()[j] == items@[j].deep_view());
        }
        assert(out.deep_view() =~= enc_seq_tool(items.deep_view()));
    }
    out
}

/// Decodes each element; any misshapen element fails the array.
pub fn dec_vec_tool(items: &Vec<JsonValue>) -> (r: Option<Vec<Tool>>)
    ensures
        r.deep_view() == dec_seq_tool(items.deep_view()),
{
    let ghost s = items.deep_view();
    let mut out: Vec<Tool> = Vec::new();
    let mut i: usize = 0;
    proof {
        assert(s.skip(0) =~= s);
    }
    while i < items.len()
        invariant
            i <= items@.len(),
            s == items.deep_view(),
            out.deep_view().len() == i,
            (dec_seq_tool(s) is Some) == (dec_seq_tool(s.skip(i as int)) is Some),
            dec_seq_tool(s) matches Some(full) ==> dec_seq_tool(s.skip(i as int)) matches Some(rest)
                && full == out.deep_view() + rest,
        decreases items@.len() - i,
    {
        proof {
            lemma_dec_seq_tool_skip(s, i as int);
        }
        match Tool::from_json(&items[i]) {
            Some(t) => {
                let ghost out0 = out;
                out.push(t);
                proof {
                    lemma_deep_view_push(out0, out, t);
                    if dec_seq_tool(s) is Some {
                        let rest2 = dec_seq_tool(s.skip(i + 1))->Some_0;
                        assert(out0.deep_view() + (seq![t.deep_view()] + rest2) =~= out.deep_view() + rest2);
                    }
                }
            },
            None => {
                return None;
            },
        }
        i = i + 1;
    }
    proof {
        assert(s.skip(i as int) =~= Seq::empty());
        if dec_seq_tool(s) is Some {
            assert(out.deep_view() + Seq::<ToolV>::empty() =~= out.deep_view());
        }
    }
    Some(out)
}

/// Element-wise encoding of a run of `PromptMessage`.
pub open spec fn enc_seq_prompt_message(s: Seq<PromptMessageV>) -> Seq<JsonV>
    decreases s.len(),
{
    if s.len() == 0 {
        Seq::empty()
    } else {
        seq![enc_prompt_message(s[0])] + enc_seq_prompt_message(s.drop_first())
    }
}

/// What each position of an encoded run holds.
pub proof fn lemma_enc_seq_prompt_message(s: Seq<PromptMessageV>)
    ensures
        enc_seq_prompt_message(s).len() == s.len(),
        forall|j: int| 0 <= j < s.len() ==> enc_seq_prompt_message(s)[j] == enc_prompt_message(#[trigger] s[j]),
    decreases s.len(),
{
    if s.len() > 0 {
        lemma_enc_seq_prompt_message(s.drop_first());
        assert forall|j: int| 0 <= j < s.len() implies enc_seq_prompt_message(s)[j] == enc_prompt_message(#[trigger] s[j]) by {
            if j > 0 {
                assert(enc_seq_prompt_message(s)[j] == enc_seq_prompt_message(s.drop_first())[j - 1]);
                assert(s.drop_first()[j - 1] == s[j]);
            }
        }
    }
}

/// Element-wise decoding of a run of `PromptMessage`: every element must fit.
pub open spec fn dec_seq_prompt_message(s: Seq<JsonV>) -> Option<Seq<PromptMessageV>>
    decreases s.len(),
{
    if s.len() == 0 {
        Some(Seq::empty())
    } else {
        match dec_prompt_message(s[0]) {
            Some(t) => match dec_seq_prompt_message(s.drop_first()) {
                Some(rest) => Some(seq![t] + rest),
                None => None,
            },
            None => None,
        }
    }
}

/// Unfolds the decoding of a run at position `i`.
pub proof fn lemma_dec_seq_prompt_message_skip(s: Seq<JsonV>, i: int)
    requires
        0 <= i < s.len(),
    ensures
        dec_seq_prompt_message(s.skip(i)) == match dec_prompt_message(s[i]) {
            Some(t) => match dec_seq_prompt_message(s.skip(i + 1)) {
                Some(rest) => Some(seq![t] + rest),
                None => None::<Seq<PromptMessageV>>,
            },
            None => None::<Seq<PromptMessageV>>,
        },
{
    let sub = s.skip(i);
    assert(sub.len() > 0);
    assert(sub[0] == s[i]);
    assert(sub.drop_first() =~= s.skip(i + 1));
}

/// A run of `PromptMessage` survives the wire.
pub proof fn lemma_rt_seq_prompt_message(s: Seq<PromptMessageV>)
    ensures
        dec_seq_prompt_message(enc_seq_prompt_message(s)) == Some(s),
    decreases s.len(),
{
    let m = enc_seq_prompt_message(s);
    if s.len() == 0 {
        assert(Seq::<PromptMessageV>::empty() =~= s);
    } else {
        assert(m[0] == enc_prompt_message(s[0]));
        assert(m.drop_first() =~= enc_seq_prompt_message(s.drop_first()));
        lemma_rt_prompt_message(s[0]);
        lemma_rt_seq_prompt_message(s.drop_first());
        assert(seq![s[0]] + s.drop_first() =~= s);
    }
}

/// A required array field of `PromptMessage` elements.
pub open spec fn get_vec_prompt_message(v: JsonV, k: Seq<char>) -> Option<Seq<PromptMessageV>> {
    match get_a(v, k) {
        Some(a) => dec_seq_prompt_message(a),
        None => None,
    }
}

/// An optional array field of `PromptMessage` elements.
pub open spec fn get_opt_vec_prompt_message(v: JsonV, k: Seq<char>) -> Option<Option<Seq<PromptMessageV>>> {
    match fget(v, k) {
        None => Some(None),
        Some(JsonV::Null) => Some(None),
        Some(JsonV::Arr(a)) => match dec_seq_prompt_message(a) {
            Some(list) => Some(Some(list)),
            None => None,
        },
        Some(_) => None,
    }
}

/// An optional run of `PromptMessage`, encoded if present.
pub open spec fn opt_arr_prompt_message(o: Option<Seq<PromptMessageV>>) -> Option<JsonV> {
    match o {
        Some(s) => Some(JsonV::Arr(enc_seq_prompt_message(s))),
        None => None,
    }
}

/// Encodes each element of `items`, in order.
pub fn enc_vec_prompt_message(items: &Vec<PromptMessage>) -> (r: Vec<JsonValue>)
    ensures
        r.deep_view() == enc_seq_prompt_message(items.deep_view()),
{
    let mut out: Vec<JsonValue> = Vec::new();
    let mut i: usize = 0;
    while i < items.len()
        invariant
            i <= items@.len(),
            out@.len() == i,
            forall|j: int| 0 <= j < i ==> jv(#[trigger] out@[j]) == enc_prompt_message(items@[j].deep_view()),
        decreases items@.len() - i,
    {
        out.push(items[i].to_json());
        i = i + 1;
    }
    proof {
        lemma_enc_seq_prompt_message(items.deep_view());
        assert forall|j: int| 0 <= j < out@.len() implies out.deep_view()[j] == enc_seq_prompt_message(
            items.deep_view(),
        )[j] by {
            assert(out.deep_view()[j] == jv(out@[j]));
            assert(items.deep_view()[j] == items@[j].deep_view());
        }
        assert(out.deep_view() =~= enc_seq_prompt_message(items.deep_view()));
    }
    out
}

/// Decodes each element; any misshapen element fails the array.
pub fn dec_vec_prompt_message(items: &Vec<JsonValue>) -> (r: Option<Vec<PromptMessage>>)
    ensures
        r.deep_view() == dec_seq_prompt_message(items.deep_view()),
{
    let ghost s = items.deep_view();
    let mut out: Vec<PromptMessage> = Vec::new();
    let mut i: usize = 0;
    proof {
        assert(s.skip(0) =~= s);
    }
    while i < items.len()
        invariant
            i <= items@.len(),
            s == items.deep_view(),
            out.deep_view().len() == i,
            (dec_seq_prompt_message(s) is Some) == (dec_seq_prompt_message(s.skip(i as int)) is Some),
            dec_seq_prompt_message(s) matches Some(full) ==> dec_seq_prompt_message(s.skip(i as int)) matches Some(rest)
                && full == out.deep_view() + rest,
        decreases items@.len() - i,
    {
        proof {
            lemma_dec_seq_prompt_message_skip(s, i as int);
        }
        match PromptMessage::from_json(&items[i]) {
            Some(t) => {
                let ghost out0 = out;
                out.push(t);
                proof {
                    lemma_deep_view_push(out0, out, t);
                    if dec_seq_prompt_message(s) is Some {
                        let rest2 = dec_seq_prompt_message(s.skip(i + 1))->Some_0;
                        assert(out0.deep_view() + (seq![t.deep_view()] + rest2) =~= out.deep_view() + rest2);
                    }
                }
            },
            None => {
                return None;
            },
        }
        i = i + 1;
    }
    proof {
        assert(s.skip(i as int) =~= Seq::empty());
        if dec_seq_prompt_message(s) is Some {
            assert(out.deep_view() + Seq::<PromptMessageV>::empty() =~= out.deep_view());
        }
    }
    Some(out)
}

/// Element-wise encoding of a run of `ResourceContents`.
pub open spec fn enc_seq_resource_contents(s: Seq<ResourceContentsV>) -> Seq<JsonV>
    decreases s.len(),
{
    if s.len() == 0 {
        Seq::empty()
    } else {
        seq![enc_resource_contents(s[0])] + enc_seq_resource_contents(s.drop_first())
    }
}

/// What each position of an encoded run holds.
pub proof fn lemma_enc_seq_resource_contents(s: Seq<ResourceContentsV>)
    ensures
        enc_seq_resource_contents(s).len() == s.len(),
        forall|j: int| 0 <= j < s.len() ==> enc_seq_resource_contents(s)[j] == enc_resource_contents(#[trigger] s[j]),
    decreases s.len(),
{
    if s.len() > 0 {
        lemma_enc_seq_resource_contents(s.drop_first());
        assert forall|j: int| 0 <= j < s.len() implies enc_seq_resource_contents(s)[j] == enc_resource_contents(#[trigger] s[j]) by {
            if j > 0 {
                assert(enc_seq_resource_contents(s)[j] == enc_seq_resource_contents(s.drop_first())[j - 1]);
                assert(s.drop_first()[j - 1] == s[j]);
            }
        }
    }
}

/// Element-wise decoding of a run of `ResourceContents`: every element must fit.
pub open spec fn dec_seq_resource_contents(s: Seq<JsonV>) -> Option<Seq<ResourceContentsV>>
    decreases s.len(),
{
    if s.len() == 0 {
        Some(Seq::empty())
    } else {
        match dec_resource_contents(s[0]) {
            Some(t) => match dec_seq_resource_contents(s.drop_first()) {
                Some(rest) => Some(seq![t] + rest),
                None => None,
            },
            None => None,
        }
    }
}

/// Unfolds the decoding of a run at position `i`.
pub proof fn lemma_dec_seq_resource_contents_skip(s: Seq<JsonV>, i: int)
    requires
        0 <= i < s.len(),
    ensures
        dec_seq_resource_contents(s.skip(i)) == match dec_resource_contents(s[i]) {
            Some(t) => match dec_seq_resource_contents(s.skip(i + 1)) {
                Some(rest) => Some(seq![t] + rest),
                None => None::<Seq<ResourceContentsV>>,
            },
            None => None::<Seq<ResourceContentsV>>,
        },
{
    let sub = s.skip(i);
    assert(sub.len() > 0);
    assert(sub[0] == s[i]);
    assert(sub.drop_first() =~= s.skip(i + 1));
}

/// A run of `ResourceContents` survives the wire.
pub proof fn lemma_rt_seq_resource_contents(s: Seq<ResourceContentsV>)
    ensures
        dec_seq_resource_contents(enc_seq_resource_contents(s)) == Some(s),
    decreases s.len(),
{
    let m = enc_seq_resource_contents(s);
    if s.len() == 0 {
        assert(Seq::<ResourceContentsV>::empty() =~= s);
    } else {
        assert(m[0] == enc_resource_contents(s[0]));
        assert(m.drop_first() =~= enc_seq_resource_contents(s.drop_first()));
        lemma_rt_resource_contents(s[0]);
        lemma_rt_seq_resource_contents(s.drop_first());
        assert(seq![s[0]] + s.drop_first() =~= s);
    }
}

/// A required array field of `ResourceContents` elements.
pub open spec fn get_vec_resource_contents(v: JsonV, k: Seq<char>) -> Option<Seq<ResourceContentsV>> {
    match get_a(v, k) {
        Some(a) => dec_seq_resource_contents(a),
        None => None,
    }
}

/// An optional array field of `ResourceContents` elements.
pub open spec fn get_opt_vec_resource_contents(v: JsonV, k: Seq<char>) -> Option<Option<Seq<ResourceContentsV>>> {
    match fget(v, k) {
        None => Some(None),
        Some(JsonV::Null) => Some(None),
        Some(JsonV::Arr(a)) => match dec_seq_resource_contents(a) {
            Some(list) => Some(Some(list)),
            None => None,
        },
        Some(_) => None,
    }
}

/// An optional run of `ResourceContents`, encoded if present.
pub open spec fn opt_arr_resource_contents(o: Option<Seq<ResourceContentsV>>) -> Option<JsonV> {
    match o {
        Some(s) => Some(JsonV::Arr(enc_seq_resource_contents(s))),
        None => None,
    }
}

/// Encodes each element of `items`, in order.
pub fn enc_vec_resource_contents(items: &Vec<ResourceContents>) -> (r: Vec<JsonValue>)
    ensures
        r.deep_view() == enc_seq_resource_contents(items.deep_view()),
{
    let mut out: Vec<JsonValue> = Vec::new();
    let mut i: usize = 0;
    while i < items.len()
        invariant
            i <= items@.len(),
            out@.len() == i,
            forall|j: int| 0 <= j < i ==> jv(#[trigger] out@[j]) == enc_resource_contents(items@[j].deep_view()),
        decreases items@.len() - i,
    {
        out.push(items[i].to_json());
        i = i + 1;
    }
    proof {
        lemma_enc_seq_resource_contents(items.deep_view());
        assert forall|j: int| 0 <= j < out@.len() implies out.deep_view()[j] == enc_seq_resource_contents(
            items.deep_view(),
        )[j] by {
            assert(out.deep_view()[j] == jv(out@[j]));
            assert(items.deep_view()[j] == items@[j].deep_view());
        }
        assert(out.deep_view() =~= enc_seq_resource_contents(items.deep_view()));
    }
    out
}

/// Decodes each element; any misshapen element fails the array.
pub fn dec_vec_resource_contents(items: &Vec<JsonValue>) -> (r: Option<Vec<ResourceContents>>)
    ensures
        r.deep_view() == dec_seq_resource_contents(items.deep_view()),
{
    let ghost s = items.deep_view();
    let mut out: Vec<ResourceContents> = Vec::new();
    let mut i: usize = 0;
    proof {
        assert(s.skip(0) =~= s);
    }
    while i < items.len()
        invariant
            i <= items@.len(),
            s == items.deep_view(),
            out.deep_view().len() == i,
            (dec_seq_resource_contents(s) is Some) == (dec_seq_resource_contents(s.skip(i as int)) is Some),
            dec_seq_resource_contents(s) matches Some(full) ==> dec_seq_resource_contents(s.skip(i as int)) matches Some(rest)
                && full == out.deep_view() + rest,
        decreases items@.len() - i,
    {
        proof {
            lemma_dec_seq_resource_contents_skip(s, i as int);
        }
        match ResourceContents::from_json(&items[i]) {
            Some(t) => {
                let ghost out0 = out;
                out.push(t);
                proof {
                    lemma_deep_view_push(out0, out, t);
                    if dec_seq_resource_contents(s) is Some {
                        let rest2 = dec_seq_resource_contents(s.skip(i + 1))->Some_0;
                        assert(out0.deep_view() + (seq![t.deep_view()] + rest2) =~= out.deep_view() + rest2);
                    }
                }
            },
            None => {
                return None;
            },
        }
        i = i + 1;
    }
    proof {
        assert(s.skip(i as int) =~= Seq::empty());
        if dec_seq_resource_contents(s) is Some {
            assert(out.deep_view() + Seq::<ResourceContentsV>::empty() =~= out.deep_view());
        }
    }
    Some(out)
}

} // verus!
