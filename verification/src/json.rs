//! The structured JSON values that the wire model encodes into and decodes
//! from. One unit on the wire is one such value; turning a value into raw
//! text and back is the transport adapter's concern, not the core's.

use vstd::prelude::*;

verus! {

/// Mathematical mirror of [`JsonValue`]: what contracts and proofs speak of.
pub ghost enum JsonV {
    Null,
    Bool(bool),
    Int(int),
    Str(Seq<char>),
    Arr(Seq<JsonV>),
    Obj(Seq<(Seq<char>, JsonV)>),
}

/// A structured JSON value. Numbers are integers: the protocol's own fields
/// are integral, and a unit holding anything else never matches a message
/// shape.
#[derive(Debug, PartialEq)]
pub enum JsonValue {
    Null,
    Bool(bool),
    Int(i64),
    Str(String),
    Arr(Vec<JsonValue>),
    Obj(Vec<(String, JsonValue)>),
}

/// The mirror of a [`JsonValue`].
pub open spec fn jv(v: JsonValue) -> JsonV
    decreases v,
{
    match v {
        JsonValue::Null => JsonV::Null,
        JsonValue::Bool(b) => JsonV::Bool(b),
        JsonValue::Int(i) => JsonV::Int(i as int),
        JsonValue::Str(s) => JsonV::Str(s@),
        JsonValue::Arr(a) => JsonV::Arr(
            Seq::new(
                a@.len(),
                |i: int|
                    if 0 <= i < a@.len() {
                        jv(a[i])
                    } else {
                        JsonV::Null
                    },
            ),
        ),
        JsonValue::Obj(o) => JsonV::Obj(
            Seq::new(
                o@.len(),
                |i: int|
                    if 0 <= i < o@.len() {
                        (o[i].0@, jv(o[i].1))
                    } else {
                        (Seq::<char>::empty(), JsonV::Null)
                    },
            ),
        ),
    }
}

impl DeepView for JsonValue {
    type V = JsonV;

    open spec fn deep_view(&self) -> JsonV {
        jv(*self)
    }
}

/// First value bound to key `k`, if any: JSON object lookup.
pub open spec fn lookup(o: Seq<(Seq<char>, JsonV)>, k: Seq<char>) -> Option<JsonV>
    decreases o.len(),
{
    if o.len() == 0 {
        None
    } else if o[0].0 == k {
        Some(o[0].1)
    } else {
        lookup(o.drop_first(), k)
    }
}

/// Whether key `k` is bound in object `o`.
pub open spec fn has_key(o: Seq<(Seq<char>, JsonV)>, k: Seq<char>) -> bool {
    lookup(o, k) is Some
}

/// Equality of a `String` against a literal, observable in contracts.
pub fn string_eq(a: &String, b: &str) -> (r: bool)
    ensures
        r == (a@ == b@),
{
    *a == b.to_owned()
}

impl JsonValue {
    /// The first value bound to `k` in this object, or `None` when this is
    /// not an object or `k` is unbound.
    pub fn get<'a>(&'a self, k: &str) -> (r: Option<&'a JsonValue>)
        ensures
            match r {
                Some(v) => self.deep_view() matches JsonV::Obj(o) && lookup(o, k@)
                    == Some(v.deep_view()),
                None => !(self.deep_view() matches JsonV::Obj(o) && has_key(o, k@)),
            },
    {
        match self {
            JsonValue::Obj(entries) => {
                let ghost o = self.deep_view()->Obj_0;
                proof {
                    assert(o.skip(0) =~= o);
                }
                let mut i: usize = 0;
                while i < entries.len()
                    invariant
                        i <= entries.len(),
                        self.deep_view() matches JsonV::Obj(oo) && oo == o,
                        o.len() == entries@.len(),
                        forall|j: int| 0 <= j < o.len() ==> o[j]
                            == (#[trigger] entries@[j].0@, jv(entries@[j].1)),
                        lookup(o, k@) == lookup(o.skip(i as int), k@),
                    decreases entries.len() - i,
                {
                    if string_eq(&entries[i].0, k) {
                        proof {
                            reveal_lookup_skip(o, k@, i as int);
                        }
                        return Some(&entries[i].1);
                    }
                    proof {
                        reveal_lookup_skip(o, k@, i as int);
                    }
                    i = i + 1;
                }
                proof {
                    assert(o.skip(i as int).len() == 0);
                }
                None
            },
            _ => None,
        }
    }
}

impl JsonValue {
    /// A structurally equal copy of this value.
    #[verifier::loop_isolation(false)]
    pub fn duplicate(&self) -> (r: JsonValue)
        ensures
            jv(r) == jv(*self),
        decreases *self,
    {
        match self {
            JsonValue::Null => JsonValue::Null,
            JsonValue::Bool(b) => JsonValue::Bool(*b),
            JsonValue::Int(i) => JsonValue::Int(*i),
            JsonValue::Str(s) => JsonValue::Str(s.clone()),
            JsonValue::Arr(a) => {
                let mut out: Vec<JsonValue> = Vec::new();
                let mut i: usize = 0;
                while i < a.len()
                    invariant
                        i <= a@.len(),
                        out@.len() == i,
                        forall|j: int| 0 <= j < i ==> jv(#[trigger] out@[j]) == jv(a@[j]),
                    decreases a@.len() - i,
                {
                    proof {
                        assert(decreases_to!(*self => self->Arr_0));
                        assert(*a == self->Arr_0);
                        assert(decreases_to!(*a => (*a)[i as int]));
                        assert(decreases_to!(*self => (*a)[i as int]));
                    }
                    out.push(a[i].duplicate());
                    i = i + 1;
                }
                proof {
                    assert(jv(JsonValue::Arr(out))->Arr_0 =~= jv(*self)->Arr_0);
                }
                JsonValue::Arr(out)
            },
            JsonValue::Obj(o) => {
                let mut out: Vec<(String, JsonValue)> = Vec::new();
                let mut i: usize = 0;
                while i < o.len()
                    invariant
                        i <= o@.len(),
                        out@.len() == i,
                        forall|j: int| 0 <= j < i ==> (#[trigger] out@[j]).0@ == o@[j].0@
                            && jv(out@[j].1) == jv(o@[j].1),
                    decreases o@.len() - i,
                {
                    let entry = &o[i];
                    proof {
                        assert(decreases_to!(*self => self->Obj_0));
                        assert(*o == self->Obj_0);
                        assert(decreases_to!(*o => (*o)[i as int]));
                        assert(decreases_to!((*o)[i as int] => (*o)[i as int].1));
                        assert(decreases_to!(*self => (*o)[i as int].1));
                    }
                    out.push((entry.0.clone(), entry.1.duplicate()));
                    i = i + 1;
                }
                proof {
                    assert(jv(JsonValue::Obj(out))->Obj_0 =~= jv(*self)->Obj_0);
                }
                JsonValue::Obj(out)
            },
        }
    }
}

/// The mirror of an object's entries is the object's mirror: `jv` agrees
/// with the entry vector's own deep view.
pub proof fn lemma_jv_obj(o: Vec<(String, JsonValue)>)
    ensures
        jv(JsonValue::Obj(o)) == JsonV::Obj(o.deep_view()),
{
    assert(jv(JsonValue::Obj(o))->Obj_0 =~= o.deep_view());
}

/// The mirror of an array's elements is the array's mirror: `jv` agrees
/// with the element vector's own deep view.
pub proof fn lemma_jv_arr(a: Vec<JsonValue>)
    ensures
        jv(JsonValue::Arr(a)) == JsonV::Arr(a.deep_view()),
{
    assert(jv(JsonValue::Arr(a))->Arr_0 =~= a.deep_view());
}

/// Pushing onto a vector pushes its deep view.
pub proof fn lemma_deep_view_push<T: DeepView>(before: Vec<T>, after: Vec<T>, x: T)
    requires
        after@ == before@.push(x),
    ensures
        after.deep_view() == before.deep_view().push(x.deep_view()),
{
    assert(after.deep_view() =~= before.deep_view().push(x.deep_view()));
}

/// The field `k` of `v`, when `v` is an object that binds `k`.
pub open spec fn fget(v: JsonV, k: Seq<char>) -> Option<JsonV> {
    match v {
        JsonV::Obj(o) => lookup(o, k),
        _ => None,
    }
}

/// A required string field.
pub open spec fn get_s(v: JsonV, k: Seq<char>) -> Option<Seq<char>> {
    match fget(v, k) {
        Some(JsonV::Str(s)) => Some(s),
        _ => None,
    }
}

/// An optional string field: an absent or null key reads as `None`, a
/// string as `Some`, anything else fails.
pub open spec fn get_opt_s(v: JsonV, k: Seq<char>) -> Option<Option<Seq<char>>> {
    match fget(v, k) {
        None => Some(None),
        Some(JsonV::Null) => Some(None),
        Some(JsonV::Str(s)) => Some(Some(s)),
        Some(_) => None,
    }
}

/// A required unsigned 32-bit integer field.
pub open spec fn get_u(v: JsonV, k: Seq<char>) -> Option<u32> {
    match fget(v, k) {
        Some(JsonV::Int(i)) => if 0 <= i <= u32::MAX {
            Some(i as u32)
        } else {
            None
        },
        _ => None,
    }
}

/// An optional unsigned 32-bit integer field.
pub open spec fn get_opt_u(v: JsonV, k: Seq<char>) -> Option<Option<u32>> {
    match fget(v, k) {
        None => Some(None),
        Some(JsonV::Null) => Some(None),
        Some(JsonV::Int(i)) => if 0 <= i <= u32::MAX {
            Some(Some(i as u32))
        } else {
            None
        },
        Some(_) => None,
    }
}

/// An optional boolean field.
pub open spec fn get_opt_b(v: JsonV, k: Seq<char>) -> Option<Option<bool>> {
    match fget(v, k) {
        None => Some(None),
        Some(JsonV::Null) => Some(None),
        Some(JsonV::Bool(b)) => Some(Some(b)),
        Some(_) => None,
    }
}

/// A required object-valued field, as its entries.
pub open spec fn get_o(v: JsonV, k: Seq<char>) -> Option<Seq<(Seq<char>, JsonV)>> {
    match fget(v, k) {
        Some(JsonV::Obj(o)) => Some(o),
        _ => None,
    }
}

/// An optional object-valued field.
pub open spec fn get_opt_o(v: JsonV, k: Seq<char>) -> Option<Option<Seq<(Seq<char>, JsonV)>>> {
    match fget(v, k) {
        None => Some(None),
        Some(JsonV::Null) => Some(None),
        Some(JsonV::Obj(o)) => Some(Some(o)),
        Some(_) => None,
    }
}

/// A required field of arbitrary shape.
pub open spec fn get_any(v: JsonV, k: Seq<char>) -> Option<JsonV> {
    fget(v, k)
}

/// A required array-valued field, as its elements.
pub open spec fn get_a(v: JsonV, k: Seq<char>) -> Option<Seq<JsonV>> {
    match fget(v, k) {
        Some(JsonV::Arr(a)) => Some(a),
        _ => None,
    }
}

impl JsonValue {
    /// Reads a required string field.
    pub fn f_str(&self, k: &str) -> (r: Option<String>)
        ensures
            r.deep_view() == get_s(jv(*self), k@),
    {
        match self.get(k) {
            Some(JsonValue::Str(s)) => Some(s.clone()),
            _ => None,
        }
    }

    /// Reads an optional string field.
    pub fn f_opt_str(&self, k: &str) -> (r: Option<Option<String>>)
        ensures
            r.deep_view() == get_opt_s(jv(*self), k@),
    {
        match self.get(k) {
            None => Some(None),
            Some(JsonValue::Null) => Some(None),
            Some(JsonValue::Str(s)) => Some(Some(s.clone())),
            Some(_) => None,
        }
    }

    /// Reads a required unsigned 32-bit integer field.
    pub fn f_u32(&self, k: &str) -> (r: Option<u32>)
        ensures
            r.deep_view() == get_u(jv(*self), k@),
    {
        match self.get(k) {
            Some(JsonValue::Int(i)) => {
                if 0 <= *i && *i <= u32::MAX as i64 {
                    Some(*i as u32)
                } else {
                    None
                }
            },
            _ => None,
        }
    }

    /// Reads an optional unsigned 32-bit integer field.
    pub fn f_opt_u32(&self, k: &str) -> (r: Option<Option<u32>>)
        ensures
            r.deep_view() == get_opt_u(jv(*self), k@),
    {
        match self.get(k) {
            None => Some(None),
            Some(JsonValue::Null) => Some(None),
            Some(JsonValue::Int(i)) => {
                if 0 <= *i && *i <= u32::MAX as i64 {
                    Some(Some(*i as u32))
                } else {
                    None
                }
            },
            Some(_) => None,
        }
    }

    /// Reads an optional boolean field.
    pub fn f_opt_bool(&self, k: &str) -> (r: Option<Option<bool>>)
        ensures
            r.deep_view() == get_opt_b(jv(*self), k@),
    {
        match self.get(k) {
            None => Some(None),
            Some(JsonValue::Null) => Some(None),
            Some(JsonValue::Bool(b)) => Some(Some(*b)),
            Some(_) => None,
        }
    }

    /// Reads a required object field as an owned entry vector.
    pub fn f_obj(&self, k: &str) -> (r: Option<Vec<(String, JsonValue)>>)
        ensures
            match r {
                Some(o) => get_o(jv(*self), k@) == Some(o.deep_view()),
                None => get_o(jv(*self), k@) is None,
            },
    {
        match self.get(k) {
            Some(found) => match found.duplicate() {
                JsonValue::Obj(o) => {
                    proof {
                        lemma_jv_obj(o);
                    }
                    Some(o)
                },
                _ => None,
            },
            _ => None,
        }
    }

    /// Reads an optional object field as an owned entry vector.
    pub fn f_opt_obj(&self, k: &str) -> (r: Option<Option<Vec<(String, JsonValue)>>>)
        ensures
            match r {
                Some(Some(o)) => get_opt_o(jv(*self), k@) == Some(Some(o.deep_view())),
                Some(None) => get_opt_o(jv(*self), k@) == Some(None::<Seq<(Seq<char>, JsonV)>>),
                None => get_opt_o(jv(*self), k@) is None,
            },
    {
        match self.get(k) {
            None => Some(None),
            Some(JsonValue::Null) => Some(None),
            Some(found) => match found.duplicate() {
                JsonValue::Obj(o) => {
                    proof {
                        lemma_jv_obj(o);
                    }
                    Some(Some(o))
                },
                _ => None,
            },
        }
    }

    /// Reads a required field of arbitrary shape, as an owned copy.
    pub fn f_any(&self, k: &str) -> (r: Option<JsonValue>)
        ensures
            match r {
                Some(v) => get_any(jv(*self), k@) == Some(jv(v)),
                None => get_any(jv(*self), k@) is None,
            },
    {
        match self.get(k) {
            Some(found) => Some(found.duplicate()),
            None => None,
        }
    }
}

/// Mirror of the raw entries of an object.
pub type JsonObjV = Seq<(Seq<char>, JsonV)>;

/// An object with no entries.
pub open spec fn nilobj() -> JsonObjV {
    Seq::empty()
}

/// The entry `k: v` followed by the entries of `rest`.
pub open spec fn centry(k: Seq<char>, v: JsonV, rest: JsonObjV) -> JsonObjV {
    seq![(k, v)] + rest
}

/// The entry `k: v` when present, then the entries of `rest`: how an
/// optional field stands in an encoded object — omitted, never null.
pub open spec fn oentry(k: Seq<char>, ov: Option<JsonV>, rest: JsonObjV) -> JsonObjV {
    match ov {
        Some(v) => centry(k, v, rest),
        None => rest,
    }
}

/// Lookup finds nothing in an empty object.
pub broadcast proof fn lemma_lookup_nil(k: Seq<char>)
    ensures
        #[trigger] lookup(nilobj(), k) == None::<JsonV>,
{
}

/// Lookup against a front entry: settled there, or passed to the rest.
pub broadcast proof fn lemma_lookup_centry(k0: Seq<char>, v0: JsonV, rest: JsonObjV, k: Seq<char>)
    ensures
        #[trigger] lookup(centry(k0, v0, rest), k) == if k0 == k {
            Some(v0)
        } else {
            lookup(rest, k)
        },
{
    let s = centry(k0, v0, rest);
    assert(s.len() > 0);
    assert(s[0] == (k0, v0));
    assert(s.drop_first() =~= rest);
}

/// Lookup against an optional front entry.
pub broadcast proof fn lemma_lookup_oentry(
    k0: Seq<char>,
    ov: Option<JsonV>,
    rest: JsonObjV,
    k: Seq<char>,
)
    ensures
        #[trigger] lookup(oentry(k0, ov, rest), k) == match ov {
            Some(v0) => if k0 == k {
                Some(v0)
            } else {
                lookup(rest, k)
            },
            None => lookup(rest, k),
        },
{
    match ov {
        Some(v0) => {
            lemma_lookup_centry(k0, v0, rest, k);
        },
        None => {},
    }
}

/// The lookup lemmas the encoding proofs lean on.
pub broadcast group group_obj_lemmas {
    lemma_lookup_nil,
    lemma_lookup_centry,
    lemma_lookup_oentry,
}

/// An optional integer as an optional JSON value.
pub open spec fn opt_int(o: Option<u32>) -> Option<JsonV> {
    match o {
        Some(u) => Some(JsonV::Int(u as int)),
        None => None,
    }
}

/// An optional string as an optional JSON value.
pub open spec fn opt_str(o: Option<Seq<char>>) -> Option<JsonV> {
    match o {
        Some(s) => Some(JsonV::Str(s)),
        None => None,
    }
}

/// An optional boolean as an optional JSON value.
pub open spec fn opt_bool(o: Option<bool>) -> Option<JsonV> {
    match o {
        Some(b) => Some(JsonV::Bool(b)),
        None => None,
    }
}

/// An optional object as an optional JSON value.
pub open spec fn opt_obj(o: Option<JsonObjV>) -> Option<JsonV> {
    match o {
        Some(e) => Some(JsonV::Obj(e)),
        None => None,
    }
}

/// An optional field of arbitrary shape: absent or null reads back as
/// absent, anything else as itself. Never fails.
pub open spec fn get_oj(v: JsonV, k: Seq<char>) -> Option<JsonV> {
    match fget(v, k) {
        None => None,
        Some(JsonV::Null) => None,
        Some(w) => Some(w),
    }
}

impl JsonValue {
    /// Reads an optional field of arbitrary shape, as an owned copy.
    pub fn f_opt_any(&self, k: &str) -> (r: Option<JsonValue>)
        ensures
            match r {
                Some(v) => get_oj(jv(*self), k@) == Some(jv(v)),
                None => get_oj(jv(*self), k@) is None,
            },
    {
        match self.get(k) {
            None => None,
            Some(JsonValue::Null) => None,
            Some(found) => Some(found.duplicate()),
        }
    }
}

impl JsonValue {
    /// Whether this value is an object.
    pub fn is_obj(&self) -> (r: bool)
        ensures
            r == (jv(*self) matches JsonV::Obj(_)),
    {
        match self {
            JsonValue::Obj(_) => true,
            _ => false,
        }
    }
}

/// A structurally equal copy of an object's entries.
pub fn clone_obj(o: &Vec<(String, JsonValue)>) -> (r: Vec<(String, JsonValue)>)
    ensures
        r.deep_view() == o.deep_view(),
{
    let mut out: Vec<(String, JsonValue)> = Vec::new();
    let mut i: usize = 0;
    while i < o.len()
        invariant
            i <= o@.len(),
            out@.len() == i,
            forall|j: int| 0 <= j < i ==> (#[trigger] out@[j]).0@ == o@[j].0@ && jv(out@[j].1)
                == jv(o@[j].1),
        decreases o@.len() - i,
    {
        let entry = &o[i];
        out.push((entry.0.clone(), entry.1.duplicate()));
        i = i + 1;
    }
    proof {
        assert(out.deep_view() =~= o.deep_view());
    }
    out
}

/// Unfolds one step of `lookup` on the tail of an object: the lookup over
/// the entries from position `i` on is settled by entry `i` or continues
/// from position `i + 1`.
proof fn reveal_lookup_skip(o: Seq<(Seq<char>, JsonV)>, k: Seq<char>, i: int)
    requires
        0 <= i < o.len(),
    ensures
        lookup(o.skip(i), k) == if o[i].0 == k {
            Some(o[i].1)
        } else {
            lookup(o.skip(i + 1), k)
        },
{
    let s = o.skip(i);
    assert(s.len() > 0);
    assert(s[0] == o[i]);
    assert(s.drop_first() =~= o.skip(i + 1));
}

} // verus!
