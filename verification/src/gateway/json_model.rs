//! A JSON document as the gateway commands build it. Objects keep their
//! members in the order given; `serde_json` orders them by key when the
//! document is written out.

use vstd::prelude::*;

verus! {

/// A JSON value.
#[derive(Debug, PartialEq, Eq)]
pub enum Json {
    Null,
    Bool(bool),
    /// A non-negative integer.
    Num(u64),
    /// A negative integer.
    Int(i64),
    /// Any other number (one with a fraction or an exponent), by its JSON
    /// text.
    NumberText(String),
    Str(String),
    Arr(Vec<Json>),
    Obj(Vec<(String, Json)>),
}

/// The mathematical view of a JSON value.
pub enum JsonV {
    Null,
    Bool(bool),
    Num(u64),
    Int(i64),
    NumberText(Seq<char>),
    Str(Seq<char>),
    Arr(Seq<JsonV>),
    Obj(Seq<(Seq<char>, JsonV)>),
}

impl Json {
    /// The view of this value.
    pub open spec fn v(&self) -> JsonV
        decreases self,
    {
        match self {
            Json::Null => JsonV::Null,
            Json::Bool(b) => JsonV::Bool(*b),
            Json::Num(n) => JsonV::Num(*n),
            Json::Int(n) => JsonV::Int(*n),
            Json::NumberText(t) => JsonV::NumberText(t@),
            Json::Str(s) => JsonV::Str(s@),
            Json::Arr(items) => JsonV::Arr(
                Seq::new(
                    items@.len(),
                    |i: int|
                        if 0 <= i < items@.len() {
                            items@[i].v()
                        } else {
                            JsonV::Null
                        },
                ),
            ),
            Json::Obj(fields) => JsonV::Obj(
                Seq::new(
                    fields@.len(),
                    |i: int|
                        if 0 <= i < fields@.len() {
                            (fields@[i].0@, fields@[i].1.v())
                        } else {
                            (Seq::empty(), JsonV::Null)
                        },
                ),
            ),
        }
    }
}

/// A JSON string.
pub open spec fn jstr(s: Seq<char>) -> JsonV {
    JsonV::Str(s)
}

/// A JSON string, or `null`.
pub open spec fn jstr_or_null(s: Option<Seq<char>>) -> JsonV {
    match s {
        Some(t) => JsonV::Str(t),
        None => JsonV::Null,
    }
}

/// An array of numbers.
pub open spec fn jnums(s: Seq<u64>) -> JsonV {
    JsonV::Arr(s.map_values(|x: u64| JsonV::Num(x)))
}

/// An array of the decimal renderings of numbers, as strings.
pub open spec fn jdecimals(s: Seq<u64>) -> JsonV {
    JsonV::Arr(s.map_values(|x: u64| JsonV::Str(crate::text::decimal(x as nat))))
}

/// An array of strings.
pub open spec fn jstrs(s: Seq<Seq<char>>) -> JsonV {
    JsonV::Arr(s.map_values(|x: Seq<char>| JsonV::Str(x)))
}

/// The view of a list of members.
pub open spec fn fields_v(fields: Seq<(String, Json)>) -> Seq<(Seq<char>, JsonV)> {
    Seq::new(fields.len(), |i: int| (fields[i].0@, fields[i].1.v()))
}

/// The view of an object is the view of its members.
pub proof fn lemma_obj_v(fields: Vec<(String, Json)>)
    ensures
        Json::Obj(fields).v() == JsonV::Obj(fields_v(fields@)),
{
    let j = Json::Obj(fields);
    let s = j.v()->Obj_0;
    assert(s =~= fields_v(fields@));
}

/// The view of an array is the views of its items.
pub proof fn lemma_arr_v(items: Vec<Json>)
    ensures
        Json::Arr(items).v() == JsonV::Arr(items@.map_values(|j: Json| j.v())),
{
    let j = Json::Arr(items);
    let s = j.v()->Arr_0;
    assert(s =~= items@.map_values(|j: Json| j.v()));
}

/// A JSON object being built member by member.
pub struct ObjBuilder {
    pub fields: Vec<(String, Json)>,
}

impl ObjBuilder {
    /// An object with no members yet.
    pub fn new() -> (b: ObjBuilder)
        ensures
            fields_v(b.fields@) == Seq::<(Seq<char>, JsonV)>::empty(),
    {
        let b = ObjBuilder { fields: Vec::new() };
        assert(fields_v(b.fields@) =~= Seq::<(Seq<char>, JsonV)>::empty());
        b
    }

    /// Adds the member `key: value`.
    pub fn put(&mut self, key: &str, value: Json)
        ensures
            fields_v(final(self).fields@) == fields_v(old(self).fields@).push((key@, value.v())),
    {
        let k = crate::text::copy_str(key);
        self.fields.push((k, value));
        assert(fields_v(self.fields@) =~= fields_v(old(self).fields@).push((key@, value.v())));
    }

    /// The object.
    pub fn build(self) -> (j: Json)
        ensures
            j.v() == JsonV::Obj(fields_v(self.fields@)),
    {
        proof {
            lemma_obj_v(self.fields);
        }
        Json::Obj(self.fields)
    }
}

/// A JSON string holding `s`.
pub fn json_str(s: &str) -> (j: Json)
    ensures
        j.v() == jstr(s@),
{
    Json::Str(crate::text::copy_str(s))
}

/// A JSON string holding `s`, or `null`.
pub fn json_str_or_null(s: Option<&str>) -> (j: Json)
    ensures
        j.v() == jstr_or_null(
            match s {
                Some(t) => Some(t@),
                None => None,
            },
        ),
{
    match s {
        Some(t) => json_str(t),
        None => Json::Null,
    }
}

/// A JSON string holding the decimal rendering of `n`.
pub fn json_decimal(n: u64) -> (j: Json)
    ensures
        j.v() == jstr(crate::text::decimal(n as nat)),
{
    Json::Str(crate::text::decimal_string(n))
}

/// A JSON array of the numbers `ns`.
pub fn json_nums(ns: &Vec<u64>) -> (j: Json)
    ensures
        j.v() == jnums(ns@),
{
    let mut items: Vec<Json> = Vec::new();
    let mut i: usize = 0;
    while i < ns.len()
        invariant
            i <= ns@.len(),
            items@.len() == i,
            forall|k: int| 0 <= k < i ==> #[trigger] items@[k] == Json::Num(ns@[k]),
        decreases ns@.len() - i,
    {
        items.push(Json::Num(ns[i]));
        i = i + 1;
    }
    proof {
        lemma_arr_v(items);
        assert(items@.map_values(|j: Json| j.v()) =~= ns@.map_values(|x: u64| JsonV::Num(x)));
    }
    Json::Arr(items)
}

/// A JSON array of the decimal renderings of `ns`, as strings.
pub fn json_decimals(ns: &Vec<u64>) -> (j: Json)
    ensures
        j.v() == jdecimals(ns@),
{
    let mut items: Vec<Json> = Vec::new();
    let mut i: usize = 0;
    while i < ns.len()
        invariant
            i <= ns@.len(),
            items@.len() == i,
            forall|k: int|
                0 <= k < i ==> #[trigger] items@[k].v() == JsonV::Str(
                    crate::text::decimal(ns@[k] as nat),
                ),
        decreases ns@.len() - i,
    {
        items.push(json_decimal(ns[i]));
        i = i + 1;
    }
    proof {
        lemma_arr_v(items);
        assert(items@.map_values(|j: Json| j.v()) =~= ns@.map_values(
            |x: u64| JsonV::Str(crate::text::decimal(x as nat)),
        ));
    }
    Json::Arr(items)
}

/// A JSON array of the strings `ss`.
pub fn json_strs(ss: &Vec<String>) -> (j: Json)
    ensures
        j.v() == jstrs(ss@.map_values(|s: String| s@)),
{
    let mut items: Vec<Json> = Vec::new();
    let mut i: usize = 0;
    while i < ss.len()
        invariant
            i <= ss@.len(),
            items@.len() == i,
            forall|k: int| 0 <= k < i ==> #[trigger] items@[k].v() == JsonV::Str(ss@[k]@),
        decreases ss@.len() - i,
    {
        items.push(json_str(ss[i].as_str()));
        i = i + 1;
    }
    proof {
        lemma_arr_v(items);
        assert(items@.map_values(|j: Json| j.v()) =~= ss@.map_values(|s: String| s@).map_values(
            |x: Seq<char>| JsonV::Str(x),
        ));
    }
    Json::Arr(items)
}

} // verus!
