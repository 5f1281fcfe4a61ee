//! Reading and writing JSON.
//!
//! Values are those of `serde_json`. What a value holds is modelled as a tree.
use crate::command::combo;
use crate::search;
use vstd::prelude::*;

verus! {

/// A JSON value, which is opaque here.
#[verifier::external_type_specification]
#[verifier::external_body]
pub struct ExValue(serde_json::Value);

/// What a JSON value holds. Of a number its digits are kept, and the number
/// itself where it is a whole one of at most 64 bits.
pub enum Json {
    Null,
    Bool(bool),
    Number { digits: Seq<char>, whole: Option<u64> },
    Text(Seq<char>),
    List(Seq<Json>),
    Object(Map<Seq<char>, Json>),
}

/// The tree that a value holds.
pub uninterp spec fn tree(v: serde_json::Value) -> Json;

/// The tree that a text stands for; else what is wrong with the text.
pub uninterp spec fn parsed(text: Seq<char>) -> Result<Json, Seq<char>>;

/// Calls `serde_json::from_str`. The grammar is not stated, only that the text
/// alone decides which tree it stands for or what is wrong with it.
#[verifier::external_body]
pub(crate) fn parse(text: &str) -> (r: Result<serde_json::Value, String>)
    ensures
        match parsed(text@) {
            Ok(t) => r is Ok && tree(r->Ok_0) == t,
            Err(e) => r is Err && r->Err_0@ == e,
        },
{
    serde_json::from_str::<serde_json::Value>(text).map_err(|e| e.to_string())
}

/// The tree that bytes stand for; else what is wrong with them.
pub uninterp spec fn parsed_bytes(bytes: Seq<u8>) -> Result<Json, Seq<char>>;

/// Calls `serde_json::from_slice`. As of a text, only that the bytes alone
/// decide is stated.
#[verifier::external_body]
pub(crate) fn parse_bytes(bytes: &[u8]) -> (r: Result<serde_json::Value, String>)
    ensures
        match parsed_bytes(bytes@) {
            Ok(t) => r is Ok && tree(r->Ok_0) == t,
            Err(e) => r is Err && r->Err_0@ == e,
        },
{
    serde_json::from_slice::<serde_json::Value>(bytes).map_err(|e| e.to_string())
}

/// How a tree is written, without blanks; the members of an object come in the
/// order of their keys.
pub uninterp spec fn written(t: Json) -> Seq<char>;

impl Json {
    /// What stands under a key; nothing where there is no object or no such key.
    pub open spec fn member(self, key: Seq<char>) -> Option<Json> {
        match self {
            Json::Object(m) if m.contains_key(key) => Some(m[key]),
            _ => None,
        }
    }

    /// What stands at a place in a list; nothing where there is no list or no such place.
    pub open spec fn item(self, i: int) -> Option<Json> {
        match self {
            Json::List(l) if 0 <= i < l.len() => Some(l[i]),
            _ => None,
        }
    }

    pub open spec fn as_text(self) -> Option<Seq<char>> {
        match self {
            Json::Text(s) => Some(s),
            _ => None,
        }
    }

    pub open spec fn as_flag(self) -> Option<bool> {
        match self {
            Json::Bool(b) => Some(b),
            _ => None,
        }
    }

    pub open spec fn as_whole(self) -> Option<u64> {
        match self {
            Json::Number { digits, whole } => whole,
            _ => None,
        }
    }

    pub open spec fn as_list(self) -> Option<Seq<Json>> {
        match self {
            Json::List(l) => Some(l),
            _ => None,
        }
    }
}

/// The number as it stands in a tree.
pub open spec fn number(n: u64) -> Json {
    Json::Number { digits: search::decimal(n as nat), whole: Some(n) }
}

// ---------------------------------------------------------------------------
// Reading
// ---------------------------------------------------------------------------

/// Calls `serde_json::Value::get` with a string: the member of an object.
#[verifier::external_body]
pub(crate) fn get<'a>(v: &'a serde_json::Value, key: &str) -> (r: Option<&'a serde_json::Value>)
    ensures
        match tree(*v).member(key@) {
            Some(t) => r is Some && tree(*r->0) == t,
            None => r is None,
        },
{
    v.get(key)
}

/// Calls `serde_json::Value::get` with an index: the item of a list.
#[verifier::external_body]
pub(crate) fn at(v: &serde_json::Value, i: usize) -> (r: Option<&serde_json::Value>)
    ensures
        match tree(*v).item(i as int) {
            Some(t) => r is Some && tree(*r->0) == t,
            None => r is None,
        },
{
    v.get(i)
}

/// Calls `serde_json::Value::as_array` for the length of a list.
#[verifier::external_body]
pub(crate) fn length(v: &serde_json::Value) -> (r: Option<usize>)
    ensures
        match tree(*v).as_list() {
            Some(l) => r is Some && r->0 == l.len(),
            None => r is None,
        },
{
    v.as_array().map(|a| a.len())
}

/// Calls `serde_json::Value::as_str` and copies the string.
#[verifier::external_body]
pub(crate) fn text(v: &serde_json::Value) -> (r: Option<String>)
    ensures
        match tree(*v).as_text() {
            Some(s) => r is Some && r->0@ == s,
            None => r is None,
        },
{
    v.as_str().map(|s| s.to_string())
}

/// Calls `serde_json::Value::as_bool`.
#[verifier::external_body]
pub(crate) fn flag(v: &serde_json::Value) -> (r: Option<bool>)
    ensures
        r == tree(*v).as_flag(),
{
    v.as_bool()
}

/// Calls `serde_json::Value::as_u64`.
#[verifier::external_body]
pub(crate) fn whole(v: &serde_json::Value) -> (r: Option<u64>)
    ensures
        r == tree(*v).as_whole(),
{
    v.as_u64()
}

/// The text of a member of an object.
pub open spec fn text_member(t: Json, key: Seq<char>) -> Option<Seq<char>> {
    match t.member(key) {
        Some(m) => m.as_text(),
        None => None,
    }
}

/// The text of a member of an object.
pub(crate) fn get_text(v: &serde_json::Value, key: &str) -> (r: Option<String>)
    ensures
        combo::opt_text(r) == text_member(tree(*v), key@),
{
    match get(v, key) {
        Some(m) => text(m),
        None => None,
    }
}

// ---------------------------------------------------------------------------
// Writing
// ---------------------------------------------------------------------------

/// Makes the value `serde_json::Value::String`.
#[verifier::external_body]
pub(crate) fn of_text(s: &str) -> (r: serde_json::Value)
    ensures
        tree(r) == Json::Text(s@),
{
    serde_json::Value::String(s.to_string())
}

/// Makes the value `serde_json::Value::Bool`.
#[verifier::external_body]
pub(crate) fn of_flag(b: bool) -> (r: serde_json::Value)
    ensures
        tree(r) == Json::Bool(b),
{
    serde_json::Value::Bool(b)
}

/// Makes the value `serde_json::Value::Null`.
#[verifier::external_body]
pub(crate) fn null() -> (r: serde_json::Value)
    ensures
        tree(r) == Json::Null,
{
    serde_json::Value::Null
}

/// Makes a `serde_json::Value::Number` with `serde_json::Value::from`.
#[verifier::external_body]
pub(crate) fn of_number(n: u64) -> (r: serde_json::Value)
    ensures
        tree(r) == number(n),
{
    serde_json::Value::from(n)
}

pub open spec fn trees(v: Seq<serde_json::Value>) -> Seq<Json> {
    v.map_values(|x: serde_json::Value| tree(x))
}

/// Makes the value `serde_json::Value::Array`.
#[verifier::external_body]
pub(crate) fn of_list(v: Vec<serde_json::Value>) -> (r: serde_json::Value)
    ensures
        tree(r) == Json::List(trees(v@)),
{
    serde_json::Value::Array(v)
}

/// Makes the value `serde_json::Value::Object` of an empty `serde_json::Map`.
#[verifier::external_body]
pub(crate) fn empty_object() -> (r: serde_json::Value)
    ensures
        tree(r) == Json::Object(Map::<Seq<char>, Json>::empty()),
{
    serde_json::Value::Object(serde_json::Map::new())
}

/// Assigns to an object by the index of a key: the member of that key is the
/// new one, whether there was one or not, and every other stays.
#[verifier::external_body]
pub(crate) fn put_member(v: &mut serde_json::Value, key: &str, m: serde_json::Value)
    requires
        tree(*old(v)) is Object,
    ensures
        tree(*final(v)) == Json::Object(tree(*old(v))->Object_0.insert(key@, tree(m))),
{
    v[key] = m;
}

/// Calls `serde_json::Value::to_string`. How a tree is written is only named.
#[verifier::external_body]
pub(crate) fn write(v: &serde_json::Value) -> (r: String)
    ensures
        r@ == written(tree(*v)),
{
    v.to_string()
}

/// An object under way.
pub struct Members {
    pub object: serde_json::Value,
}

impl Members {
    pub open spec fn wf(self) -> bool {
        tree(self.object) is Object
    }

    pub open spec fn map(self) -> Map<Seq<char>, Json> {
        tree(self.object)->Object_0
    }

    pub(crate) fn new() -> (r: Self)
        ensures
            r.wf(),
            r.map() == Map::<Seq<char>, Json>::empty(),
    {
        Members { object: empty_object() }
    }

    pub(crate) fn put(&mut self, key: &str, v: serde_json::Value)
        requires
            old(self).wf(),
        ensures
            final(self).wf(),
            final(self).map() == old(self).map().insert(key@, tree(v)),
    {
        put_member(&mut self.object, key, v);
    }

    pub(crate) fn put_text(&mut self, key: &str, s: &str)
        requires
            old(self).wf(),
        ensures
            final(self).wf(),
            final(self).map() == old(self).map().insert(key@, Json::Text(s@)),
    {
        self.put(key, of_text(s));
    }

    /// Text, or null.
    pub(crate) fn put_opt_text(&mut self, key: &str, s: &Option<String>)
        requires
            old(self).wf(),
        ensures
            final(self).wf(),
            final(self).map() == old(self).map().insert(key@, opt_text(combo::opt_text(*s))),
    {
        match s {
            Some(t) => self.put_text(key, t),
            None => self.put(key, null()),
        }
    }

    pub(crate) fn put_flag(&mut self, key: &str, b: bool)
        requires
            old(self).wf(),
        ensures
            final(self).wf(),
            final(self).map() == old(self).map().insert(key@, Json::Bool(b)),
    {
        self.put(key, of_flag(b));
    }

    pub(crate) fn put_number(&mut self, key: &str, n: u64)
        requires
            old(self).wf(),
        ensures
            final(self).wf(),
            final(self).map() == old(self).map().insert(key@, number(n)),
    {
        self.put(key, of_number(n));
    }

    pub(crate) fn done(self) -> (r: serde_json::Value)
        requires
            self.wf(),
        ensures
            tree(r) == Json::Object(self.map()),
    {
        self.object
    }
}

/// Text, or null.
pub open spec fn opt_text(o: Option<Seq<char>>) -> Json {
    match o {
        Some(s) => Json::Text(s),
        None => Json::Null,
    }
}

/// A list of texts.
pub open spec fn text_list(v: Seq<Seq<char>>) -> Json {
    Json::List(v.map_values(|s: Seq<char>| Json::Text(s)))
}

pub(crate) fn of_texts(v: &Vec<String>) -> (r: serde_json::Value)
    ensures
        tree(r) == text_list(search::texts(v@)),
{
    let mut list: Vec<serde_json::Value> = Vec::new();
    for i in 0..v.len()
        invariant
            list@.len() == i,
            forall|j: int| 0 <= j < i ==> tree(#[trigger] list@[j]) == Json::Text(v@[j]@),
    {
        list.push(of_text(&v[i]));
    }
    assert(trees(list@) =~= search::texts(v@).map_values(|s: Seq<char>| Json::Text(s)));
    of_list(list)
}

} // verus!
