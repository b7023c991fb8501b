//! JSON documents as plain data, and the reading of them from text.

use vstd::prelude::*;
use vstd::string::StringExecFns;

verus! {

/// A JSON value. Of a number only what a pack can use is kept: its value as a
/// 64-bit signed integer, if it is an integer and fits.
pub enum Json {
    Null,
    Bool(bool),
    Number(Option<i64>),
    Text(String),
    Array(Vec<Json>),
    Object(Vec<(String, Json)>),
}

/// The mathematical model of a `Json`.
pub enum JsonView {
    Null,
    Bool(bool),
    Number(Option<i64>),
    Text(Seq<char>),
    Array(Seq<JsonView>),
    Object(Seq<(Seq<char>, JsonView)>),
}

impl Json {
    /// The mathematical model of this value.
    pub open spec fn model(self) -> JsonView
        decreases self,
    {
        match self {
            Json::Null => JsonView::Null,
            Json::Bool(b) => JsonView::Bool(b),
            Json::Number(n) => JsonView::Number(n),
            Json::Text(s) => JsonView::Text(s@),
            Json::Array(items) => JsonView::Array(
                Seq::new(
                    items@.len(),
                    |i: int|
                        if 0 <= i < items@.len() {
                            items@[i].model()
                        } else {
                            JsonView::Null
                        },
                ),
            ),
            Json::Object(entries) => JsonView::Object(
                Seq::new(
                    entries@.len(),
                    |i: int|
                        if 0 <= i < entries@.len() {
                            (entries@[i].0@, entries@[i].1.model())
                        } else {
                            (Seq::empty(), JsonView::Null)
                        },
                ),
            ),
        }
    }
}

impl View for Json {
    type V = JsonView;

    open spec fn view(&self) -> JsonView {
        self.model()
    }
}

impl JsonView {
    /// Whether this is an object with an entry under `key`.
    #[verifier::opaque]
    pub open spec fn has(self, key: Seq<char>) -> bool {
        self matches JsonView::Object(entries) && exists|i: int|
            0 <= i < entries.len() && (#[trigger] entries[i]).0 == key
    }

    /// The place of the first entry under `key`, in an object that has one.
    pub open spec fn place(self, key: Seq<char>) -> int
        recommends
            self.has(key),
    {
        let entries = self->Object_0;
        choose|i: int|
            0 <= i < entries.len() && (#[trigger] entries[i]).0 == key && forall|j: int|
                0 <= j < i ==> (#[trigger] entries[j]).0 != key
    }

    /// What indexing by `key` gives: the value of the first entry under that
    /// key, and `Null` where this is no object or has no such entry.
    #[verifier::opaque]
    pub open spec fn member(self, key: Seq<char>) -> JsonView {
        if self.has(key) {
            self->Object_0[self.place(key)].1
        } else {
            JsonView::Null
        }
    }
}

impl Json {
    /// The value under `key`, if this is an object that has one.
    pub fn field(&self, key: &str) -> (found: Option<&Json>)
        ensures
            found is Some <==> self@.has(key@),
            found matches Some(value) ==> value@ == self@.member(key@),
            found is None ==> self@.member(key@) == JsonView::Null,
    {
        reveal(JsonView::has);
        reveal(JsonView::member);
        match self {
            Json::Object(entries) => {
                let wanted = String::from_str(key);
                let mut i: usize = 0;
                while i < entries.len()
                    invariant
                        i <= entries@.len(),
                        wanted@ == key@,
                        self@ matches JsonView::Object(seen) && seen.len() == entries@.len(),
                        forall|j: int|
                            0 <= j < entries@.len() ==> (#[trigger] self@->Object_0[j]) == (
                            entries@[j].0@,
                            entries@[j].1@,
                        ),
                        forall|j: int| 0 <= j < i ==> (#[trigger] self@->Object_0[j]).0 != key@,
                    decreases entries@.len() - i,
                {
                    if entries[i].0 == wanted {
                        reveal(JsonView::has);
                        reveal(JsonView::member);
                        assert(self@->Object_0[i as int].0 == key@);
                        assert(self@.has(key@));
                        assert(self@.place(key@) == i);
                        return Some(&entries[i].1);
                    }
                    i += 1;
                }
                None
            },
            _ => None,
        }
    }
}

/// `serde_json::Value`, carried as an opaque value from the parser to `lift`.
#[verifier::external_type_specification]
#[verifier::external_body]
pub struct ExValue(serde_json::Value);

/// The JSON value that the text `src` denotes, as `serde_json::from_str` reads
/// it; `None` where the text is no JSON document. It depends on the text alone.
pub uninterp spec fn document(src: Seq<char>) -> Option<JsonView>;

/// What a `serde_json::Value` holds.
pub uninterp spec fn tree(value: serde_json::Value) -> JsonView;

/// Calls `serde_json::from_str` for a `serde_json::Value`. Nothing is proved of
/// it: the contract names the outcome, `document` of the text, and says that a
/// value comes back exactly where there is one.
#[verifier::external_body]
pub(crate) fn parse(src: &str) -> (r: Result<serde_json::Value, serde_json::Error>)
    ensures
        match r {
            Ok(value) => document(src@) == Some(tree(value)),
            Err(_) => document(src@) is None,
        },
{
    serde_json::from_str::<serde_json::Value>(src)
}

/// Copies a `serde_json::Value` into a `Json`, variant by variant; a number
/// goes through `serde_json::Number::as_i64`, and the entries of an object
/// come in the order in which its map hands them out. Nothing is proved of it.
#[verifier::external_body]
pub(crate) fn lift(value: &serde_json::Value) -> (json: Json)
    ensures
        json@ == tree(*value),
{
    match value {
        serde_json::Value::Null => Json::Null,
        serde_json::Value::Bool(b) => Json::Bool(*b),
        serde_json::Value::Number(n) => Json::Number(n.as_i64()),
        serde_json::Value::String(s) => Json::Text(s.clone()),
        serde_json::Value::Array(items) => Json::Array(items.iter().map(lift).collect()),
        serde_json::Value::Object(entries) => Json::Object(
            entries.iter().map(|(key, item)| (key.clone(), lift(item))).collect(),
        ),
    }
}

} // verus!
