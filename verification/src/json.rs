//! JSON documents as trees of plain values, and their text form.

use crate::text::same_text;
use vstd::prelude::*;

verus! {

/// `serde_json::Value`, which the conversions below take and give.
#[verifier::external_type_specification]
#[verifier::external_body]
pub struct ExValue(serde_json::Value);

/// `serde_json::Number`, which a tree carries as it is.
#[verifier::external_type_specification]
#[verifier::external_body]
pub struct ExNumber(serde_json::Number);

/// A JSON document held as a tree of plain values.
///
/// A number that serde_json hands out as an unsigned 64-bit integer is held
/// as such, any other number as serde_json's own. The fields of an object
/// are held in order; where a key occurs twice, the later field counts.
#[derive(Debug, PartialEq, Eq)]
pub enum Json {
    Null,
    Bool(bool),
    Unsigned(u64),
    Number(serde_json::Number),
    Text(String),
    Array(Vec<Json>),
    Object(Vec<(String, Json)>),
}

/// The mathematical value of a [`Json`] tree.
pub enum JsonDoc {
    Null,
    Bool(bool),
    Unsigned(u64),
    Number(serde_json::Number),
    Text(Seq<char>),
    Array(Seq<JsonDoc>),
    Object(Seq<(Seq<char>, JsonDoc)>),
}

/// The mathematical value of a tree.
pub open spec fn doc_of(json: Json) -> JsonDoc
    decreases json,
{
    match json {
        Json::Null => JsonDoc::Null,
        Json::Bool(b) => JsonDoc::Bool(b),
        Json::Unsigned(n) => JsonDoc::Unsigned(n),
        Json::Number(n) => JsonDoc::Number(n),
        Json::Text(s) => JsonDoc::Text(s@),
        Json::Array(items) => JsonDoc::Array(
            Seq::new(
                items@.len(),
                |i: int|
                    if 0 <= i < items@.len() {
                        doc_of(items@[i])
                    } else {
                        JsonDoc::Null
                    },
            ),
        ),
        Json::Object(fields) => JsonDoc::Object(
            Seq::new(
                fields@.len(),
                |i: int|
                    if 0 <= i < fields@.len() {
                        (fields@[i].0@, doc_of(fields@[i].1))
                    } else {
                        (Seq::empty(), JsonDoc::Null)
                    },
            ),
        ),
    }
}

impl View for Json {
    type V = JsonDoc;

    open spec fn view(&self) -> JsonDoc {
        doc_of(*self)
    }
}

/// `<serde_json::Number as Clone>::clone` gives a number equal to the one
/// it is called on.
#[verifier::external_body]
fn number_copy(number: &serde_json::Number) -> (copy: serde_json::Number)
    ensures
        copy == *number,
{
    number.clone()
}

impl Clone for Json {
    fn clone(&self) -> (copy: Json)
        ensures
            copy@ == self@,
    {
        self.duplicate()
    }
}

impl Json {
    /// A deep copy of the tree.
    pub fn duplicate(&self) -> (copy: Json)
        ensures
            copy@ == self@,
        decreases self,
    {
        match self {
            Json::Null => Json::Null,
            Json::Bool(b) => Json::Bool(*b),
            Json::Unsigned(n) => Json::Unsigned(*n),
            Json::Number(n) => Json::Number(number_copy(n)),
            Json::Text(s) => Json::Text(s.clone()),
            Json::Array(items) => {
                let mut out: Vec<Json> = Vec::new();
                let mut i: usize = 0;
                while i < items.len()
                    invariant
                        i <= items.len(),
                        out.len() == i,
                        *self == Json::Array(*items),
                        forall|k: int| 0 <= k < i ==> out@[k]@ == items@[k]@,
                    decreases items.len() - i,
                {
                    proof {
                        assert(decreases_to!(*self => self->Array_0));
                        assert(decreases_to!(self->Array_0 => self->Array_0[i as int]));
                        assert(decreases_to!(*self => items[i as int]));
                    }
                    let item = items[i].duplicate();
                    out.push(item);
                    i += 1;
                }
                let copy = Json::Array(out);
                assert(copy@->Array_0 =~= self@->Array_0);
                copy
            },
            Json::Object(fields) => {
                let mut out: Vec<(String, Json)> = Vec::new();
                let mut i: usize = 0;
                while i < fields.len()
                    invariant
                        i <= fields.len(),
                        out.len() == i,
                        *self == Json::Object(*fields),
                        forall|k: int|
                            0 <= k < i ==> out@[k].0@ == fields@[k].0@ && out@[k].1@
                                == fields@[k].1@,
                    decreases fields.len() - i,
                {
                    let key = fields[i].0.clone();
                    proof {
                        assert(decreases_to!(*self => self->Object_0));
                        assert(decreases_to!(self->Object_0 => self->Object_0[i as int]));
                        assert(decreases_to!(self->Object_0[i as int] => self->Object_0[i as int].1));
                        assert(decreases_to!(*self => fields[i as int].1));
                    }
                    let value = fields[i].1.duplicate();
                    out.push((key, value));
                    i += 1;
                }
                let copy = Json::Object(out);
                assert(copy@->Object_0 =~= self@->Object_0);
                copy
            },
        }
    }
}

/// The value of the last field of `fields` whose key is `key`.
pub open spec fn lookup(fields: Seq<(Seq<char>, JsonDoc)>, key: Seq<char>) -> Option<JsonDoc>
    decreases fields.len(),
{
    if fields.len() == 0 {
        None
    } else if fields.last().0 == key {
        Some(fields.last().1)
    } else {
        lookup(fields.drop_last(), key)
    }
}

impl JsonDoc {
    /// The value of the field `key`, if this is an object that has one.
    pub open spec fn get(self, key: Seq<char>) -> Option<JsonDoc> {
        match self {
            JsonDoc::Object(fields) => lookup(fields, key),
            _ => None,
        }
    }
}

/// The document that `serde_json::from_slice` reads from `bytes`, or `None`
/// where it reports an error.
pub uninterp spec fn parsed(bytes: Seq<u8>) -> Option<JsonDoc>;

/// The text that `serde_json::to_vec` writes for `doc`.
pub uninterp spec fn printed(doc: JsonDoc) -> Seq<u8>;

/// Turns a `serde_json::Value` into the tree that holds the same values:
/// one arm per variant, an object's entries in the order in which its map
/// hands them out.
#[verifier::external_body]
fn tree_of_value(value: &serde_json::Value) -> Json {
    match value {
        serde_json::Value::Null => Json::Null,
        serde_json::Value::Bool(b) => Json::Bool(*b),
        serde_json::Value::Number(n) => match n.as_u64() {
            Some(u) => Json::Unsigned(u),
            None => Json::Number(n.clone()),
        },
        serde_json::Value::String(s) => Json::Text(s.clone()),
        serde_json::Value::Array(a) => Json::Array(a.iter().map(tree_of_value).collect()),
        serde_json::Value::Object(o) => Json::Object(
            o.iter().map(|(k, v)| (k.clone(), tree_of_value(v))).collect(),
        ),
    }
}

/// Turns a tree into the `serde_json::Value` that holds the same values,
/// one arm per variant.
#[verifier::external_body]
fn value_of_tree(json: &Json) -> serde_json::Value {
    match json {
        Json::Null => serde_json::Value::Null,
        Json::Bool(b) => serde_json::Value::Bool(*b),
        Json::Unsigned(n) => serde_json::Value::Number((*n).into()),
        Json::Number(n) => serde_json::Value::Number(n.clone()),
        Json::Text(s) => serde_json::Value::String(s.clone()),
        Json::Array(a) => serde_json::Value::Array(a.iter().map(value_of_tree).collect()),
        Json::Object(o) => serde_json::Value::Object(
            o.iter().map(|(k, v)| (k.clone(), value_of_tree(v))).collect(),
        ),
    }
}

/// Calls `serde_json::from_slice` for a `serde_json::Value`. What it reads
/// depends on the bytes alone and is referred to as [`parsed`]; an error
/// is handed on as `None`.
#[verifier::external_body]
fn from_slice(bytes: &[u8]) -> (doc: Option<Json>)
    ensures
        match doc {
            Some(tree) => parsed(bytes@) == Some(tree@),
            None => parsed(bytes@) is None,
        },
{
    match serde_json::from_slice::<serde_json::Value>(bytes) {
        Ok(value) => Some(tree_of_value(&value)),
        Err(_) => None,
    }
}

/// Calls `serde_json::to_vec` on the `serde_json::Value` of the tree. What
/// it writes depends on the tree alone and is referred to as [`printed`].
#[verifier::external_body]
fn to_vec(doc: &Json) -> (bytes: Vec<u8>)
    ensures
        bytes@ == printed(doc@),
{
    serde_json::to_vec(&value_of_tree(doc)).unwrap_or_default()
}

impl Json {
    /// Reads a document from its text.
    pub fn parse(bytes: &[u8]) -> (doc: Option<Json>)
        ensures
            match doc {
                Some(tree) => parsed(bytes@) == Some(tree@),
                None => parsed(bytes@) is None,
            },
    {
        from_slice(bytes)
    }

    /// Writes the document as text.
    pub fn print(&self) -> (bytes: Vec<u8>)
        ensures
            bytes@ == printed(self@),
    {
        to_vec(self)
    }

    /// The value of the field `key`, if this is an object that has one.
    pub fn get(&self, key: &str) -> (value: Option<&Json>)
        ensures
            match value {
                Some(found) => self@.get(key@) == Some(found@),
                None => self@.get(key@) is None,
            },
    {
        match self {
            Json::Object(fields) => {
                let ghost all = self@->Object_0;
                let mut n: usize = fields.len();
                assert(all.take(n as int) == all);
                while n > 0
                    invariant
                        n <= fields.len(),
                        *self == Json::Object(*fields),
                        all == self@->Object_0,
                        all.len() == fields.len(),
                        lookup(all, key@) == lookup(all.take(n as int), key@),
                    decreases n,
                {
                    assert(all.take(n as int).drop_last() == all.take(n - 1));
                    assert(all.take(n as int).last() == all[n - 1]);
                    assert(all[n - 1] == (fields@[n - 1].0@, fields@[n - 1].1@));
                    if same_text(fields[n - 1].0.as_str(), key) {
                        return Some(&fields[n - 1].1);
                    }
                    n -= 1;
                }
                None
            },
            _ => None,
        }
    }

    /// The text, if this is a string.
    pub fn as_text(&self) -> (text: Option<&String>)
        ensures
            match text {
                Some(s) => self@ == JsonDoc::Text(s@),
                None => !(self@ is Text),
            },
    {
        match self {
            Json::Text(s) => Some(s),
            _ => None,
        }
    }

    /// The number, if this is an unsigned integer.
    pub fn as_unsigned(&self) -> (number: Option<u64>)
        ensures
            match number {
                Some(n) => self@ == JsonDoc::Unsigned(n),
                None => !(self@ is Unsigned),
            },
    {
        match self {
            Json::Unsigned(n) => Some(*n),
            _ => None,
        }
    }

    /// The items, if this is an array.
    pub fn as_array(&self) -> (items: Option<&Vec<Json>>)
        ensures
            match items {
                Some(list) => self@ == JsonDoc::Array(docs(list@)),
                None => !(self@ is Array),
            },
    {
        match self {
            Json::Array(list) => {
                assert(self@->Array_0 == docs(list@));
                Some(list)
            },
            _ => None,
        }
    }
}

/// The values of the trees of `items`.
pub open spec fn docs(items: Seq<Json>) -> Seq<JsonDoc> {
    items.map_values(|item: Json| item@)
}

} // verus!
