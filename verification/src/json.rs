//! JSON documents as plain data.

use vstd::prelude::*;
use vstd::string::*;

verus! {

/// A JSON document. A number keeps no payload: nothing in this crate reads one.
#[derive(Debug, PartialEq, Eq)]
pub enum Json {
    Null,
    Bool(bool),
    Number,
    Text(String),
    List(Vec<Json>),
    Record(Vec<Member>),
}

/// One `key: value` entry of a JSON object.
#[derive(Debug, PartialEq, Eq)]
pub struct Member {
    pub key: String,
    pub value: Json,
}

/// The mathematical value of a [`Json`].
pub enum JsonView {
    Null,
    Bool(bool),
    Number,
    Text(Seq<char>),
    List(Seq<JsonView>),
    Record(Seq<(Seq<char>, JsonView)>),
}

impl View for Json {
    type V = JsonView;

    open spec fn view(&self) -> JsonView
        decreases self,
    {
        match self {
            Json::Null => JsonView::Null,
            Json::Bool(b) => JsonView::Bool(*b),
            Json::Number => JsonView::Number,
            Json::Text(s) => JsonView::Text(s@),
            Json::List(items) => JsonView::List(
                Seq::new(
                    items@.len(),
                    |i: int|
                        if 0 <= i < items@.len() {
                            items@[i].view()
                        } else {
                            JsonView::Null
                        },
                ),
            ),
            Json::Record(members) => JsonView::Record(
                Seq::new(
                    members@.len(),
                    |i: int|
                        if 0 <= i < members@.len() {
                            (members@[i].key@, members@[i].value.view())
                        } else {
                            (Seq::empty(), JsonView::Null)
                        },
                ),
            ),
        }
    }
}

/// The `key: value` entries that the view of an object holds.
pub open spec fn members_view(members: Seq<Member>) -> Seq<(Seq<char>, JsonView)> {
    Seq::new(
        members.len(),
        |i: int|
            if 0 <= i < members.len() {
                (members[i].key@, members[i].value@)
            } else {
                (Seq::empty(), JsonView::Null)
            },
    )
}

/// The value of the first entry at or after position `from` whose key is `key`.
pub open spec fn member_from(members: Seq<(Seq<char>, JsonView)>, key: Seq<char>, from: int) -> Option<
    JsonView,
>
    decreases members.len() - from,
{
    if from < 0 || from >= members.len() {
        None
    } else if members[from].0 == key {
        Some(members[from].1)
    } else {
        member_from(members, key, from + 1)
    }
}

/// The value under `key` where `doc` is an object that has the key.
pub open spec fn field(doc: JsonView, key: Seq<char>) -> Option<JsonView> {
    match doc {
        JsonView::Record(members) => member_from(members, key, 0),
        _ => None,
    }
}

/// The string under `key` where `doc` is an object that holds a string there.
pub open spec fn text_field(doc: JsonView, key: Seq<char>) -> Option<Seq<char>> {
    match field(doc, key) {
        Some(JsonView::Text(s)) => Some(s),
        _ => None,
    }
}

/// The items under `key` where `doc` is an object that holds an array there.
pub open spec fn list_field(doc: JsonView, key: Seq<char>) -> Option<Seq<JsonView>> {
    match field(doc, key) {
        Some(JsonView::List(items)) => Some(items),
        _ => None,
    }
}

impl Json {
    /// The value under `key`, where this is an object that has the key. Of two
    /// entries with one key the first is read.
    pub fn get(&self, key: &str) -> (r: Option<&Json>)
        ensures
            r matches Some(v) ==> field(self@, key@) == Some(v@),
            r is None ==> field(self@, key@) is None,
    {
        match self {
            Json::Record(members) => {
                let wanted = String::from_str(key);
                let ghost entries = members_view(members@);
                assert(self@ == JsonView::Record(entries)) by {
                    assert(self@->Record_0.len() == members@.len());
                    assert(self@->Record_0 =~= entries);
                }
                let mut i: usize = 0;
                while i < members.len()
                    invariant
                        i <= members.len(),
                        wanted@ == key@,
                        entries == members_view(members@),
                        self@ == JsonView::Record(entries),
                        member_from(entries, key@, 0) == member_from(entries, key@, i as int),
                    decreases members.len() - i,
                {
                    if members[i].key == wanted {
                        return Some(&members[i].value);
                    }
                    i += 1;
                }
                None
            },
            _ => None,
        }
    }

    /// The string that this value is, where it is one.
    pub fn as_str(&self) -> (r: Option<&str>)
        ensures
            r matches Some(s) ==> self@ == JsonView::Text(s@),
            r is None ==> !(self@ is Text),
    {
        match self {
            Json::Text(s) => Some(s.as_str()),
            _ => None,
        }
    }

    /// The items of this value, where it is an array.
    pub fn as_array(&self) -> (r: Option<&Vec<Json>>)
        ensures
            r matches Some(items) ==> self@ == JsonView::List(items_view(items@)),
            r is None ==> !(self@ is List),
    {
        match self {
            Json::List(items) => {
                assert(self@->List_0 =~= items_view(items@));
                Some(items)
            },
            _ => None,
        }
    }
}

/// The values of the items of an array, position by position.
pub open spec fn items_view(items: Seq<Json>) -> Seq<JsonView> {
    Seq::new(items.len(), |i: int| items[i]@)
}

/// `serde_json::Value`, carried as it is: what it holds is told by
/// [`value_tree`] alone.
#[verifier::external_type_specification]
#[verifier::external_body]
pub struct ExValue(serde_json::Value);

/// What `serde_json` reads out of `body`: `None` where it is not one JSON
/// document.
pub uninterp spec fn json_document(body: Seq<u8>) -> Option<JsonView>;

/// The document that a `serde_json::Value` holds.
pub uninterp spec fn value_tree(value: serde_json::Value) -> JsonView;

/// The top of a `serde_json::Value`: its variant, with what stands directly
/// below it.
enum Parts<'a> {
    Null,
    Bool(bool),
    Number,
    Text(&'a str),
    List(&'a Vec<serde_json::Value>),
    Record(Vec<(&'a String, &'a serde_json::Value)>),
}

/// The document that the parts of a value make up.
spec fn parts_tree(parts: Parts<'_>) -> JsonView {
    match parts {
        Parts::Null => JsonView::Null,
        Parts::Bool(b) => JsonView::Bool(b),
        Parts::Number => JsonView::Number,
        Parts::Text(s) => JsonView::Text(s@),
        Parts::List(items) => JsonView::List(
            Seq::new(items@.len(), |i: int| value_tree(items@[i])),
        ),
        Parts::Record(members) => JsonView::Record(
            Seq::new(members@.len(), |i: int| ((*members@[i].0)@, value_tree(*members@[i].1))),
        ),
    }
}

/// `serde_json::from_slice`, read as a `serde_json::Value`: the value holds
/// the document of `body`, and there is none where `body` holds no document.
#[verifier::external_body]
fn parse_value(body: &[u8]) -> (r: Option<serde_json::Value>)
    ensures
        r matches Some(value) ==> json_document(body@) == Some(value_tree(value)),
        r is None ==> json_document(body@) is None,
{
    serde_json::from_slice::<serde_json::Value>(body).ok()
}

/// Takes a `serde_json::Value` apart by its variant. An array gives its
/// items, an object its entries in the order in which its map hands them out.
#[verifier::external_body]
fn value_parts<'a>(value: &'a serde_json::Value) -> (r: Parts<'a>)
    ensures
        parts_tree(r) == value_tree(*value),
{
    match value {
        serde_json::Value::Null => Parts::Null,
        serde_json::Value::Bool(b) => Parts::Bool(*b),
        serde_json::Value::Number(_) => Parts::Number,
        serde_json::Value::String(s) => Parts::Text(s.as_str()),
        serde_json::Value::Array(items) => Parts::List(items),
        serde_json::Value::Object(members) => Parts::Record(members.iter().collect()),
    }
}

/// The document that `value` holds, as a [`Json`].
fn json_from_value(value: &serde_json::Value) -> (r: Json)
    ensures
        r@ == value_tree(*value),
    decreases value_tree(*value),
{
    match value_parts(value) {
        Parts::Null => Json::Null,
        Parts::Bool(b) => Json::Bool(b),
        Parts::Number => Json::Number,
        Parts::Text(s) => Json::Text(String::from_str(s)),
        Parts::List(items) => {
            let ghost below = value_tree(*value)->List_0;
            let mut out: Vec<Json> = Vec::new();
            let mut i: usize = 0;
            while i < items.len()
                invariant
                    i <= items.len(),
                    out@.len() == i,
                    value_tree(*value) == JsonView::List(below),
                    below.len() == items@.len(),
                    forall|k: int| 0 <= k < below.len() ==> below[k] == value_tree(items@[k]),
                    forall|k: int| 0 <= k < i ==> (#[trigger] out@[k])@ == below[k],
                decreases items.len() - i,
            {
                proof {
                    let tree = value_tree(*value);
                    assert(decreases_to!(tree => tree->List_0));
                    assert(decreases_to!(tree->List_0 => tree->List_0[i as int]));
                    assert(tree->List_0[i as int] == value_tree(items@[i as int]));
                }
                let item = json_from_value(&items[i]);
                out.push(item);
                i += 1;
            }
            let r = Json::List(out);
            assert(r@->List_0 =~= below);
            r
        },
        Parts::Record(members) => {
            let ghost below = value_tree(*value)->Record_0;
            let mut out: Vec<Member> = Vec::new();
            let mut i: usize = 0;
            while i < members.len()
                invariant
                    i <= members.len(),
                    out@.len() == i,
                    value_tree(*value) == JsonView::Record(below),
                    below.len() == members@.len(),
                    forall|k: int|
                        0 <= k < below.len() ==> below[k] == (
                            (*members@[k].0)@,
                            value_tree(*members@[k].1),
                        ),
                    forall|k: int|
                        0 <= k < i ==> ((#[trigger] out@[k]).key@, out@[k].value@) == below[k],
                decreases members.len() - i,
            {
                proof {
                    let tree = value_tree(*value);
                    assert(decreases_to!(tree => tree->Record_0));
                    assert(decreases_to!(tree->Record_0 => tree->Record_0[i as int]));
                    assert(decreases_to!(tree->Record_0[i as int] => tree->Record_0[i as int].1));
                    assert(tree->Record_0[i as int].1 == value_tree(*members@[i as int].1));
                }
                let key = String::from_str(members[i].0.as_str());
                let item = json_from_value(members[i].1);
                out.push(Member { key, value: item });
                i += 1;
            }
            let r = Json::Record(out);
            assert(r@->Record_0 =~= below);
            r
        },
    }
}

/// Reads `body` as one JSON document.
pub fn parse_json(body: &[u8]) -> (r: Option<Json>)
    ensures
        r matches Some(doc) ==> json_document(body@) == Some(doc@),
        r is None ==> json_document(body@) is None,
{
    match parse_value(body) {
        Some(value) => Some(json_from_value(&value)),
        None => None,
    }
}

} // verus!
