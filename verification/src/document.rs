//! JSON documents, as plain values.
use std::collections::BTreeMap;

use serde::de::IgnoredAny;
use serde_json::Value;
use vstd::prelude::*;

use crate::json::{
    BACKSLASH, CLOSE_BRACE, CLOSE_BRACKET, COLON, COMMA, OPEN_BRACE, OPEN_BRACKET, QUOTE,
};
use crate::text::text_is;

verus! {

/// A JSON document.
#[derive(Debug)]
pub enum Json {
    Null,
    Bool(bool),
    /// A number: its value where that is a `u64`, and how it is written.
    Number { unsigned: Option<u64>, text: String },
    Text(String),
    Array(Vec<Json>),
    Object(Vec<(String, Json)>),
}

/// [`Json`] over mathematical sequences.
pub enum JsonView {
    Null,
    Bool(bool),
    Number { unsigned: Option<u64>, text: Seq<char> },
    Text(Seq<char>),
    Array(Seq<JsonView>),
    Object(Seq<(Seq<char>, JsonView)>),
}

impl View for Json {
    type V = JsonView;

    open spec fn view(&self) -> JsonView
        decreases self,
    {
        match self {
            Json::Null => JsonView::Null,
            Json::Bool(b) => JsonView::Bool(*b),
            Json::Number { unsigned, text } => JsonView::Number {
                unsigned: *unsigned,
                text: text@,
            },
            Json::Text(s) => JsonView::Text(s@),
            Json::Array(items) => JsonView::Array(
                Seq::new(
                    items@.len(),
                    |i: int|
                        if 0 <= i < items@.len() {
                            items@[i].view()
                        } else {
                            JsonView::Null
                        },
                ),
            ),
            Json::Object(members) => JsonView::Object(
                Seq::new(
                    members@.len(),
                    |i: int|
                        if 0 <= i < members@.len() {
                            (members@[i].0@, members@[i].1.view())
                        } else {
                            (Seq::empty(), JsonView::Null)
                        },
                ),
            ),
        }
    }
}

/// The members of an object, as plain values.
pub open spec fn members_view(members: Seq<(String, Json)>) -> Seq<(Seq<char>, JsonView)> {
    members.map_values(|m: (String, Json)| (m.0@, m.1@))
}

/// The items of an array, as plain values.
pub open spec fn items_view(items: Seq<Json>) -> Seq<JsonView> {
    items.map_values(|item: Json| item@)
}

/// An object is its members, and an array its items.
pub proof fn lemma_json_view(json: Json)
    ensures
        json matches Json::Object(members) ==> json@ == JsonView::Object(members_view(members@)),
        json matches Json::Array(items) ==> json@ == JsonView::Array(items_view(items@)),
{
    reveal_with_fuel(<Json as View>::view, 2);
    match json {
        Json::Object(members) => {
            let all = members_view(members@);
            assert forall|i: int| 0 <= i < members@.len() implies json@->Object_0[i] == all[i] by {
                assert(all[i] == (members@[i].0@, members@[i].1@));
            }
            assert(json@->Object_0 =~= all);
        },
        Json::Array(items) => {
            let all = items_view(items@);
            assert forall|i: int| 0 <= i < items@.len() implies json@->Array_0[i] == all[i] by {
                assert(all[i] == items@[i]@);
            }
            assert(json@->Array_0 =~= all);
        },
        _ => {},
    }
}

/// The value of the first member called `name`.
pub open spec fn member(members: Seq<(Seq<char>, JsonView)>, name: Seq<char>) -> Option<JsonView>
    decreases members.len(),
{
    if members.len() == 0 {
        None
    } else if members[0].0 == name {
        Some(members[0].1)
    } else {
        member(members.drop_first(), name)
    }
}

/// A document that may be there, as plain values.
pub open spec fn optional_json(doc: Option<Json>) -> Option<JsonView> {
    match doc {
        Some(json) => Some(json@),
        None => None,
    }
}

/// A reference to a document that may be there, as plain values.
pub open spec fn optional_json_ref(doc: Option<&Json>) -> Option<JsonView> {
    match doc {
        Some(json) => Some(json@),
        None => None,
    }
}

/// `serde_json::Value`: any JSON value. Opaque here; [`json_tree`] names what it holds.
#[verifier::external_type_specification]
#[verifier::external_body]
pub struct ExValue(serde_json::Value);

/// What a `serde_json::Value` holds.
pub uninterp spec fn json_tree(value: serde_json::Value) -> JsonView;

/// What `serde_json::from_slice` reads in `bytes`: a document, or nothing where they are not one.
pub uninterp spec fn json_document(bytes: Seq<u8>) -> Option<JsonView>;

/// Calls `serde_json::from_slice` for a `serde_json::Value`. Which bytes are a document, and of
/// what, is left to that function; that it depends on the bytes alone is claimed here.
#[verifier::external_body]
fn read_value(bytes: &[u8]) -> (r: Result<Value, serde_json::Error>)
    ensures
        r is Ok ==> json_document(bytes@) == Some(json_tree(r->Ok_0)),
        r is Err ==> json_document(bytes@) is None,
{
    serde_json::from_slice(bytes)
}

/// One level of a `serde_json::Value`.
enum Level<'a> {
    Null,
    Bool(bool),
    Number { unsigned: Option<u64>, text: String },
    Text(String),
    Array(&'a Vec<Value>),
    Object(Vec<(&'a String, &'a Value)>),
}

/// Takes the variants of `serde_json::Value` apart, with `Number::as_u64`, the `Display` of
/// `Number` and `Map::iter` for what two of them hold: the result shows one level of what the
/// value holds, and the values below that level.
#[verifier::external_body]
fn open_value(value: &Value) -> (r: Level<'_>)
    ensures
        match r {
            Level::Null => json_tree(*value) == JsonView::Null,
            Level::Bool(b) => json_tree(*value) == JsonView::Bool(b),
            Level::Number { unsigned, text } => json_tree(*value) == (JsonView::Number {
                unsigned,
                text: text@,
            }),
            Level::Text(s) => json_tree(*value) == JsonView::Text(s@),
            Level::Array(items) => {
                &&& json_tree(*value) is Array
                &&& json_tree(*value)->Array_0.len() == items@.len()
                &&& forall|i: int|
                    0 <= i < items@.len() ==> json_tree(#[trigger] items@[i]) == json_tree(
                        *value,
                    )->Array_0[i]
            },
            Level::Object(members) => {
                &&& json_tree(*value) is Object
                &&& json_tree(*value)->Object_0.len() == members@.len()
                &&& forall|i: int|
                    0 <= i < members@.len() ==> json_tree(*value)->Object_0[i] == (
                        (#[trigger] members@[i]).0@,
                        json_tree(*members@[i].1),
                    )
            },
        },
{
    match value {
        Value::Null => Level::Null,
        Value::Bool(b) => Level::Bool(*b),
        Value::Number(n) => Level::Number { unsigned: n.as_u64(), text: n.to_string() },
        Value::String(s) => Level::Text(s.clone()),
        Value::Array(items) => Level::Array(items),
        Value::Object(members) => Level::Object(members.iter().collect()),
    }
}

/// What `value` holds, as a document of the library.
fn json_of(value: &Value) -> (r: Json)
    ensures
        r@ == json_tree(*value),
    decreases json_tree(*value),
{
    match open_value(value) {
        Level::Null => Json::Null,
        Level::Bool(b) => Json::Bool(b),
        Level::Number { unsigned, text } => Json::Number { unsigned, text },
        Level::Text(s) => Json::Text(s),
        Level::Array(items) => {
            let ghost tree = json_tree(*value);
            let mut list: Vec<Json> = Vec::new();
            for i in 0..items.len()
                invariant
                    tree == json_tree(*value),
                    tree is Array,
                    tree->Array_0.len() == items@.len(),
                    forall|j: int|
                        0 <= j < items@.len() ==> json_tree(#[trigger] items@[j])
                            == tree->Array_0[j],
                    list@.len() == i,
                    forall|j: int| 0 <= j < i ==> (#[trigger] list@[j])@ == tree->Array_0[j],
            {
                let item = json_of(&items[i]);
                list.push(item);
            }
            let r = Json::Array(list);
            assert(r@->Array_0 =~= tree->Array_0);
            r
        },
        Level::Object(members) => {
            let ghost tree = json_tree(*value);
            let mut list: Vec<(String, Json)> = Vec::new();
            for i in 0..members.len()
                invariant
                    tree == json_tree(*value),
                    tree is Object,
                    tree->Object_0.len() == members@.len(),
                    forall|j: int|
                        0 <= j < members@.len() ==> tree->Object_0[j] == (
                            (#[trigger] members@[j]).0@,
                            json_tree(*members@[j].1),
                        ),
                    list@.len() == i,
                    forall|j: int|
                        0 <= j < i ==> ((#[trigger] list@[j]).0@, list@[j].1@)
                            == tree->Object_0[j],
            {
                let name = members[i].0.clone();
                assert(decreases_to!(tree->Object_0[i as int] => tree->Object_0[i as int].1));
                let item = json_of(members[i].1);
                list.push((name, item));
            }
            let r = Json::Object(list);
            assert(r@->Object_0 =~= tree->Object_0);
            r
        },
    }
}

/// Reads `bytes` as one JSON document; `None` where they are not one.
pub fn read_json(bytes: &[u8]) -> (r: Option<Json>)
    ensures
        optional_json(r) == json_document(bytes@),
{
    match read_value(bytes) {
        Ok(value) => Some(json_of(&value)),
        Err(_) => None,
    }
}

/// The value of the first member called `name`.
pub fn find_member<'a>(members: &'a Vec<(String, Json)>, name: &str) -> (r: Option<&'a Json>)
    ensures
        optional_json_ref(r) == member(members_view(members@), name@),
{
    let ghost all = members_view(members@);
    assert(all.skip(0) =~= all);
    for i in 0..members.len()
        invariant
            all == members_view(members@),
            member(all, name@) == member(all.skip(i as int), name@),
    {
        assert(all[i as int] == (members@[i as int].0@, members@[i as int].1@));
        if text_is(&members[i].0, name) {
            return Some(&members[i].1);
        }
        assert(all.skip(i as int).drop_first() =~= all.skip(i + 1));
    }
    None
}

// ---------------------------------------------------------------------------
// Members as they are written
// ---------------------------------------------------------------------------

/// `serde_json::from_slice` reads `bytes` as one object whose member names are texts, without
/// taking the values of the members apart.
pub uninterp spec fn is_object_text(bytes: Seq<u8>) -> bool;

/// Calls `serde_json::from_slice` for a map from texts to `serde::de::IgnoredAny`, which steps over
/// values without building them: what would not fit a value, such as a number out of range, is no
/// obstacle there. Which bytes it takes is left to that function; that this depends on the bytes
/// alone is claimed here.
#[verifier::external_body]
pub(crate) fn skim_object(bytes: &[u8]) -> (r: bool)
    ensures
        r == is_object_text(bytes@),
{
    serde_json::from_slice::<BTreeMap<String, IgnoredAny>>(bytes).is_ok()
}

/// Where a walk over the text of an object stands. A position counts as "right inside" where only
/// the outermost object is open.
pub struct Cursor {
    /// How many arrays and objects are open.
    pub depth: nat,
    /// Inside a text.
    pub in_text: bool,
    /// Behind a backslash in a text.
    pub escaped: bool,
    /// Where the latest text right inside begins and ends.
    pub start: int,
    pub end: int,
    /// Where the name of the member at hand begins and ends.
    pub name_start: int,
    pub name_end: int,
    /// Where the value of the member at hand begins; zero between members.
    pub value: int,
}

impl Cursor {
    /// The byte `b` ends the member at hand: the comma behind it, or the closing brace.
    pub open spec fn ends_member(self, b: u8) -> bool {
        &&& !self.in_text
        &&& self.depth == 1
        &&& self.value > 0
        &&& b == COMMA || b == CLOSE_BRACE
    }

    /// Where the walk stands after the byte `b` at the position `i`.
    pub open spec fn after(self, i: int, b: u8) -> Cursor {
        if self.in_text {
            if self.escaped {
                Cursor { escaped: false, ..self }
            } else if b == BACKSLASH {
                Cursor { escaped: true, ..self }
            } else if b == QUOTE {
                Cursor {
                    in_text: false,
                    end: if self.depth == 1 {
                        i + 1
                    } else {
                        self.end
                    },
                    ..self
                }
            } else {
                self
            }
        } else if b == QUOTE {
            Cursor {
                in_text: true,
                start: if self.depth == 1 {
                    i
                } else {
                    self.start
                },
                ..self
            }
        } else if b == OPEN_BRACE || b == OPEN_BRACKET {
            Cursor { depth: self.depth + 1, ..self }
        } else if b == CLOSE_BRACE || b == CLOSE_BRACKET {
            Cursor {
                depth: if self.depth > 0 {
                    (self.depth - 1) as nat
                } else {
                    0
                },
                value: if self.ends_member(b) {
                    0
                } else {
                    self.value
                },
                ..self
            }
        } else if b == COMMA && self.depth == 1 {
            Cursor { value: 0, ..self }
        } else if b == COLON && self.depth == 1 {
            Cursor { name_start: self.start, name_end: self.end, value: i + 1, ..self }
        } else {
            self
        }
    }
}

/// Where the walk over `text` stands before the position `n`.
pub open spec fn cursor_at(text: Seq<u8>, n: int) -> Cursor
    decreases n,
{
    if n <= 0 {
        Cursor {
            depth: 0,
            in_text: false,
            escaped: false,
            start: 0,
            end: 0,
            name_start: 0,
            name_end: 0,
            value: 0,
        }
    } else {
        cursor_at(text, n - 1).after(n - 1, text[n - 1])
    }
}

/// The values of the members called `name` that end before the position `n` of the text of an
/// object, as they are written and in their order.
pub open spec fn values_written(text: Seq<u8>, n: int, name: Seq<char>) -> Seq<Seq<u8>>
    decreases n,
{
    if n <= 0 {
        Seq::empty()
    } else {
        let before = values_written(text, n - 1, name);
        let cursor = cursor_at(text, n - 1);
        if cursor.ends_member(text[n - 1]) && json_document(
            text.subrange(cursor.name_start, cursor.name_end),
        ) == Some(JsonView::Text(name)) {
            before.push(text.subrange(cursor.value, n - 1))
        } else {
            before
        }
    }
}

/// The texts behind a list of slices.
pub open spec fn slices_view(slices: Seq<&[u8]>) -> Seq<Seq<u8>> {
    slices.map_values(|s: &[u8]| s@)
}

/// Is this a text that reads `name`?
fn reads_as(bytes: &[u8], name: &str) -> (r: bool)
    ensures
        r == (json_document(bytes@) == Some(JsonView::Text(name@))),
{
    match read_json(bytes) {
        Some(Json::Text(s)) => text_is(&s, name),
        _ => false,
    }
}

/// Finds the values of the members called `name` in the text of an object, as they are written.
pub fn find_values<'a>(text: &'a [u8], name: &str) -> (r: Vec<&'a [u8]>)
    ensures
        slices_view(r@) == values_written(text@, text@.len() as int, name@),
{
    let mut found: Vec<&'a [u8]> = Vec::new();
    let mut depth: usize = 0;
    let mut in_text: bool = false;
    let mut escaped: bool = false;
    let mut start: usize = 0;
    let mut end: usize = 0;
    let mut name_start: usize = 0;
    let mut name_end: usize = 0;
    let mut value: usize = 0;
    assert(slices_view(found@) =~= Seq::empty());
    for i in 0..text.len()
        invariant
            cursor_at(text@, i as int) == (Cursor {
                depth: depth as nat,
                in_text,
                escaped,
                start: start as int,
                end: end as int,
                name_start: name_start as int,
                name_end: name_end as int,
                value: value as int,
            }),
            slices_view(found@) == values_written(text@, i as int, name@),
            depth <= i,
            start <= i,
            end <= i,
            in_text && depth == 1 || start <= end,
            name_start <= name_end <= i,
            value <= i,
    {
        let b = text[i];
        let ghost cursor = cursor_at(text@, i as int);
        let ghost before = found@;
        if in_text {
            if escaped {
                escaped = false;
            } else if b == BACKSLASH {
                escaped = true;
            } else if b == QUOTE {
                in_text = false;
                if depth == 1 {
                    end = i + 1;
                }
            }
        } else if b == QUOTE {
            in_text = true;
            if depth == 1 {
                start = i;
            }
        } else if depth == 1 && value > 0 && (b == COMMA || b == CLOSE_BRACE) {
            if reads_as(vstd::slice::slice_subrange(text, name_start, name_end), name) {
                found.push(vstd::slice::slice_subrange(text, value, i));
                assert(slices_view(found@) =~= slices_view(before).push(
                    text@.subrange(cursor.value, i as int),
                ));
            }
            value = 0;
            if b == CLOSE_BRACE {
                depth = 0;
            }
        } else if b == OPEN_BRACE || b == OPEN_BRACKET {
            depth += 1;
        } else if b == CLOSE_BRACE || b == CLOSE_BRACKET {
            if depth > 0 {
                depth -= 1;
            }
        } else if b == COLON && depth == 1 {
            name_start = start;
            name_end = end;
            value = i + 1;
        }
    }
    found
}

/// A document of the library holds what it is made of.
pub proof fn law_documents_hold_their_parts(json: Json)
    ensures
        json is Null <==> json@ is Null,
        json matches Json::Bool(b) ==> json@ == JsonView::Bool(b),
        json matches Json::Number { unsigned, text } ==> json@ == (JsonView::Number {
            unsigned,
            text: text@,
        }),
        json matches Json::Text(s) ==> json@ == JsonView::Text(s@),
        json matches Json::Array(items) ==> json@ is Array && json@->Array_0.len() == items@.len()
            && forall|i: int|
            0 <= i < items@.len() ==> json@->Array_0[i] == (#[trigger] items@[i])@,
        json matches Json::Object(members) ==> json@ is Object && json@->Object_0.len()
            == members@.len() && forall|i: int|
            0 <= i < members@.len() ==> json@->Object_0[i].0 == (#[trigger] members@[i]).0@
                && json@->Object_0[i].1 == members@[i].1@,
{
    lemma_json_view(json);
    match json {
        Json::Object(members) => {
            let all = members_view(members@);
            assert forall|i: int| 0 <= i < members@.len() implies all[i].0 == (
            #[trigger] members@[i]).0@ && all[i].1 == members@[i].1@ by {}
        },
        Json::Array(items) => {
            let all = items_view(items@);
            assert forall|i: int| 0 <= i < items@.len() implies all[i] == (
            #[trigger] items@[i])@ by {}
        },
        _ => {},
    }
}

} // verus!
