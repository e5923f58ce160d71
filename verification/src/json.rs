//! JSON values as the library holds them, and their text form.

use crate::text::free_of_line_feeds;
use serde_json::Value;
use vstd::prelude::*;
use vstd::string::*;

verus! {

/// A JSON number. An integer of 64 bits is held by its value. Any other
/// number is held as `serde_json` holds it, and is only carried through.
#[derive(Debug, PartialEq, Eq)]
pub enum JsonNumber {
    /// A non-negative integer.
    PosInt(u64),
    /// A negative integer.
    NegInt(i64),
    /// A number that is no 64-bit integer.
    Float(serde_json::Number),
}

/// A JSON value.
#[derive(Debug, PartialEq, Eq)]
pub enum JsonValue {
    Null,
    Bool(bool),
    Number(JsonNumber),
    Str(String),
    Array(Vec<JsonValue>),
    Object(Vec<(String, JsonValue)>),
}

/// The mathematical form of a [`JsonNumber`].
pub enum NumberView {
    Int(int),
    Float(serde_json::Number),
}

/// The mathematical form of a [`JsonValue`].
pub enum JsonView {
    Null,
    Bool(bool),
    Number(NumberView),
    Str(Seq<char>),
    Array(Seq<JsonView>),
    Object(Seq<(Seq<char>, JsonView)>),
}

impl View for JsonNumber {
    type V = NumberView;

    open spec fn view(&self) -> NumberView {
        match self {
            JsonNumber::PosInt(n) => NumberView::Int(*n as int),
            JsonNumber::NegInt(n) => NumberView::Int(*n as int),
            JsonNumber::Float(n) => NumberView::Float(*n),
        }
    }
}

impl JsonValue {
    /// The mathematical value that this value stands for.
    pub open spec fn model(&self) -> JsonView
        decreases self,
    {
        match self {
            JsonValue::Null => JsonView::Null,
            JsonValue::Bool(b) => JsonView::Bool(*b),
            JsonValue::Number(n) => JsonView::Number(n@),
            JsonValue::Str(s) => JsonView::Str(s@),
            JsonValue::Array(items) => JsonView::Array(
                Seq::new(
                    items.len() as nat,
                    |i: int|
                        if 0 <= i < items.len() {
                            items[i].model()
                        } else {
                            JsonView::Null
                        },
                ),
            ),
            JsonValue::Object(members) => JsonView::Object(
                Seq::new(
                    members.len() as nat,
                    |i: int|
                        if 0 <= i < members.len() {
                            (members[i].0@, members[i].1.model())
                        } else {
                            (Seq::empty(), JsonView::Null)
                        },
                ),
            ),
        }
    }
}

impl View for JsonValue {
    type V = JsonView;

    open spec fn view(&self) -> JsonView {
        self.model()
    }
}

/// The views of the members of an object.
pub open spec fn members_view(members: Seq<(String, JsonValue)>) -> Seq<(Seq<char>, JsonView)> {
    Seq::new(members.len(), |i: int| (members[i].0@, members[i].1@))
}

/// The views of the items of an array.
pub open spec fn items_view(items: Seq<JsonValue>) -> Seq<JsonView> {
    Seq::new(items.len(), |i: int| items[i]@)
}

/// The view of an object is the object of its members' views.
pub proof fn lemma_object_view(members: Vec<(String, JsonValue)>)
    ensures
        JsonValue::Object(members)@ == JsonView::Object(members_view(members@)),
{
    assert(JsonValue::Object(members)@->Object_0 =~= members_view(members@));
}

/// The view of an array is the array of its items' views.
pub proof fn lemma_array_view(items: Vec<JsonValue>)
    ensures
        JsonValue::Array(items)@ == JsonView::Array(items_view(items@)),
{
    assert(JsonValue::Array(items)@->Array_0 =~= items_view(items@));
}

/// The JSON string `s`.
pub fn json_str(s: &str) -> (out: JsonValue)
    ensures
        out@ == JsonView::Str(s@),
{
    JsonValue::Str(s.to_owned())
}

/// The JSON value of an optional string: the string, or `null`.
pub open spec fn opt_str_json(s: Option<String>) -> JsonView {
    match s {
        Some(t) => JsonView::Str(t@),
        None => JsonView::Null,
    }
}

/// The JSON value of an optional string: the string, or `null`.
pub fn json_opt_str(s: &Option<String>) -> (out: JsonValue)
    ensures
        out@ == opt_str_json(*s),
{
    match s {
        Some(t) => JsonValue::Str(t.clone()),
        None => JsonValue::Null,
    }
}

/// The JSON value of an optional boolean: the boolean, or `null`.
pub open spec fn opt_bool_json(b: Option<bool>) -> JsonView {
    match b {
        Some(v) => JsonView::Bool(v),
        None => JsonView::Null,
    }
}

/// The JSON value of an optional boolean: the boolean, or `null`.
pub fn json_opt_bool(b: &Option<bool>) -> (out: JsonValue)
    ensures
        out@ == opt_bool_json(*b),
{
    match b {
        Some(v) => JsonValue::Bool(*v),
        None => JsonValue::Null,
    }
}

/// The JSON array of the strings `v`.
pub open spec fn strings_json(v: Seq<String>) -> JsonView {
    JsonView::Array(Seq::new(v.len(), |i: int| JsonView::Str(v[i]@)))
}

/// The JSON array of the strings `v`.
pub fn json_strings(v: &Vec<String>) -> (out: JsonValue)
    ensures
        out@ == strings_json(v@),
{
    let mut items: Vec<JsonValue> = Vec::new();
    let mut i: usize = 0;
    while i < v.len()
        invariant
            i <= v.len(),
            items.len() == i,
            forall|j: int| 0 <= j < i ==> items@[j]@ == JsonView::Str(v@[j]@),
        decreases v.len() - i,
    {
        items.push(JsonValue::Str(v[i].clone()));
        i += 1;
    }
    proof {
        lemma_array_view(items);
        assert(items_view(items@) =~= Seq::new(v@.len(), |i: int| JsonView::Str(v@[i]@)));
    }
    JsonValue::Array(items)
}

/// Appends the member `key: value` to the members of an object.
pub fn push_member(members: &mut Vec<(String, JsonValue)>, key: &str, value: JsonValue)
    ensures
        members_view(final(members)@) == members_view(old(members)@).push((key@, value@)),
{
    members.push((key.to_owned(), value));
    assert(members_view(members@) =~= members_view(old(members)@).push((key@, value@)));
}

/// The JSON object with the given members.
pub fn json_object(members: Vec<(String, JsonValue)>) -> (out: JsonValue)
    ensures
        out@ == JsonView::Object(members_view(members@)),
{
    proof {
        lemma_object_view(members);
    }
    JsonValue::Object(members)
}

/// `serde_json::Value`, as it goes into and comes out of `serde_json`.
#[verifier::external_type_specification]
#[verifier::external_body]
pub struct ExJsonValue(serde_json::Value);

/// `serde_json::Error`, carried from the call to the place where its text
/// is taken.
#[verifier::external_type_specification]
#[verifier::external_body]
pub struct ExJsonError(serde_json::Error);

/// `serde_json::Number`, as it stands inside a `serde_json::Value`.
#[verifier::external_type_specification]
#[verifier::external_body]
pub struct ExJsonNumber(serde_json::Number);

/// What `serde_json::from_str` returns for `text` at `serde_json::Value`:
/// the value that the text stands for, `None` where the text is no valid
/// JSON. An object is held with its members in the order of their keys,
/// each key once.
pub uninterp spec fn parsed_json(text: Seq<char>) -> Option<JsonView>;

/// What `serde_json::to_string` returns for the `serde_json::Value` with
/// the content `value`: its compact JSON text. The members of an object
/// are written in the order of their keys, whatever their order in `value`.
pub uninterp spec fn json_text(value: JsonView) -> Seq<char>;

/// Whether a member has another key than `key`.
pub open spec fn has_other_key(key: Seq<char>) -> spec_fn((Seq<char>, JsonView)) -> bool {
    |m: (Seq<char>, JsonView)| m.0 != key
}

/// Of members with the same key only the last one, the others as they
/// stand.
pub open spec fn last_members(members: Seq<(Seq<char>, JsonView)>) -> Seq<(Seq<char>, JsonView)>
    decreases members.len(),
{
    if members.len() == 0 {
        members
    } else {
        last_members(members.drop_last()).filter(has_other_key(members.last().0)).push(
            members.last(),
        )
    }
}

/// Whether no two of `members` have the same key.
pub open spec fn has_unique_keys(members: Seq<(Seq<char>, JsonView)>) -> bool {
    forall|i: int, j: int| 0 <= i < j < members.len() ==> members[i].0 != members[j].0
}

proof fn lemma_filter_keeps_other_keys(members: Seq<(Seq<char>, JsonView)>, key: Seq<char>)
    requires
        forall|i: int| 0 <= i < members.len() ==> members[i].0 != key,
    ensures
        members.filter(has_other_key(key)) == members,
    decreases members.len(),
{
    reveal(Seq::filter);
    if members.len() > 0 {
        lemma_filter_keeps_other_keys(members.drop_last(), key);
        assert(members.drop_last().push(members.last()) =~= members);
    }
}

/// Members with unique keys are written as they stand: none is left out.
pub proof fn law_unique_members_are_all_written(members: Seq<(Seq<char>, JsonView)>)
    requires
        has_unique_keys(members),
    ensures
        last_members(members) == members,
    decreases members.len(),
{
    if members.len() > 0 {
        let rest = members.drop_last();
        law_unique_members_are_all_written(rest);
        lemma_filter_keeps_other_keys(rest, members.last().0);
        assert(rest.push(members.last()) =~= members);
    }
}

impl JsonView {
    /// The value that is written for this one: in every object, of the
    /// members with the same key only the last one counts.
    pub open spec fn written(self) -> JsonView
        decreases self,
    {
        match self {
            JsonView::Array(items) => JsonView::Array(
                Seq::new(
                    items.len(),
                    |i: int|
                        if 0 <= i < items.len() {
                            items[i].written()
                        } else {
                            JsonView::Null
                        },
                ),
            ),
            JsonView::Object(members) => JsonView::Object(
                last_members(
                    Seq::new(
                        members.len(),
                        |i: int|
                            if 0 <= i < members.len() {
                                (members[i].0, members[i].1.written())
                            } else {
                                (Seq::empty(), JsonView::Null)
                            },
                    ),
                ),
            ),
            _ => self,
        }
    }
}

/// Moves a `serde_json::Number` into a [`JsonNumber`]: an integer by its
/// value, any other number as it is.
#[verifier::external_body]
fn number_from_serde(number: &serde_json::Number) -> JsonNumber {
    match (number.as_u64(), number.as_i64()) {
        (Some(u), _) => JsonNumber::PosInt(u),
        (_, Some(i)) => JsonNumber::NegInt(i),
        _ => JsonNumber::Float(number.clone()),
    }
}

/// Moves a [`JsonNumber`] into a `serde_json::Value`.
#[verifier::external_body]
fn number_to_serde(number: &JsonNumber) -> Value {
    match number {
        JsonNumber::PosInt(u) => Value::from(*u),
        JsonNumber::NegInt(i) => Value::from(*i),
        JsonNumber::Float(n) => Value::Number(n.clone()),
    }
}

/// Moves a `serde_json::Value` into a [`JsonValue`], variant by variant.
#[verifier::external_body]
fn from_serde(value: &Value) -> JsonValue {
    match value {
        Value::Null => JsonValue::Null,
        Value::Bool(b) => JsonValue::Bool(*b),
        Value::Number(n) => JsonValue::Number(number_from_serde(n)),
        Value::String(s) => JsonValue::Str(s.clone()),
        Value::Array(a) => JsonValue::Array(a.iter().map(from_serde).collect()),
        Value::Object(o) => JsonValue::Object(
            o.iter().map(|(k, v)| (k.clone(), from_serde(v))).collect(),
        ),
    }
}

/// Moves the members of an object into a `serde_json::Map`, each with
/// `Map::insert`, in their order. `Map::insert` updates the value of a key
/// that is present, so that of members with the same key the last one
/// stays.
#[verifier::external_body]
fn members_to_serde(members: &Vec<(String, JsonValue)>) -> Value {
    let mut map = serde_json::Map::new();
    for (key, value) in members {
        map.insert(key.clone(), to_serde(value));
    }
    Value::Object(map)
}

/// Moves a [`JsonValue`] into a `serde_json::Value`, variant by variant.
#[verifier::external_body]
fn to_serde(value: &JsonValue) -> Value {
    match value {
        JsonValue::Null => Value::Null,
        JsonValue::Bool(b) => Value::Bool(*b),
        JsonValue::Number(n) => number_to_serde(n),
        JsonValue::Str(s) => Value::String(s.clone()),
        JsonValue::Array(a) => Value::Array(a.iter().map(to_serde).collect()),
        JsonValue::Object(o) => members_to_serde(o),
    }
}

/// `serde_json::from_str` at `serde_json::Value`: the parsed value when the
/// text is valid JSON, the parser's error when it is not.
#[verifier::external_body]
pub(crate) fn parse_value(text: &str) -> (out: Result<JsonValue, serde_json::Error>)
    ensures
        match out {
            Ok(value) => parsed_json(text@) == Some(value@),
            Err(_) => parsed_json(text@) is None,
        },
{
    serde_json::from_str::<Value>(text).map(|value| from_serde(&value))
}

/// `serde_json::to_string` on the `serde_json::Value` that `value` stands
/// for, whose objects hold for each key the last member of that key. A
/// `serde_json::Value` is always written: its keys are strings and its
/// numbers are finite. The text is compact and holds no line feed: a line
/// feed inside a string is written as an escape.
#[verifier::external_body]
pub(crate) fn write_value(value: &JsonValue) -> (out: Result<String, serde_json::Error>)
    ensures
        match out {
            Ok(text) => text@ == json_text(value@.written()) && free_of_line_feeds(text@),
            Err(_) => false,
        },
{
    serde_json::to_string(&to_serde(value))
}

/// `to_string` on a `serde_json::Error`: the text that the error displays.
/// Nothing is claimed of the text.
#[verifier::external_body]
pub(crate) fn error_text(error: &serde_json::Error) -> String {
    error.to_string()
}

} // verus!
