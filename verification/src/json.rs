//! JSON values as the replies hold them.

use vstd::prelude::*;

verus! {

/// A JSON value. Numbers are unsigned integers: the replies hold no others.
/// An object keeps its members in the order in which they were written.
#[derive(Debug, PartialEq, Eq)]
pub enum JsonValue {
    Null,
    Bool(bool),
    Number(u64),
    String(String),
    Array(Vec<JsonValue>),
    Object(Vec<(String, JsonValue)>),
}

/// A JSON value as a mathematical value.
pub enum JsonView {
    Null,
    Bool(bool),
    Number(u64),
    String(Seq<char>),
    Array(Seq<JsonView>),
    Object(Seq<(Seq<char>, JsonView)>),
}

/// The mathematical value of a JSON value.
pub open spec fn json_view(value: JsonValue) -> JsonView
    decreases value, 0nat,
{
    match value {
        JsonValue::Null => JsonView::Null,
        JsonValue::Bool(b) => JsonView::Bool(b),
        JsonValue::Number(n) => JsonView::Number(n),
        JsonValue::String(s) => JsonView::String(s@),
        JsonValue::Array(items) => JsonView::Array(first_items(items, items.len() as nat)),
        JsonValue::Object(members) => JsonView::Object(
            first_members(members, members.len() as nat),
        ),
    }
}

/// The values of the first `n` items of an array.
pub open spec fn first_items(items: Vec<JsonValue>, n: nat) -> Seq<JsonView>
    decreases items, n,
{
    if 0 < n <= items.len() {
        first_items(items, (n - 1) as nat).push(json_view(items[n - 1]))
    } else {
        Seq::empty()
    }
}

/// The names and values of the first `n` members of an object.
pub open spec fn first_members(members: Vec<(String, JsonValue)>, n: nat) -> Seq<
    (Seq<char>, JsonView),
>
    decreases members, n,
{
    if 0 < n <= members.len() {
        first_members(members, (n - 1) as nat).push(
            (members[n - 1].0@, json_view(members[n - 1].1)),
        )
    } else {
        Seq::empty()
    }
}

impl View for JsonValue {
    type V = JsonView;

    open spec fn view(&self) -> JsonView {
        json_view(*self)
    }
}

/// The values of an array's items, in their order.
pub open spec fn item_views(items: Seq<JsonValue>) -> Seq<JsonView> {
    Seq::new(items.len(), |i: int| items[i]@)
}

/// The names and values of an object's members, in their order.
pub open spec fn member_views(members: Seq<(String, JsonValue)>) -> Seq<(Seq<char>, JsonView)> {
    Seq::new(members.len(), |i: int| (members[i].0@, members[i].1@))
}

proof fn lemma_first_items(items: Vec<JsonValue>, n: nat)
    requires
        n <= items.len(),
    ensures
        first_items(items, n) == item_views(items@.subrange(0, n as int)),
    decreases n,
{
    if n > 0 {
        lemma_first_items(items, (n - 1) as nat);
    }
    assert(first_items(items, n) =~= item_views(items@.subrange(0, n as int)));
}

proof fn lemma_first_members(members: Vec<(String, JsonValue)>, n: nat)
    requires
        n <= members.len(),
    ensures
        first_members(members, n) == member_views(members@.subrange(0, n as int)),
    decreases n,
{
    if n > 0 {
        lemma_first_members(members, (n - 1) as nat);
    }
    assert(first_members(members, n) =~= member_views(members@.subrange(0, n as int)));
}

/// The value of an array is the array of its items' values.
pub proof fn lemma_array_view(items: Vec<JsonValue>)
    ensures
        JsonValue::Array(items)@ == JsonView::Array(item_views(items@)),
{
    lemma_first_items(items, items.len() as nat);
    assert(items@.subrange(0, items.len() as int) =~= items@);
}

/// The value of an object is the list of its members' names and values.
pub proof fn lemma_object_view(members: Vec<(String, JsonValue)>)
    ensures
        JsonValue::Object(members)@ == JsonView::Object(member_views(members@)),
{
    lemma_first_members(members, members.len() as nat);
    assert(members@.subrange(0, members.len() as int) =~= members@);
}

impl JsonValue {
    /// The JSON string that holds `text`.
    pub fn string(text: &str) -> (value: JsonValue)
        ensures
            value@ == JsonView::String(text@),
    {
        JsonValue::String(String::from_str(text))
    }

    /// The JSON array of `items`.
    pub fn array(items: Vec<JsonValue>) -> (value: JsonValue)
        ensures
            value@ == JsonView::Array(item_views(items@)),
    {
        proof {
            lemma_array_view(items);
        }
        JsonValue::Array(items)
    }

    /// The JSON object of `members`.
    pub fn object(members: Vec<(String, JsonValue)>) -> (value: JsonValue)
        ensures
            value@ == JsonView::Object(member_views(members@)),
    {
        proof {
            lemma_object_view(members);
        }
        JsonValue::Object(members)
    }
}

} // verus!
