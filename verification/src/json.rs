//! JSON values as the server reads and writes them.

use vstd::prelude::*;

use crate::text::{owned, str_eq};

verus! {

/// A JSON number: a non-negative integer, a negative integer, or a number
/// with a fraction or exponent (kept as its decimal text).
#[derive(Debug, PartialEq)]
pub enum JsonNumber {
    PosInt(u64),
    NegInt(i64),
    Float(String),
}

/// A JSON value. An object keeps its members in order; its keys are distinct.
#[derive(Debug, PartialEq)]
pub enum JsonValue {
    Null,
    Bool(bool),
    Number(JsonNumber),
    Str(String),
    Array(Vec<JsonValue>),
    Object(Vec<(String, JsonValue)>),
}

/// The mathematical form of a JSON number.
pub enum NumberView {
    PosInt(u64),
    NegInt(i64),
    Float(Seq<char>),
}

/// The mathematical form of a JSON value: strings as character sequences,
/// arrays and objects as sequences.
pub enum JsonView {
    Null,
    Bool(bool),
    Number(NumberView),
    Str(Seq<char>),
    Array(Seq<JsonView>),
    Object(Seq<(Seq<char>, JsonView)>),
}

pub open spec fn number_view(n: JsonNumber) -> NumberView {
    match n {
        JsonNumber::PosInt(k) => NumberView::PosInt(k),
        JsonNumber::NegInt(k) => NumberView::NegInt(k),
        JsonNumber::Float(t) => NumberView::Float(t@),
    }
}

/// The view of a JSON value, element by element.
pub open spec fn json_view(v: JsonValue) -> JsonView
    decreases v,
{
    match v {
        JsonValue::Null => JsonView::Null,
        JsonValue::Bool(b) => JsonView::Bool(b),
        JsonValue::Number(n) => JsonView::Number(number_view(n)),
        JsonValue::Str(s) => JsonView::Str(s@),
        JsonValue::Array(items) => JsonView::Array(
            Seq::new(
                items@.len(),
                |i: int|
                    if 0 <= i < items@.len() {
                        json_view(items@[i])
                    } else {
                        JsonView::Null
                    },
            ),
        ),
        JsonValue::Object(members) => JsonView::Object(
            Seq::new(
                members@.len(),
                |i: int|
                    if 0 <= i < members@.len() {
                        (members@[i].0@, json_view(members@[i].1))
                    } else {
                        (Seq::empty(), JsonView::Null)
                    },
            ),
        ),
    }
}

impl View for JsonValue {
    type V = JsonView;

    open spec fn view(&self) -> JsonView {
        json_view(*self)
    }
}

/// The view of an object's members, in order.
pub open spec fn members_view(members: Seq<(String, JsonValue)>) -> Seq<(Seq<char>, JsonView)> {
    Seq::new(members.len(), |i: int| (members[i].0@, json_view(members[i].1)))
}

/// The view of an array's items, in order.
pub open spec fn items_view(items: Seq<JsonValue>) -> Seq<JsonView> {
    Seq::new(items.len(), |i: int| json_view(items[i]))
}

/// An object is viewed member by member.
pub proof fn lemma_object_view(members: Vec<(String, JsonValue)>)
    ensures
        JsonValue::Object(members)@ == JsonView::Object(members_view(members@)),
{
    let v = JsonValue::Object(members);
    if let JsonView::Object(got) = v@ {
        assert(got =~= members_view(members@));
    }
}

/// An array is viewed item by item.
pub proof fn lemma_array_view(items: Vec<JsonValue>)
    ensures
        JsonValue::Array(items)@ == JsonView::Array(items_view(items@)),
{
    let v = JsonValue::Array(items);
    if let JsonView::Array(got) = v@ {
        assert(got =~= items_view(items@));
    }
}

/// An object with the given members.
pub fn object(members: Vec<(String, JsonValue)>) -> (r: JsonValue)
    ensures
        r@ == JsonView::Object(members_view(members@)),
{
    proof {
        lemma_object_view(members);
    }
    JsonValue::Object(members)
}

/// An array with the given items.
pub fn array(items: Vec<JsonValue>) -> (r: JsonValue)
    ensures
        r@ == JsonView::Array(items_view(items@)),
{
    proof {
        lemma_array_view(items);
    }
    JsonValue::Array(items)
}

/// A string value with the given text.
pub fn text_value(s: &str) -> (r: JsonValue)
    ensures
        r@ == JsonView::Str(s@),
{
    JsonValue::Str(owned(s))
}

/// A non-negative integer value.
pub fn count_value(n: u64) -> (r: JsonValue)
    ensures
        r@ == JsonView::Number(NumberView::PosInt(n)),
{
    JsonValue::Number(JsonNumber::PosInt(n))
}

/// An object member.
pub fn member(key: &str, value: JsonValue) -> (r: (String, JsonValue))
    ensures
        r.0@ == key@,
        r.1 == value,
{
    (owned(key), value)
}

/// The value of the first member named `key`.
pub open spec fn members_lookup(members: Seq<(String, JsonValue)>, key: Seq<char>) -> Option<JsonValue>
    decreases members.len(),
{
    if members.len() == 0 {
        None
    } else if members[0].0@ == key {
        Some(members[0].1)
    } else {
        members_lookup(members.drop_first(), key)
    }
}

/// The member `key` of an object; `None` for a missing member or a value that is not an object.
pub open spec fn spec_get(v: JsonValue, key: Seq<char>) -> Option<JsonValue> {
    match v {
        JsonValue::Object(members) => members_lookup(members@, key),
        _ => None,
    }
}

/// The characters of a string value.
pub open spec fn spec_as_str(v: JsonValue) -> Option<Seq<char>> {
    match v {
        JsonValue::Str(s) => Some(s@),
        _ => None,
    }
}

/// An integer value that fits in `i64`.
pub open spec fn spec_as_i64(v: JsonValue) -> Option<i64> {
    match v {
        JsonValue::Number(JsonNumber::PosInt(n)) => if n <= i64::MAX as u64 {
            Some(n as i64)
        } else {
            None
        },
        JsonValue::Number(JsonNumber::NegInt(n)) => Some(n),
        _ => None,
    }
}

/// A non-negative integer value.
pub open spec fn spec_as_u64(v: JsonValue) -> Option<u64> {
    match v {
        JsonValue::Number(JsonNumber::PosInt(n)) => Some(n),
        _ => None,
    }
}

/// The string member `key` of an object.
pub open spec fn str_member(v: JsonValue, key: Seq<char>) -> Option<Seq<char>> {
    match spec_get(v, key) {
        Some(m) => spec_as_str(m),
        None => None,
    }
}

/// The `i64` member `key` of an object.
pub open spec fn i64_member(v: JsonValue, key: Seq<char>) -> Option<i64> {
    match spec_get(v, key) {
        Some(m) => spec_as_i64(m),
        None => None,
    }
}

/// The `u64` member `key` of an object.
pub open spec fn u64_member(v: JsonValue, key: Seq<char>) -> Option<u64> {
    match spec_get(v, key) {
        Some(m) => spec_as_u64(m),
        None => None,
    }
}

impl JsonValue {
    /// The member `key`, when this is an object that has one.
    pub fn get(&self, key: &str) -> (r: Option<&JsonValue>)
        ensures
            r is Some == spec_get(*self, key@) is Some,
            r matches Some(m) ==> *m == spec_get(*self, key@)->0,
    {
        match self {
            JsonValue::Object(members) => {
                let mut i: usize = 0;
                assert(members@.subrange(0, members@.len() as int) =~= members@);
                while i < members.len()
                    invariant
                        i <= members@.len(),
                        spec_get(*self, key@) == members_lookup(members@, key@),
                        members_lookup(members@, key@) == members_lookup(
                            members@.subrange(i as int, members@.len() as int),
                            key@,
                        ),
                    decreases members@.len() - i,
                {
                    let ghost rest = members@.subrange(i as int, members@.len() as int);
                    assert(rest.drop_first() =~= members@.subrange(i + 1, members@.len() as int));
                    if str_eq(members[i].0.as_str(), key) {
                        return Some(&members[i].1);
                    }
                    i = i + 1;
                }
                None
            },
            _ => None,
        }
    }

    /// The characters, when this is a string.
    pub fn as_str(&self) -> (r: Option<&String>)
        ensures
            r is Some == spec_as_str(*self) is Some,
            r matches Some(s) ==> s@ == spec_as_str(*self)->0,
    {
        match self {
            JsonValue::Str(s) => Some(s),
            _ => None,
        }
    }

    /// The number, when this is an integer that fits in `i64`.
    pub fn as_i64(&self) -> (r: Option<i64>)
        ensures
            r == spec_as_i64(*self),
    {
        match self {
            JsonValue::Number(JsonNumber::PosInt(n)) => if *n <= i64::MAX as u64 {
                Some(*n as i64)
            } else {
                None
            },
            JsonValue::Number(JsonNumber::NegInt(n)) => Some(*n),
            _ => None,
        }
    }

    /// The number, when this is a non-negative integer.
    pub fn as_u64(&self) -> (r: Option<u64>)
        ensures
            r == spec_as_u64(*self),
    {
        match self {
            JsonValue::Number(JsonNumber::PosInt(n)) => Some(*n),
            _ => None,
        }
    }

    /// The string member `key`, when there is one.
    pub fn str_member(&self, key: &str) -> (r: Option<&String>)
        ensures
            r is Some == str_member(*self, key@) is Some,
            r matches Some(s) ==> s@ == str_member(*self, key@)->0,
    {
        match self.get(key) {
            Some(m) => m.as_str(),
            None => None,
        }
    }
}

} // verus!
