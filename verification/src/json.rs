//! JSON values as trees.

use crate::text::str_eq;
use serde_json::Value;
use serde_json::Value::{Array, Bool, Null, Number, Object};
use vstd::prelude::*;
use vstd::string::*;

verus! {

/// A JSON number, kept as it was written.
#[derive(Debug, Clone, Copy, PartialEq, Eq, Structural)]
pub enum JsonNumber {
    /// A whole number that is not negative.
    Unsigned(u64),
    /// A negative whole number.
    Negative(i64),
    /// Any other number, as the bits of its IEEE 754 double.
    Float(u64),
}

impl DeepView for JsonNumber {
    type V = JsonNumber;

    open spec fn deep_view(&self) -> JsonNumber {
        *self
    }
}

/// A JSON value.
#[derive(Debug, PartialEq, Eq)]
pub enum Json {
    Null,
    Bool(bool),
    Number(JsonNumber),
    String(String),
    /// Items in their order.
    Array(Vec<Json>),
    /// Members in their order. Of two members with one key the first
    /// counts.
    Object(Vec<(String, Json)>),
}

/// The mathematical value of a [`Json`]: the same tree, with sequences for
/// vectors and strings.
pub enum JsonView {
    Null,
    Bool(bool),
    Number(JsonNumber),
    String(Seq<char>),
    Array(Seq<JsonView>),
    Object(Seq<(Seq<char>, JsonView)>),
}

/// The mathematical value of `j`.
pub open spec fn json_view(j: Json) -> JsonView
    decreases j,
{
    match j {
        Json::Null => JsonView::Null,
        Json::Bool(b) => JsonView::Bool(b),
        Json::Number(n) => JsonView::Number(n),
        Json::String(s) => JsonView::String(s@),
        Json::Array(items) => JsonView::Array(
            Seq::new(
                items@.len(),
                |i: int|
                    if 0 <= i < items@.len() {
                        json_view(items@[i])
                    } else {
                        JsonView::Null
                    },
            ),
        ),
        Json::Object(members) => JsonView::Object(
            Seq::new(
                members@.len(),
                |i: int|
                    if 0 <= i < members@.len() {
                        (members@[i].0@, json_view(members@[i].1))
                    } else {
                        (Seq::<char>::empty(), JsonView::Null)
                    },
            ),
        ),
    }
}

impl View for Json {
    type V = JsonView;

    open spec fn view(&self) -> JsonView {
        json_view(*self)
    }
}

/// The value of the first member of `members` whose key is `key`. It is
/// opaque, so that proofs about long objects unfold it only where they ask
/// to.
#[verifier::opaque]
pub open spec fn member(members: Seq<(Seq<char>, JsonView)>, key: Seq<char>) -> Option<JsonView>
    decreases members.len(),
{
    if members.len() == 0 {
        None
    } else if members[0].0 == key {
        Some(members[0].1)
    } else {
        member(members.drop_first(), key)
    }
}

/// A member's value lies inside the list of members.
pub proof fn lemma_member_decreases(members: Seq<(Seq<char>, JsonView)>, key: Seq<char>)
    ensures
        member(members, key) matches Some(v) ==> decreases_to!(members => v),
    decreases members.len(),
{
    reveal(member);
    if members.len() != 0 && members[0].0 != key {
        lemma_member_decreases(members.drop_first(), key);
    }
}

impl JsonView {
    /// A member of `self` lies inside `self`.
    pub proof fn lemma_get_decreases(self, key: Seq<char>)
        ensures
            self.get(key) matches Some(v) ==> decreases_to!(self => v),
    {
        if let JsonView::Object(members) = self {
            lemma_member_decreases(members, key);
        }
    }

    /// The member `key` of an object; `None` for anything else.
    pub open spec fn get(self, key: Seq<char>) -> Option<JsonView> {
        match self {
            JsonView::Object(members) => member(members, key),
            _ => None,
        }
    }
}

/// The view of a list of values, item by item.
pub open spec fn items_view(items: Seq<Json>) -> Seq<JsonView> {
    Seq::new(items.len(), |i: int| items[i]@)
}

/// The view of a list of members, member by member.
pub open spec fn members_view(members: Seq<(String, Json)>) -> Seq<(Seq<char>, JsonView)> {
    Seq::new(members.len(), |i: int| (members[i].0@, members[i].1@))
}

/// The views of arrays and objects, written with `items_view` and
/// `members_view`.
pub proof fn lemma_json_view(j: Json)
    ensures
        j matches Json::Array(items) ==> j@ == JsonView::Array(items_view(items@)),
        j matches Json::Object(members) ==> j@ == JsonView::Object(members_view(members@)),
{
    match j {
        Json::Array(items) => {
            assert(j@->Array_0 =~= items_view(items@));
        },
        Json::Object(members) => {
            assert(j@->Object_0 =~= members_view(members@));
        },
        _ => {},
    }
}

/// Makes `serde_json::Value` known to the verifier, as an opaque type.
#[verifier::external_type_specification]
#[verifier::external_body]
pub struct ExValue(Value);

/// The tree that a value of `serde_json` holds: its members in the order
/// in which it hands them out, a whole number that is not negative as
/// `Unsigned`, a negative one as `Negative`, any other number by its bits.
pub uninterp spec fn value_tree(value: Value) -> JsonView;

/// The tree that `text` spells, if it is JSON.
pub uninterp spec fn parsed_json(text: Seq<char>) -> Option<JsonView>;

/// `serde_json::from_str` for a `serde_json::Value`. Whether a text is
/// accepted, and the tree it gives, depend on the text alone.
#[verifier::external_body]
fn value_from_str(text: &str) -> (r: Option<Value>)
    ensures
        match r {
            Some(value) => parsed_json(text@) == Some(value_tree(value)),
            None => parsed_json(text@) is None,
        },
{
    serde_json::from_str::<Value>(text).ok()
}

/// Copies a `serde_json::Value` into a [`Json`], variant by variant. A
/// number is told apart by `Number::as_u64` and `Number::as_i64`.
#[verifier::external_body]
fn json_from_value(value: &Value) -> (j: Json)
    ensures
        j@ == value_tree(*value),
{
    match value {
        Null => Json::Null,
        Bool(b) => Json::Bool(*b),
        Number(n) => Json::Number(match (n.as_u64(), n.as_i64()) {
            (Some(u), _) => JsonNumber::Unsigned(u),
            (None, Some(i)) => JsonNumber::Negative(i),
            (None, None) => JsonNumber::Float(n.as_f64().unwrap_or_default().to_bits()),
        }),
        Value::String(s) => Json::String(s.clone()),
        Array(a) => Json::Array(a.iter().map(json_from_value).collect()),
        Object(m) => Json::Object(m.iter().map(|(k, v)| (k.clone(), json_from_value(v))).collect()),
    }
}

impl Json {
    /// Reads a JSON text. The members of an object come in the order in
    /// which `serde_json` keeps them, which is by key.
    pub fn parse(text: &str) -> (r: Option<Json>)
        ensures
            match r {
                Some(j) => parsed_json(text@) == Some(j@),
                None => parsed_json(text@) is None,
            },
    {
        match value_from_str(text) {
            Some(value) => Some(json_from_value(&value)),
            None => None,
        }
    }

    /// The member `key` of an object; `None` for any other value and for an
    /// object without that key.
    pub fn get(&self, key: &str) -> (r: Option<&Json>)
        ensures
            match r {
                Some(v) => self@.get(key@) == Some(v@) && decreases_to!(self => v),
                None => self@.get(key@) is None,
            },
    {
        match self {
            Json::Object(members) => {
                proof {
                    lemma_json_view(*self);
                }
                let ghost all = members_view(members@);
                let mut i: usize = 0;
                assert(all.subrange(0, all.len() as int) =~= all);
                while i < members.len()
                    invariant
                        i <= members@.len(),
                        all == members_view(members@),
                        self@ == JsonView::Object(all),
                        decreases_to!(self => members),
                        member(all, key@) == member(all.subrange(i as int, all.len() as int), key@),
                    decreases members@.len() - i,
                {
                    let ghost rest = all.subrange(i as int, all.len() as int);
                    proof {
                        reveal(member);
                    }
                    assert(rest[0] == all[i as int]);
                    assert(rest.drop_first() =~= all.subrange(i + 1, all.len() as int));
                    if str_eq(members[i].0.as_str(), key) {
                        assert(decreases_to!(members => members[i as int]));
                        assert(decreases_to!(members[i as int] => members[i as int].1));
                        return Some(&members[i].1);
                    }
                    i += 1;
                }
                proof {
                    reveal(member);
                }
                None
            },
            _ => None,
        }
    }
}

} // verus!
