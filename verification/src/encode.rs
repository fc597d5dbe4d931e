//! Writing typed values as JSON trees.

use crate::json::{Json, JsonNumber, JsonView, lemma_json_view, members_view};
use vstd::prelude::*;
use vstd::string::*;

verus! {

/// Types that can be written as a JSON tree.
pub trait ToJson: DeepView {
    /// The tree that stands for a value with the model `m`.
    spec fn encoding(m: Self::V) -> JsonView;

    /// Writes the value as a JSON tree.
    fn to_json(&self) -> (j: Json)
        ensures
            j@ == Self::encoding(self.deep_view()),
    ;
}

impl ToJson for () {
    open spec fn encoding(m: ()) -> JsonView {
        JsonView::Null
    }

    fn to_json(&self) -> (j: Json) {
        Json::Null
    }
}

impl ToJson for bool {
    open spec fn encoding(m: bool) -> JsonView {
        JsonView::Bool(m)
    }

    fn to_json(&self) -> (j: Json) {
        Json::Bool(*self)
    }
}

impl ToJson for u64 {
    open spec fn encoding(m: u64) -> JsonView {
        JsonView::Number(JsonNumber::Unsigned(m))
    }

    fn to_json(&self) -> (j: Json) {
        Json::Number(JsonNumber::Unsigned(*self))
    }
}

impl ToJson for i64 {
    open spec fn encoding(m: i64) -> JsonView {
        if m >= 0 {
            JsonView::Number(JsonNumber::Unsigned(m as u64))
        } else {
            JsonView::Number(JsonNumber::Negative(m))
        }
    }

    fn to_json(&self) -> (j: Json) {
        if *self >= 0 {
            Json::Number(JsonNumber::Unsigned(*self as u64))
        } else {
            Json::Number(JsonNumber::Negative(*self))
        }
    }
}

impl ToJson for JsonNumber {
    open spec fn encoding(m: JsonNumber) -> JsonView {
        JsonView::Number(m)
    }

    fn to_json(&self) -> (j: Json) {
        Json::Number(*self)
    }
}

impl ToJson for String {
    open spec fn encoding(m: Seq<char>) -> JsonView {
        JsonView::String(m)
    }

    fn to_json(&self) -> (j: Json) {
        Json::String(self.clone())
    }
}

/// The trees that stand for the values with the models `ms`, one by one.
pub open spec fn encoding_each<T: ToJson>(ms: Seq<T::V>) -> Seq<JsonView> {
    Seq::new(ms.len(), |i: int| T::encoding(ms[i]))
}

impl<T: ToJson> ToJson for Vec<T> {
    open spec fn encoding(m: Seq<T::V>) -> JsonView {
        JsonView::Array(encoding_each::<T>(m))
    }

    fn to_json(&self) -> (j: Json) {
        let mut items: Vec<Json> = Vec::new();
        let mut i: usize = 0;
        while i < self.len()
            invariant
                i <= self@.len(),
                items@.len() == i,
                forall|k: int| 0 <= k < i ==> (#[trigger] items@[k])@ == T::encoding(self@[k].deep_view()),
            decreases self@.len() - i,
        {
            items.push(self[i].to_json());
            i += 1;
        }
        let j = Json::Array(items);
        proof {
            lemma_json_view(j);
            assert(j@->Array_0 =~= encoding_each::<T>(self.deep_view()));
        }
        j
    }
}

/// The members of an object.
pub type Members = Seq<(Seq<char>, JsonView)>;

/// The one member that a field which is always written gives.
pub open spec fn field<T: ToJson>(key: &'static str, m: T::V) -> Members {
    seq![(key@, T::encoding(m))]
}

/// The member that a field gives which is written only when it is set.
pub open spec fn opt_field<T: ToJson>(key: &'static str, m: Option<T::V>) -> Members {
    match m {
        Some(x) => seq![(key@, T::encoding(x))],
        None => Seq::empty(),
    }
}

/// The member that a list gives which is written only when it has items.
pub open spec fn filled_field<T: ToJson>(key: &'static str, ms: Seq<T::V>) -> Members {
    if ms.len() == 0 {
        Seq::empty()
    } else {
        seq![(key@, Vec::<T>::encoding(ms))]
    }
}

/// Appends the member `key` with the value's tree.
pub fn put<T: ToJson>(members: &mut Vec<(String, Json)>, key: &'static str, value: &T)
    ensures
        members_view(final(members)@) == members_view(old(members)@) + field::<T>(
            key,
            value.deep_view(),
        ),
{
    members.push((key.to_owned(), value.to_json()));
    assert(members_view(members@) =~= members_view(old(members)@) + field::<T>(
        key,
        value.deep_view(),
    ));
}

/// Appends the member `key` if the value is set.
pub fn put_opt<T: ToJson>(members: &mut Vec<(String, Json)>, key: &'static str, value: &Option<T>)
    ensures
        members_view(final(members)@) == members_view(old(members)@) + opt_field::<T>(
            key,
            value.deep_view(),
        ),
{
    match value {
        Some(x) => {
            members.push((key.to_owned(), x.to_json()));
        },
        None => {},
    }
    assert(members_view(members@) =~= members_view(old(members)@) + opt_field::<T>(
        key,
        value.deep_view(),
    ));
}

/// Appends the member `key` if the list has items.
pub fn put_filled<T: ToJson>(members: &mut Vec<(String, Json)>, key: &'static str, value: &Vec<T>)
    ensures
        members_view(final(members)@) == members_view(old(members)@) + filled_field::<T>(
            key,
            value.deep_view(),
        ),
{
    if value.len() > 0 {
        members.push((key.to_owned(), value.to_json()));
    }
    assert(members_view(members@) =~= members_view(old(members)@) + filled_field::<T>(
        key,
        value.deep_view(),
    ));
}

/// An object with no members yet.
pub fn no_members() -> (members: Vec<(String, Json)>)
    ensures
        members_view(members@) == Seq::<(Seq<char>, JsonView)>::empty(),
{
    let members: Vec<(String, Json)> = Vec::new();
    assert(members_view(members@) =~= Seq::<(Seq<char>, JsonView)>::empty());
    members
}

/// The object with the given members.
pub fn object(members: Vec<(String, Json)>) -> (j: Json)
    ensures
        j@ == JsonView::Object(members_view(members@)),
{
    let j = Json::Object(members);
    proof {
        lemma_json_view(j);
    }
    j
}

} // verus!
