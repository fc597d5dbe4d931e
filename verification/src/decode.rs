//! Reading typed values out of JSON trees.

use crate::json::{Json, JsonNumber, JsonView, items_view, lemma_json_view, parsed_json};
use vstd::prelude::*;
use vstd::string::*;

verus! {

/// Why a JSON value is not the wire form of a type.
#[derive(Debug, Clone, Copy, PartialEq, Eq)]
pub enum DecodeError {
    /// The text is not JSON at all.
    Syntax,
    /// An object lacks the member of this name, which the type requires.
    MissingField(&'static str),
    /// A value is not of the JSON type that was expected, named here.
    InvalidType(&'static str),
    /// A value has the expected JSON type but is outside what the type
    /// named here can hold.
    InvalidValue(&'static str),
    /// An integer tag names no variant of the enumeration named here.
    UnknownVariant(&'static str, u64),
}

/// Types that can be read from a JSON tree.
pub trait FromJson: DeepView + Sized {
    /// What `j` decodes to: the value's model, or the first fault found.
    spec fn decoding(j: JsonView) -> Result<Self::V, DecodeError>;

    /// Reads a value of this type from `j`.
    fn from_json(j: &Json) -> (r: Result<Self, DecodeError>)
        ensures
            agrees(r, Self::decoding(j@)),
    ;
}

/// Whether the outcome `r` is the outcome `m`, read through the model.
pub open spec fn agrees<T: DeepView>(r: Result<T, DecodeError>, m: Result<T::V, DecodeError>) -> bool {
    match r {
        Ok(x) => m == Ok::<T::V, DecodeError>(x.deep_view()),
        Err(e) => m == Err::<T::V, DecodeError>(e),
    }
}

impl FromJson for () {
    open spec fn decoding(j: JsonView) -> Result<(), DecodeError> {
        match j {
            JsonView::Null => Ok(()),
            _ => Err(DecodeError::InvalidType("null")),
        }
    }

    fn from_json(j: &Json) -> (r: Result<(), DecodeError>) {
        match j {
            Json::Null => Ok(()),
            _ => Err(DecodeError::InvalidType("null")),
        }
    }
}

impl FromJson for bool {
    open spec fn decoding(j: JsonView) -> Result<bool, DecodeError> {
        match j {
            JsonView::Bool(b) => Ok(b),
            _ => Err(DecodeError::InvalidType("boolean")),
        }
    }

    fn from_json(j: &Json) -> (r: Result<bool, DecodeError>) {
        match j {
            Json::Bool(b) => Ok(*b),
            _ => Err(DecodeError::InvalidType("boolean")),
        }
    }
}

impl FromJson for u64 {
    open spec fn decoding(j: JsonView) -> Result<u64, DecodeError> {
        match j {
            JsonView::Number(JsonNumber::Unsigned(n)) => Ok(n),
            JsonView::Number(_) => Err(DecodeError::InvalidValue("unsigned integer")),
            _ => Err(DecodeError::InvalidType("unsigned integer")),
        }
    }

    fn from_json(j: &Json) -> (r: Result<u64, DecodeError>) {
        match j {
            Json::Number(JsonNumber::Unsigned(n)) => Ok(*n),
            Json::Number(_) => Err(DecodeError::InvalidValue("unsigned integer")),
            _ => Err(DecodeError::InvalidType("unsigned integer")),
        }
    }
}

impl FromJson for i64 {
    open spec fn decoding(j: JsonView) -> Result<i64, DecodeError> {
        match j {
            JsonView::Number(JsonNumber::Unsigned(n)) => if n <= i64::MAX {
                Ok(n as i64)
            } else {
                Err(DecodeError::InvalidValue("integer"))
            },
            JsonView::Number(JsonNumber::Negative(n)) => Ok(n),
            JsonView::Number(_) => Err(DecodeError::InvalidValue("integer")),
            _ => Err(DecodeError::InvalidType("integer")),
        }
    }

    fn from_json(j: &Json) -> (r: Result<i64, DecodeError>) {
        match j {
            Json::Number(JsonNumber::Unsigned(n)) => if *n <= i64::MAX as u64 {
                Ok(*n as i64)
            } else {
                Err(DecodeError::InvalidValue("integer"))
            },
            Json::Number(JsonNumber::Negative(n)) => Ok(*n),
            Json::Number(_) => Err(DecodeError::InvalidValue("integer")),
            _ => Err(DecodeError::InvalidType("integer")),
        }
    }
}

impl FromJson for JsonNumber {
    open spec fn decoding(j: JsonView) -> Result<JsonNumber, DecodeError> {
        match j {
            JsonView::Number(n) => Ok(n),
            _ => Err(DecodeError::InvalidType("number")),
        }
    }

    fn from_json(j: &Json) -> (r: Result<JsonNumber, DecodeError>) {
        match j {
            Json::Number(n) => Ok(*n),
            _ => Err(DecodeError::InvalidType("number")),
        }
    }
}

impl FromJson for String {
    open spec fn decoding(j: JsonView) -> Result<Seq<char>, DecodeError> {
        match j {
            JsonView::String(s) => Ok(s),
            _ => Err(DecodeError::InvalidType("string")),
        }
    }

    fn from_json(j: &Json) -> (r: Result<String, DecodeError>) {
        match j {
            Json::String(s) => Ok(s.clone()),
            _ => Err(DecodeError::InvalidType("string")),
        }
    }
}

/// The values of a list of outcomes, or the fault of the first outcome that
/// has one.
pub open spec fn collect<V>(outcomes: Seq<Result<V, DecodeError>>) -> Result<Seq<V>, DecodeError>
    decreases outcomes.len(),
{
    if outcomes.len() == 0 {
        Ok(Seq::empty())
    } else {
        match collect(outcomes.drop_last()) {
            Err(e) => Err(e),
            Ok(front) => match outcomes.last() {
                Err(e) => Err(e),
                Ok(x) => Ok(front.push(x)),
            },
        }
    }
}

/// What a list of JSON values decodes to, item by item: the items' models,
/// or the fault of the first item that has one.
pub open spec fn decoding_each<T: FromJson>(items: Seq<JsonView>) -> Result<Seq<T::V>, DecodeError> {
    collect(Seq::new(items.len(), |i: int| T::decoding(items[i])))
}

/// The outcomes of a prefix of a list are a prefix of its outcomes.
pub proof fn lemma_collect_prefix<V>(outcomes: Seq<Result<V, DecodeError>>, n: int)
    requires
        0 <= n <= outcomes.len(),
    ensures
        collect(outcomes.subrange(0, n)) is Err ==> collect(outcomes) == collect(
            outcomes.subrange(0, n),
        ),
    decreases outcomes.len() - n,
{
    if n == outcomes.len() {
        assert(outcomes.subrange(0, n) =~= outcomes);
    } else {
        let next = outcomes.subrange(0, n + 1);
        assert(next.drop_last() =~= outcomes.subrange(0, n));
        lemma_collect_prefix(outcomes, n + 1);
    }
}

/// One more outcome: the list's values grow by its value, or its fault is
/// the list's.
pub proof fn lemma_collect_step<V>(outcomes: Seq<Result<V, DecodeError>>, n: int)
    requires
        0 <= n < outcomes.len(),
        collect(outcomes.subrange(0, n)) is Ok,
    ensures
        outcomes[n] matches Ok(x) ==> collect(outcomes.subrange(0, n + 1)) == Ok::<
            Seq<V>,
            DecodeError,
        >(collect(outcomes.subrange(0, n))->Ok_0.push(x)),
        outcomes[n] matches Err(e) ==> collect(outcomes) == Err::<Seq<V>, DecodeError>(e),
{
    let next = outcomes.subrange(0, n + 1);
    assert(next.drop_last() =~= outcomes.subrange(0, n));
    assert(next.last() == outcomes[n]);
    lemma_collect_prefix(outcomes, n + 1);
}

impl<T: FromJson> FromJson for Vec<T> {
    open spec fn decoding(j: JsonView) -> Result<Seq<T::V>, DecodeError> {
        match j {
            JsonView::Array(items) => decoding_each::<T>(items),
            _ => Err(DecodeError::InvalidType("array")),
        }
    }

    fn from_json(j: &Json) -> (r: Result<Vec<T>, DecodeError>) {
        match j {
            Json::Array(items) => {
                proof {
                    lemma_json_view(*j);
                }
                let ghost all = items_view(items@);
                let ghost outcomes = Seq::new(all.len(), |i: int| T::decoding(all[i]));
                let mut out: Vec<T> = Vec::new();
                let mut i: usize = 0;
                assert(out.deep_view() =~= Seq::<T::V>::empty());
                assert(outcomes.subrange(0, 0) =~= Seq::<Result<T::V, DecodeError>>::empty());
                while i < items.len()
                    invariant
                        i <= items@.len(),
                        all == items_view(items@),
                        outcomes == Seq::new(all.len(), |i: int| T::decoding(all[i])),
                        j@ == JsonView::Array(all),
                        collect(outcomes.subrange(0, i as int)) == Ok::<Seq<T::V>, DecodeError>(
                            out.deep_view(),
                        ),
                    decreases items@.len() - i,
                {
                    let ghost before = out.deep_view();
                    proof {
                        assert(all[i as int] == items@[i as int]@);
                        lemma_collect_step(outcomes, i as int);
                    }
                    match T::from_json(&items[i]) {
                        Ok(x) => {
                            out.push(x);
                            assert(out.deep_view() =~= before.push(x.deep_view()));
                        },
                        Err(e) => {
                            return Err(e);
                        },
                    }
                    i += 1;
                }
                assert(outcomes.subrange(0, i as int) =~= outcomes);
                Ok(out)
            },
            _ => Err(DecodeError::InvalidType("array")),
        }
    }
}

/// What the member `key` of `j` decodes to, where the type requires it.
pub open spec fn required<T: FromJson>(j: JsonView, key: &'static str) -> Result<T::V, DecodeError> {
    match j.get(key@) {
        None => Err(DecodeError::MissingField(key)),
        Some(m) => T::decoding(m),
    }
}

/// What the member `key` of `j` decodes to, where it may be left out or be
/// `null`.
pub open spec fn optional<T: FromJson>(j: JsonView, key: &'static str) -> Result<
    Option<T::V>,
    DecodeError,
> {
    match j.get(key@) {
        None => Ok(None),
        Some(JsonView::Null) => Ok(None),
        Some(m) => match T::decoding(m) {
            Ok(x) => Ok(Some(x)),
            Err(e) => Err(e),
        },
    }
}

/// What the list under `key` of `j` decodes to, where a member left out
/// stands for the empty list.
pub open spec fn defaulted<T: FromJson>(j: JsonView, key: &'static str) -> Result<
    Seq<T::V>,
    DecodeError,
> {
    match j.get(key@) {
        None => Ok(Seq::empty()),
        Some(m) => Vec::<T>::decoding(m),
    }
}

/// Reads the required member `key` of `j`.
pub fn req<T: FromJson>(j: &Json, key: &'static str) -> (r: Result<T, DecodeError>)
    ensures
        agrees(r, required::<T>(j@, key)),
{
    match j.get(key) {
        None => Err(DecodeError::MissingField(key)),
        Some(m) => T::from_json(m),
    }
}

/// Reads the member `key` of `j`, which may be left out or be `null`.
pub fn opt<T: FromJson>(j: &Json, key: &'static str) -> (r: Result<Option<T>, DecodeError>)
    ensures
        agrees(r, optional::<T>(j@, key)),
{
    match j.get(key) {
        None => Ok(None),
        Some(Json::Null) => Ok(None),
        Some(m) => match T::from_json(m) {
            Ok(x) => Ok(Some(x)),
            Err(e) => Err(e),
        },
    }
}

/// Reads the list under `key` of `j`; a member left out gives the empty
/// list.
pub fn list<T: FromJson>(j: &Json, key: &'static str) -> (r: Result<Vec<T>, DecodeError>)
    ensures
        agrees(r, defaulted::<T>(j@, key)),
{
    match j.get(key) {
        None => {
            let out: Vec<T> = Vec::new();
            assert(out.deep_view() =~= Seq::<T::V>::empty());
            Ok(out)
        },
        Some(m) => Vec::<T>::from_json(m),
    }
}

/// What the text `text` decodes to: the fault `Syntax` if it is no JSON,
/// and else what the tree that it spells decodes to.
pub open spec fn text_decoding<T: FromJson>(text: Seq<char>) -> Result<T::V, DecodeError> {
    match parsed_json(text) {
        None => Err(DecodeError::Syntax),
        Some(j) => T::decoding(j),
    }
}

/// Reads a value from a JSON text.
pub fn from_text<T: FromJson>(text: &str) -> (r: Result<T, DecodeError>)
    ensures
        agrees(r, text_decoding::<T>(text@)),
{
    match Json::parse(text) {
        None => Err(DecodeError::Syntax),
        Some(j) => T::from_json(&j),
    }
}

/// What is wrong with `j` as the wire form of a record, if it is no object.
pub open spec fn object_fault(j: JsonView) -> Option<DecodeError> {
    if j is Object {
        None
    } else {
        Some(DecodeError::InvalidType("object"))
    }
}

/// Checks that `j` is an object.
pub fn expect_object(j: &Json) -> (r: Result<(), DecodeError>)
    ensures
        match r {
            Ok(_) => j@ is Object,
            Err(e) => object_fault(j@) == Some(e),
        },
{
    match j {
        Json::Object(_) => Ok(()),
        _ => Err(DecodeError::InvalidType("object")),
    }
}

} // verus!
