//! What is written can be read again.
//!
//! For every type that is both written and read, the tree that stands for
//! a value decodes to that value, and holds no `null`. A few values are
//! excepted, which their types name under `faithful`.

use crate::decode::{DecodeError, FromJson, collect, decoding_each, defaulted, optional, required};
use crate::encode::{Members, ToJson, encoding_each, field, filled_field, opt_field};
use crate::json::{JsonNumber, JsonView, member};
use crate::snowflake::{Snowflake, digits_value, snowflake_value};
use crate::text::{decimal_text, digit_char};
use vstd::prelude::*;
use vstd::utf8::{encode_utf8, is_ascii_chars, is_ascii_chars_encode_utf8};

verus! {

/// Whether `j` holds no `null`, at any depth.
pub open spec fn null_free(j: JsonView) -> bool
    decreases j,
{
    match j {
        JsonView::Null => false,
        JsonView::Array(items) => forall|i: int|
            0 <= i < items.len() ==> null_free(#[trigger] items[i]),
        JsonView::Object(members) => forall|i: int|
            0 <= i < members.len() ==> null_free((#[trigger] members[i]).1),
        _ => true,
    }
}

/// Whether no member of `members` holds a `null`.
#[verifier::opaque]
pub open spec fn members_null_free(members: Members) -> bool {
    forall|i: int| 0 <= i < members.len() ==> null_free((#[trigger] members[i]).1)
}

/// Types whose values come back from their trees.
pub trait RoundTrip: FromJson + ToJson {
    /// The models that come back from their trees.
    spec fn faithful(m: Self::V) -> bool;

    /// A faithful model is decoded from its own tree, which holds no
    /// `null`.
    proof fn lemma_round_trip(m: Self::V)
        requires
            Self::faithful(m),
        ensures
            Self::decoding(Self::encoding(m)) == Ok::<Self::V, DecodeError>(m),
            null_free(Self::encoding(m)),
    ;
}

/// A member is looked up in the first of two lists before the second.
pub proof fn lemma_member_concat(a: Members, b: Members, key: Seq<char>)
    ensures
        member(a + b, key) == match member(a, key) {
            Some(v) => Some(v),
            None => member(b, key),
        },
    decreases a.len(),
{
    reveal(member);
    if a.len() == 0 {
        assert(a + b =~= b);
    } else {
        assert((a + b).drop_first() =~= a.drop_first() + b);
        lemma_member_concat(a.drop_first(), b, key);
    }
}

/// A list of one member holds that member only.
pub proof fn lemma_member_one(k: Seq<char>, v: JsonView, key: Seq<char>)
    ensures
        member(seq![(k, v)], key) == if k == key {
            Some(v)
        } else {
            None
        },
{
    reveal(member);
    let one = seq![(k, v)];
    assert(one.len() == 1);
    assert(one[0] == (k, v));
    assert(one.drop_first() =~= Seq::<(Seq<char>, JsonView)>::empty());
    assert(member(one.drop_first(), key) is None);
}

/// What a list of members followed by another holds, under every key, and
/// whether it holds a `null`.
pub proof fn lemma_concat(a: Members, b: Members)
    ensures
        forall|key: Seq<char>| #[trigger]
            member(a + b, key) == match member(a, key) {
                Some(v) => Some(v),
                None => member(b, key),
            },
        members_null_free(a + b) == (members_null_free(a) && members_null_free(b)),
{
    assert forall|key: Seq<char>| #[trigger]
        member(a + b, key) == match member(a, key) {
            Some(v) => Some(v),
            None => member(b, key),
        } by {
        lemma_member_concat(a, b, key);
    }
    reveal(members_null_free);
    if members_null_free(a + b) {
        assert forall|i: int| 0 <= i < a.len() implies null_free((#[trigger] a[i]).1) by {
            assert((a + b)[i] == a[i]);
        }
        assert forall|i: int| 0 <= i < b.len() implies null_free((#[trigger] b[i]).1) by {
            assert((a + b)[a.len() + i] == b[i]);
        }
    }
}

/// What the member of a field that is always written holds.
pub proof fn lemma_field<T: ToJson>(name: &'static str, m: T::V)
    ensures
        forall|key: Seq<char>| #[trigger]
            member(field::<T>(name, m), key) == if key == name@ {
                Some(T::encoding(m))
            } else {
                None
            },
        members_null_free(field::<T>(name, m)) == null_free(T::encoding(m)),
{
    assert forall|key: Seq<char>| #[trigger]
        member(field::<T>(name, m), key) == if key == name@ {
            Some(T::encoding(m))
        } else {
            None
        } by {
        lemma_member_one(name@, T::encoding(m), key);
    }
    reveal(members_null_free);
    assert(field::<T>(name, m)[0] == (name@, T::encoding(m)));
}

/// What the member of a field holds that is written only when it is set.
pub proof fn lemma_opt_field<T: ToJson>(name: &'static str, m: Option<T::V>)
    ensures
        forall|key: Seq<char>| #[trigger]
            member(opt_field::<T>(name, m), key) == if key == name@ {
                match m {
                    Some(x) => Some(T::encoding(x)),
                    None => None,
                }
            } else {
                None
            },
        members_null_free(opt_field::<T>(name, m)) == match m {
            Some(x) => null_free(T::encoding(x)),
            None => true,
        },
{
    match m {
        Some(x) => {
            lemma_field::<T>(name, x);
        },
        None => {
            reveal(member);
            reveal(members_null_free);
        },
    }
}

/// What the member of a list holds that is written only when it has items.
pub proof fn lemma_filled_field<T: ToJson>(name: &'static str, ms: Seq<T::V>)
    ensures
        forall|key: Seq<char>| #[trigger]
            member(filled_field::<T>(name, ms), key) == if key == name@ && ms.len() > 0 {
                Some(Vec::<T>::encoding(ms))
            } else {
                None
            },
        members_null_free(filled_field::<T>(name, ms)) == (ms.len() == 0 || null_free(
            Vec::<T>::encoding(ms),
        )),
{
    if ms.len() > 0 {
        lemma_field::<Vec<T>>(name, ms);
    } else {
        reveal(member);
        reveal(members_null_free);
    }
}

/// An object holds no `null` exactly if none of its members holds one, and
/// an object without members holds nothing.
pub proof fn lemma_object(members: Members)
    ensures
        null_free(JsonView::Object(members)) == members_null_free(members),
        members_null_free(Seq::empty()),
        forall|key: Seq<char>| (#[trigger] member(Seq::empty(), key)) is None,
{
    reveal(member);
    reveal(members_null_free);
    let j = JsonView::Object(members);
    match j {
        JsonView::Object(ms) => {
            assert forall|i: int| 0 <= i < ms.len() implies decreases_to!(j => (#[trigger] ms[i]).1) by {
                assert(decreases_to!(ms => ms[i]));
                assert(decreases_to!(ms[i] => ms[i].1));
            }
            if members_null_free(ms) {
                assert forall|i: int| 0 <= i < ms.len() implies null_free((#[trigger] ms[i]).1) by {
                }
                assert(null_free(j));
            }
            if null_free(j) {
                assert forall|i: int| 0 <= i < ms.len() implies null_free((#[trigger] ms[i]).1) by {
                }
            }
        },
        _ => {},
    }
}

/// What a list of one member holds, under every key, and whether it holds
/// a `null`.
pub proof fn lemma_one(name: Seq<char>, v: JsonView)
    ensures
        forall|key: Seq<char>| #[trigger]
            member(seq![(name, v)], key) == if key == name {
                Some(v)
            } else {
                None
            },
        members_null_free(seq![(name, v)]) == null_free(v),
{
    assert forall|key: Seq<char>| #[trigger]
        member(seq![(name, v)], key) == if key == name {
            Some(v)
        } else {
            None
        } by {
        lemma_member_one(name, v, key);
    }
    reveal(members_null_free);
    assert(seq![(name, v)][0] == (name, v));
}

/// A required member that holds the tree of a faithful model decodes to
/// the model.
pub proof fn lemma_required_back<T: RoundTrip>(j: JsonView, name: &'static str, m: T::V)
    requires
        j.get(name@) == Some(T::encoding(m)),
        T::faithful(m),
    ensures
        required::<T>(j, name) == Ok::<T::V, DecodeError>(m),
{
    T::lemma_round_trip(m);
}

/// A member that is there exactly if the field is set, and then holds the
/// tree of a faithful model, decodes to the field.
pub proof fn lemma_optional_back<T: RoundTrip>(j: JsonView, name: &'static str, m: Option<T::V>)
    requires
        j.get(name@) == match m {
            Some(x) => Some(T::encoding(x)),
            None => None,
        },
        m matches Some(x) ==> T::faithful(x),
    ensures
        optional::<T>(j, name) == Ok::<Option<T::V>, DecodeError>(m),
{
    if m is Some {
        T::lemma_round_trip(m->0);
    }
}

/// A member that is there exactly if the list has items, and then holds
/// the trees of faithful models, decodes to the list.
pub proof fn lemma_defaulted_back<T: RoundTrip>(j: JsonView, name: &'static str, ms: Seq<T::V>)
    requires
        j.get(name@) == if ms.len() > 0 {
            Some(Vec::<T>::encoding(ms))
        } else {
            None
        },
        Vec::<T>::faithful(ms),
    ensures
        defaulted::<T>(j, name) == Ok::<Seq<T::V>, DecodeError>(ms),
{
    if ms.len() > 0 {
        Vec::<T>::lemma_round_trip(ms);
    } else {
        assert(ms =~= Seq::empty());
    }
}

/// Outcomes that are all values collect to those values.
pub proof fn lemma_collect_values<V>(outcomes: Seq<Result<V, DecodeError>>, values: Seq<V>)
    requires
        outcomes.len() == values.len(),
        forall|i: int|
            0 <= i < values.len() ==> #[trigger] outcomes[i] == Ok::<V, DecodeError>(values[i]),
    ensures
        collect(outcomes) == Ok::<Seq<V>, DecodeError>(values),
    decreases outcomes.len(),
{
    if outcomes.len() == 0 {
        assert(values =~= Seq::empty());
    } else {
        lemma_collect_values(outcomes.drop_last(), values.drop_last());
        assert(values.drop_last().push(values.last()) =~= values);
    }
}

impl RoundTrip for bool {
    open spec fn faithful(m: bool) -> bool {
        true
    }

    proof fn lemma_round_trip(m: bool) {
    }
}

impl RoundTrip for u64 {
    open spec fn faithful(m: u64) -> bool {
        true
    }

    proof fn lemma_round_trip(m: u64) {
    }
}

impl RoundTrip for i64 {
    open spec fn faithful(m: i64) -> bool {
        true
    }

    proof fn lemma_round_trip(m: i64) {
    }
}

impl RoundTrip for JsonNumber {
    open spec fn faithful(m: JsonNumber) -> bool {
        true
    }

    proof fn lemma_round_trip(m: JsonNumber) {
    }
}

impl RoundTrip for String {
    open spec fn faithful(m: Seq<char>) -> bool {
        true
    }

    proof fn lemma_round_trip(m: Seq<char>) {
    }
}

impl<T: RoundTrip> RoundTrip for Vec<T> {
    open spec fn faithful(m: Seq<T::V>) -> bool {
        forall|i: int| 0 <= i < m.len() ==> T::faithful(#[trigger] m[i])
    }

    proof fn lemma_round_trip(m: Seq<T::V>) {
        let trees = encoding_each::<T>(m);
        assert forall|i: int| 0 <= i < m.len() implies T::decoding(#[trigger] trees[i]) == Ok::<
            T::V,
            DecodeError,
        >(m[i]) && null_free(trees[i]) by {
            T::lemma_round_trip(m[i]);
        }
        lemma_collect_values(Seq::new(trees.len(), |i: int| T::decoding(trees[i])), m);
    }
}

/// The decimal numeral of a number is digits that spell it.
pub proof fn lemma_decimal_text_digits(n: nat)
    ensures
        is_ascii_chars(decimal_text(n)),
        decimal_text(n).len() > 0,
        encode_utf8(decimal_text(n))[0] != 0x2b,
        digits_value(encode_utf8(decimal_text(n))) == Some(n),
    decreases n,
{
    let text = decimal_text(n);
    let d = if n < 10 {
        n
    } else {
        n % 10
    };
    assert(digit_char(d) as u8 == 0x30 + d);
    if n < 10 {
        assert(text[0] == digit_char(n));
        assert(is_ascii_chars(text));
        is_ascii_chars_encode_utf8(text);
        let bytes = encode_utf8(text);
        assert(bytes.len() == 1);
        assert(bytes.last() == bytes[0]);
    } else {
        let front = decimal_text(n / 10);
        lemma_decimal_text_digits(n / 10);
        assert(text == front.push(digit_char(d)));
        assert forall|i: int| 0 <= i < text.len() implies '\0' <= #[trigger] text[i] <= '\u{7f}' by {
            if i < front.len() {
                assert(text[i] == front[i]);
            }
        }
        is_ascii_chars_encode_utf8(text);
        is_ascii_chars_encode_utf8(front);
        let bytes = encode_utf8(text);
        assert(bytes.drop_last() =~= encode_utf8(front)) by {
            assert forall|i: int| 0 <= i < front.len() implies bytes.drop_last()[i] == encode_utf8(
                front,
            )[i] by {
                assert(text[i] == front[i]);
            }
        }
        assert(bytes.last() == text[text.len() - 1] as u8);
        assert(bytes[0] == text[0] as u8);
        assert(text[0] == front[0]);
        assert(encode_utf8(front)[0] == front[0] as u8);
    }
}

impl RoundTrip for Snowflake {
    open spec fn faithful(m: u64) -> bool {
        true
    }

    proof fn lemma_round_trip(m: u64) {
        lemma_decimal_text_digits(m as nat);
        let bytes = encode_utf8(decimal_text(m as nat));
        assert(snowflake_value(bytes) == Some(m));
    }
}

} // verus!
