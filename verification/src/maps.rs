//! Objects that are used as maps.

use crate::decode::{DecodeError, FromJson, collect, lemma_collect_step};
use crate::encode::{ToJson, object};
use crate::json::{Json, JsonView, lemma_json_view, members_view};
use crate::round_trip::{RoundTrip, lemma_collect_values, null_free};
use crate::snowflake::{Snowflake, snowflake_value};
use vstd::prelude::*;
use vstd::string::*;
use vstd::utf8::encode_utf8;

verus! {

/// Texts in several languages, each under the name of its locale, in the
/// order in which they are written.
#[derive(Debug, Clone, PartialEq, Eq)]
pub struct Localizations {
    pub entries: Vec<(String, String)>,
}

impl DeepView for Localizations {
    type V = Seq<(Seq<char>, Seq<char>)>;

    open spec fn deep_view(&self) -> Seq<(Seq<char>, Seq<char>)> {
        self.entries.deep_view()
    }
}

/// The locale and text that one member of an object gives.
pub open spec fn localized_text(member: (Seq<char>, JsonView)) -> Result<
    (Seq<char>, Seq<char>),
    DecodeError,
> {
    match member.1 {
        JsonView::String(text) => Ok((member.0, text)),
        _ => Err(DecodeError::InvalidType("string")),
    }
}

impl Localizations {
    /// No texts.
    pub fn new() -> (r: Localizations)
        ensures
            r.deep_view() == Seq::<(Seq<char>, Seq<char>)>::empty(),
    {
        let r = Localizations { entries: Vec::new() };
        assert(r.deep_view() =~= Seq::<(Seq<char>, Seq<char>)>::empty());
        r
    }

    /// Adds the text for a locale after those already present.
    pub fn insert(self, locale: &str, text: &str) -> (r: Localizations)
        ensures
            r.deep_view() == self.deep_view().push((locale@, text@)),
    {
        let mut r = self;
        r.entries.push((locale.to_owned(), text.to_owned()));
        assert(r.deep_view() =~= self.deep_view().push((locale@, text@)));
        r
    }
}

impl FromJson for Localizations {
    open spec fn decoding(j: JsonView) -> Result<Seq<(Seq<char>, Seq<char>)>, DecodeError> {
        match j {
            JsonView::Object(members) => collect(
                Seq::new(members.len(), |i: int| localized_text(members[i])),
            ),
            _ => Err(DecodeError::InvalidType("object")),
        }
    }

    fn from_json(j: &Json) -> (r: Result<Localizations, DecodeError>) {
        match j {
            Json::Object(members) => {
                proof {
                    lemma_json_view(*j);
                }
                let ghost all = members_view(members@);
                let ghost outcomes = Seq::new(all.len(), |i: int| localized_text(all[i]));
                let mut entries: Vec<(String, String)> = Vec::new();
                let mut i: usize = 0;
                assert(entries.deep_view() =~= Seq::<(Seq<char>, Seq<char>)>::empty());
                assert(outcomes.subrange(0, 0) =~= Seq::<
                    Result<(Seq<char>, Seq<char>), DecodeError>,
                >::empty());
                while i < members.len()
                    invariant
                        i <= members@.len(),
                        all == members_view(members@),
                        outcomes == Seq::new(all.len(), |i: int| localized_text(all[i])),
                        j@ == JsonView::Object(all),
                        collect(outcomes.subrange(0, i as int)) == Ok::<
                            Seq<(Seq<char>, Seq<char>)>,
                            DecodeError,
                        >(entries.deep_view()),
                    decreases members@.len() - i,
                {
                    let ghost before = entries.deep_view();
                    proof {
                        assert(all[i as int] == (members@[i as int].0@, members@[i as int].1@));
                        lemma_collect_step(outcomes, i as int);
                    }
                    match &members[i].1 {
                        Json::String(text) => {
                            entries.push((members[i].0.clone(), text.clone()));
                            assert(entries.deep_view() =~= before.push(
                                (members@[i as int].0@, text@),
                            ));
                        },
                        _ => {
                            return Err(DecodeError::InvalidType("string"));
                        },
                    }
                    i += 1;
                }
                assert(outcomes.subrange(0, i as int) =~= outcomes);
                Ok(Localizations { entries })
            },
            _ => Err(DecodeError::InvalidType("object")),
        }
    }
}

impl ToJson for Localizations {
    open spec fn encoding(m: Seq<(Seq<char>, Seq<char>)>) -> JsonView {
        JsonView::Object(Seq::new(m.len(), |i: int| (m[i].0, JsonView::String(m[i].1))))
    }

    fn to_json(&self) -> (j: Json) {
        let mut members: Vec<(String, Json)> = Vec::new();
        let mut i: usize = 0;
        while i < self.entries.len()
            invariant
                i <= self.entries@.len(),
                members@.len() == i,
                forall|k: int|
                    0 <= k < i ==> (#[trigger] members@[k]).0@ == self.entries@[k].0@
                        && members@[k].1@ == JsonView::String(self.entries@[k].1@),
            decreases self.entries@.len() - i,
        {
            members.push((self.entries[i].0.clone(), Json::String(self.entries[i].1.clone())));
            i += 1;
        }
        let j = object(members);
        assert(j@->Object_0 =~= Self::encoding(self.deep_view())->Object_0);
        j
    }
}

impl RoundTrip for Localizations {
    open spec fn faithful(m: Seq<(Seq<char>, Seq<char>)>) -> bool {
        true
    }

    proof fn lemma_round_trip(m: Seq<(Seq<char>, Seq<char>)>) {
        let members = Self::encoding(m)->Object_0;
        lemma_collect_values(Seq::new(members.len(), |i: int| localized_text(members[i])), m);
        assert forall|i: int| 0 <= i < members.len() implies null_free((#[trigger] members[i]).1) by {
            assert(members[i].1 == JsonView::String(m[i].1));
        }
    }
}

/// Records of one kind, each under the identifier by which an interaction
/// refers to it, in the order in which they are written.
#[derive(Debug, Clone, PartialEq, Eq)]
pub struct Resolved<T> {
    pub entries: Vec<(Snowflake, T)>,
}

impl<T: DeepView> DeepView for Resolved<T> {
    type V = Seq<(u64, T::V)>;

    open spec fn deep_view(&self) -> Seq<(u64, T::V)> {
        self.entries.deep_view()
    }
}

/// The identifier and record that one member of an object gives.
pub open spec fn resolved_entry<T: FromJson>(member: (Seq<char>, JsonView)) -> Result<
    (u64, T::V),
    DecodeError,
> {
    match snowflake_value(encode_utf8(member.0)) {
        None => Err(DecodeError::InvalidValue("snowflake")),
        Some(id) => match T::decoding(member.1) {
            Ok(x) => Ok((id, x)),
            Err(e) => Err(e),
        },
    }
}

/// The record that `entries` hold under `id`: that of the last entry with
/// that identifier.
pub open spec fn resolved_value<V>(entries: Seq<(u64, V)>, id: u64) -> Option<V>
    decreases entries.len(),
{
    if entries.len() == 0 {
        None
    } else if entries.last().0 == id {
        Some(entries.last().1)
    } else {
        resolved_value(entries.drop_last(), id)
    }
}

impl<T: DeepView> Resolved<T> {
    /// The record under `id`.
    pub fn get(&self, id: Snowflake) -> (r: Option<&T>)
        ensures
            r.deep_view() == resolved_value(self.deep_view(), id.0),
    {
        let ghost all = self.deep_view();
        let mut i: usize = self.entries.len();
        assert(all.subrange(0, i as int) =~= all);
        while i > 0
            invariant
                i <= self.entries@.len(),
                all == self.deep_view(),
                resolved_value(all, id.0) == resolved_value(all.subrange(0, i as int), id.0),
            decreases i,
        {
            let ghost prefix = all.subrange(0, i as int);
            i -= 1;
            assert(prefix.last() == all[i as int]);
            assert(prefix.drop_last() =~= all.subrange(0, i as int));
            if self.entries[i].0.0 == id.0 {
                return Some(&self.entries[i].1);
            }
        }
        None
    }
}

impl<T: FromJson> FromJson for Resolved<T> {
    open spec fn decoding(j: JsonView) -> Result<Seq<(u64, T::V)>, DecodeError> {
        match j {
            JsonView::Object(members) => collect(
                Seq::new(members.len(), |i: int| resolved_entry::<T>(members[i])),
            ),
            _ => Err(DecodeError::InvalidType("object")),
        }
    }

    fn from_json(j: &Json) -> (r: Result<Resolved<T>, DecodeError>) {
        match j {
            Json::Object(members) => {
                proof {
                    lemma_json_view(*j);
                }
                let ghost all = members_view(members@);
                let ghost outcomes = Seq::new(all.len(), |i: int| resolved_entry::<T>(all[i]));
                let mut entries: Vec<(Snowflake, T)> = Vec::new();
                let mut i: usize = 0;
                assert(entries.deep_view() =~= Seq::<(u64, T::V)>::empty());
                assert(outcomes.subrange(0, 0) =~= Seq::<
                    Result<(u64, T::V), DecodeError>,
                >::empty());
                while i < members.len()
                    invariant
                        i <= members@.len(),
                        all == members_view(members@),
                        outcomes == Seq::new(all.len(), |i: int| resolved_entry::<T>(all[i])),
                        j@ == JsonView::Object(all),
                        collect(outcomes.subrange(0, i as int)) == Ok::<
                            Seq<(u64, T::V)>,
                            DecodeError,
                        >(entries.deep_view()),
                    decreases members@.len() - i,
                {
                    let ghost before = entries.deep_view();
                    proof {
                        assert(all[i as int] == (members@[i as int].0@, members@[i as int].1@));
                        lemma_collect_step(outcomes, i as int);
                    }
                    let id = match Snowflake::parse(members[i].0.as_str()) {
                        Some(id) => id,
                        None => {
                            return Err(DecodeError::InvalidValue("snowflake"));
                        },
                    };
                    let x = T::from_json(&members[i].1)?;
                    entries.push((id, x));
                    assert(entries.deep_view() =~= before.push((id.0, x.deep_view())));
                    i += 1;
                }
                assert(outcomes.subrange(0, i as int) =~= outcomes);
                Ok(Resolved { entries })
            },
            _ => Err(DecodeError::InvalidType("object")),
        }
    }
}

} // verus!
