//! Emoji.

use crate::decode::{
    DecodeError, defaulted, expect_object, FromJson, list, object_fault, opt, optional,
};
use crate::encode::{
    filled_field, Members, no_members, object, opt_field, put_filled, put_opt, ToJson,
};
use crate::json::{Json, JsonView, member};
use crate::permission::{Role, RoleView};
use crate::round_trip::{
    lemma_concat, lemma_defaulted_back, lemma_filled_field, lemma_object, lemma_opt_field,
    lemma_optional_back, RoundTrip,
};
use crate::snowflake::Snowflake;
use crate::user::{User, UserView};
use vstd::prelude::*;
use vstd::string::*;

verus! {

/// An emoji: one of Unicode, which has only a name, or one of a guild.
#[derive(Debug, Clone, PartialEq, Eq)]
pub struct Emoji {
    pub id: Option<Snowflake>,
    pub name: Option<String>,
    pub roles: Vec<Role>,
    pub user: Option<User>,
    pub require_colons: Option<bool>,
    pub managed: Option<bool>,
    pub animated: Option<bool>,
    pub available: Option<bool>,
}

/// The model of [`Emoji`].
pub struct EmojiView {
    pub id: Option<u64>,
    pub name: Option<Seq<char>>,
    pub roles: Seq<RoleView>,
    pub user: Option<UserView>,
    pub require_colons: Option<bool>,
    pub managed: Option<bool>,
    pub animated: Option<bool>,
    pub available: Option<bool>,
}

impl DeepView for Emoji {
    type V = EmojiView;

    open spec fn deep_view(&self) -> EmojiView {
        EmojiView {
            id: self.id.deep_view(),
            name: self.name.deep_view(),
            roles: self.roles.deep_view(),
            user: self.user.deep_view(),
            require_colons: self.require_colons.deep_view(),
            managed: self.managed.deep_view(),
            animated: self.animated.deep_view(),
            available: self.available.deep_view(),
        }
    }
}

impl EmojiView {
    /// The record with nothing set.
    pub open spec fn empty() -> EmojiView {
        EmojiView {
            id: None,
            name: None,
            roles: Seq::empty(),
            user: None,
            require_colons: None,
            managed: None,
            animated: None,
            available: None,
        }
    }
}

impl Default for Emoji {
    fn default() -> (r: Emoji)
        ensures
            r.deep_view() == EmojiView::empty(),
    {
        let r = Emoji {
            id: None,
            name: None,
            roles: Vec::new(),
            user: None,
            require_colons: None,
            managed: None,
            animated: None,
            available: None,
        };
        assert(r.roles.deep_view() =~= Seq::empty());
        r
    }
}

impl FromJson for Emoji {
    open spec fn decoding(j: JsonView) -> Result<EmojiView, DecodeError> {
        let id = optional::<Snowflake>(j, "id");
        let name = optional::<String>(j, "name");
        let roles = defaulted::<Role>(j, "roles");
        let user = optional::<User>(j, "user");
        let require_colons = optional::<bool>(j, "require_colons");
        let managed = optional::<bool>(j, "managed");
        let animated = optional::<bool>(j, "animated");
        let available = optional::<bool>(j, "available");
        if object_fault(j) is Some {
            Err(object_fault(j)->0)
        } else if id is Err {
            Err(id->Err_0)
        } else if name is Err {
            Err(name->Err_0)
        } else if roles is Err {
            Err(roles->Err_0)
        } else if user is Err {
            Err(user->Err_0)
        } else if require_colons is Err {
            Err(require_colons->Err_0)
        } else if managed is Err {
            Err(managed->Err_0)
        } else if animated is Err {
            Err(animated->Err_0)
        } else if available is Err {
            Err(available->Err_0)
        } else {
            Ok(
                EmojiView {
                    id: id->Ok_0,
                    name: name->Ok_0,
                    roles: roles->Ok_0,
                    user: user->Ok_0,
                    require_colons: require_colons->Ok_0,
                    managed: managed->Ok_0,
                    animated: animated->Ok_0,
                    available: available->Ok_0,
                },
            )
        }
    }

    fn from_json(j: &Json) -> (r: Result<Emoji, DecodeError>) {
        expect_object(j)?;
        let id = opt::<Snowflake>(j, "id")?;
        let name = opt::<String>(j, "name")?;
        let roles = list::<Role>(j, "roles")?;
        let user = opt::<User>(j, "user")?;
        let require_colons = opt::<bool>(j, "require_colons")?;
        let managed = opt::<bool>(j, "managed")?;
        let animated = opt::<bool>(j, "animated")?;
        let available = opt::<bool>(j, "available")?;
        Ok(
            Emoji {
                id,
                name,
                roles,
                user,
                require_colons,
                managed,
                animated,
                available,
            },
        )
    }
}

impl ToJson for Emoji {
    open spec fn encoding(m: EmojiView) -> JsonView {
        JsonView::Object(
            Seq::empty()
                + opt_field::<Snowflake>("id", m.id)
                + opt_field::<String>("name", m.name)
                + filled_field::<Role>("roles", m.roles)
                + opt_field::<User>("user", m.user)
                + opt_field::<bool>("require_colons", m.require_colons)
                + opt_field::<bool>("managed", m.managed)
                + opt_field::<bool>("animated", m.animated)
                + opt_field::<bool>("available", m.available),
        )
    }

    fn to_json(&self) -> (j: Json) {
        let mut members = no_members();
        put_opt(&mut members, "id", &self.id);
        put_opt(&mut members, "name", &self.name);
        put_filled(&mut members, "roles", &self.roles);
        put_opt(&mut members, "user", &self.user);
        put_opt(&mut members, "require_colons", &self.require_colons);
        put_opt(&mut members, "managed", &self.managed);
        put_opt(&mut members, "animated", &self.animated);
        put_opt(&mut members, "available", &self.available);
        object(members)
    }
}

impl RoundTrip for Emoji {
    open spec fn faithful(m: EmojiView) -> bool {
        &&& Vec::<Role>::faithful(m.roles)
    }

    proof fn lemma_round_trip(m: EmojiView) {
        // No two keys are the same.
        reveal_strlit("id");
        reveal_strlit("name");
        reveal_strlit("roles");
        reveal_strlit("user");
        reveal_strlit("require_colons");
        reveal_strlit("managed");
        reveal_strlit("animated");
        reveal_strlit("available");
        assert("id"@.len() == 2);
        assert("name"@.len() == 4 && "name"@[0] == 'n');
        assert("roles"@.len() == 5);
        assert("user"@.len() == 4 && "user"@[0] == 'u');
        assert("require_colons"@.len() == 14);
        assert("managed"@.len() == 7);
        assert("animated"@.len() == 8);
        assert("available"@.len() == 9);
        // What the object holds, member by member.
        let s0: Members = Seq::empty();
        if m.id is Some {
            Snowflake::lemma_round_trip(m.id->0);
        }
        lemma_opt_field::<Snowflake>("id", m.id);
        let s1 = s0 + opt_field::<Snowflake>("id", m.id);
        lemma_concat(s0, opt_field::<Snowflake>("id", m.id));
        if m.name is Some {
            String::lemma_round_trip(m.name->0);
        }
        lemma_opt_field::<String>("name", m.name);
        let s2 = s1 + opt_field::<String>("name", m.name);
        lemma_concat(s1, opt_field::<String>("name", m.name));
        Vec::<Role>::lemma_round_trip(m.roles);
        if m.roles.len() == 0 {
            assert(m.roles =~= Seq::empty());
        }
        lemma_filled_field::<Role>("roles", m.roles);
        let s3 = s2 + filled_field::<Role>("roles", m.roles);
        lemma_concat(s2, filled_field::<Role>("roles", m.roles));
        if m.user is Some {
            User::lemma_round_trip(m.user->0);
        }
        lemma_opt_field::<User>("user", m.user);
        let s4 = s3 + opt_field::<User>("user", m.user);
        lemma_concat(s3, opt_field::<User>("user", m.user));
        if m.require_colons is Some {
            bool::lemma_round_trip(m.require_colons->0);
        }
        lemma_opt_field::<bool>("require_colons", m.require_colons);
        let s5 = s4 + opt_field::<bool>("require_colons", m.require_colons);
        lemma_concat(s4, opt_field::<bool>("require_colons", m.require_colons));
        if m.managed is Some {
            bool::lemma_round_trip(m.managed->0);
        }
        lemma_opt_field::<bool>("managed", m.managed);
        let s6 = s5 + opt_field::<bool>("managed", m.managed);
        lemma_concat(s5, opt_field::<bool>("managed", m.managed));
        if m.animated is Some {
            bool::lemma_round_trip(m.animated->0);
        }
        lemma_opt_field::<bool>("animated", m.animated);
        let s7 = s6 + opt_field::<bool>("animated", m.animated);
        lemma_concat(s6, opt_field::<bool>("animated", m.animated));
        if m.available is Some {
            bool::lemma_round_trip(m.available->0);
        }
        lemma_opt_field::<bool>("available", m.available);
        let s8 = s7 + opt_field::<bool>("available", m.available);
        lemma_concat(s7, opt_field::<bool>("available", m.available));
        lemma_object(s8);
        // What each member decodes to.
        let j = JsonView::Object(s8);
        lemma_optional_back::<Snowflake>(j, "id", m.id);
        lemma_optional_back::<String>(j, "name", m.name);
        lemma_defaulted_back::<Role>(j, "roles", m.roles);
        lemma_optional_back::<User>(j, "user", m.user);
        lemma_optional_back::<bool>(j, "require_colons", m.require_colons);
        lemma_optional_back::<bool>(j, "managed", m.managed);
        lemma_optional_back::<bool>(j, "animated", m.animated);
        lemma_optional_back::<bool>(j, "available", m.available);
    }
}

} // verus!
