//! Roles and what they are tied to.

use crate::decode::{
    DecodeError, expect_object, FromJson, object_fault, opt, optional, req, required,
};
use crate::encode::{field, Members, no_members, object, opt_field, put, put_opt, ToJson};
use crate::json::{Json, JsonView, member};
use crate::round_trip::{
    lemma_concat, lemma_field, lemma_object, lemma_opt_field, lemma_optional_back,
    lemma_required_back, RoundTrip,
};
use crate::snowflake::Snowflake;
use vstd::prelude::*;
use vstd::string::*;

verus! {

/// A role of a guild.
#[derive(Debug, Clone, PartialEq, Eq)]
pub struct Role {
    pub id: Snowflake,
    pub name: String,
    pub color: u64,
    pub hoist: bool,
    pub position: u64,
    pub permissions: String,
    pub managed: bool,
    pub mentionable: bool,
    pub tags: Option<RoleTags>,
}

/// The model of [`Role`].
pub struct RoleView {
    pub id: u64,
    pub name: Seq<char>,
    pub color: u64,
    pub hoist: bool,
    pub position: u64,
    pub permissions: Seq<char>,
    pub managed: bool,
    pub mentionable: bool,
    pub tags: Option<RoleTagsView>,
}

impl DeepView for Role {
    type V = RoleView;

    open spec fn deep_view(&self) -> RoleView {
        RoleView {
            id: self.id.deep_view(),
            name: self.name.deep_view(),
            color: self.color.deep_view(),
            hoist: self.hoist.deep_view(),
            position: self.position.deep_view(),
            permissions: self.permissions.deep_view(),
            managed: self.managed.deep_view(),
            mentionable: self.mentionable.deep_view(),
            tags: self.tags.deep_view(),
        }
    }
}

impl FromJson for Role {
    open spec fn decoding(j: JsonView) -> Result<RoleView, DecodeError> {
        let id = required::<Snowflake>(j, "id");
        let name = required::<String>(j, "name");
        let color = required::<u64>(j, "color");
        let hoist = required::<bool>(j, "hoist");
        let position = required::<u64>(j, "position");
        let permissions = required::<String>(j, "permissions");
        let managed = required::<bool>(j, "managed");
        let mentionable = required::<bool>(j, "mentionable");
        let tags = optional::<RoleTags>(j, "tags");
        if object_fault(j) is Some {
            Err(object_fault(j)->0)
        } else if id is Err {
            Err(id->Err_0)
        } else if name is Err {
            Err(name->Err_0)
        } else if color is Err {
            Err(color->Err_0)
        } else if hoist is Err {
            Err(hoist->Err_0)
        } else if position is Err {
            Err(position->Err_0)
        } else if permissions is Err {
            Err(permissions->Err_0)
        } else if managed is Err {
            Err(managed->Err_0)
        } else if mentionable is Err {
            Err(mentionable->Err_0)
        } else if tags is Err {
            Err(tags->Err_0)
        } else {
            Ok(
                RoleView {
                    id: id->Ok_0,
                    name: name->Ok_0,
                    color: color->Ok_0,
                    hoist: hoist->Ok_0,
                    position: position->Ok_0,
                    permissions: permissions->Ok_0,
                    managed: managed->Ok_0,
                    mentionable: mentionable->Ok_0,
                    tags: tags->Ok_0,
                },
            )
        }
    }

    fn from_json(j: &Json) -> (r: Result<Role, DecodeError>) {
        expect_object(j)?;
        let id = req::<Snowflake>(j, "id")?;
        let name = req::<String>(j, "name")?;
        let color = req::<u64>(j, "color")?;
        let hoist = req::<bool>(j, "hoist")?;
        let position = req::<u64>(j, "position")?;
        let permissions = req::<String>(j, "permissions")?;
        let managed = req::<bool>(j, "managed")?;
        let mentionable = req::<bool>(j, "mentionable")?;
        let tags = opt::<RoleTags>(j, "tags")?;
        Ok(
            Role {
                id,
                name,
                color,
                hoist,
                position,
                permissions,
                managed,
                mentionable,
                tags,
            },
        )
    }
}

impl ToJson for Role {
    open spec fn encoding(m: RoleView) -> JsonView {
        JsonView::Object(
            Seq::empty()
                + field::<Snowflake>("id", m.id)
                + field::<String>("name", m.name)
                + field::<u64>("color", m.color)
                + field::<bool>("hoist", m.hoist)
                + field::<u64>("position", m.position)
                + field::<String>("permissions", m.permissions)
                + field::<bool>("managed", m.managed)
                + field::<bool>("mentionable", m.mentionable)
                + opt_field::<RoleTags>("tags", m.tags),
        )
    }

    fn to_json(&self) -> (j: Json) {
        let mut members = no_members();
        put(&mut members, "id", &self.id);
        put(&mut members, "name", &self.name);
        put(&mut members, "color", &self.color);
        put(&mut members, "hoist", &self.hoist);
        put(&mut members, "position", &self.position);
        put(&mut members, "permissions", &self.permissions);
        put(&mut members, "managed", &self.managed);
        put(&mut members, "mentionable", &self.mentionable);
        put_opt(&mut members, "tags", &self.tags);
        object(members)
    }
}

impl RoundTrip for Role {
    open spec fn faithful(m: RoleView) -> bool {
        &&& (m.tags matches Some(x) ==> RoleTags::faithful(x))
    }

    proof fn lemma_round_trip(m: RoleView) {
        // No two keys are the same.
        reveal_strlit("id");
        reveal_strlit("name");
        reveal_strlit("color");
        reveal_strlit("hoist");
        reveal_strlit("position");
        reveal_strlit("permissions");
        reveal_strlit("managed");
        reveal_strlit("mentionable");
        reveal_strlit("tags");
        assert("id"@.len() == 2);
        assert("name"@.len() == 4 && "name"@[0] == 'n');
        assert("color"@.len() == 5 && "color"@[0] == 'c');
        assert("hoist"@.len() == 5 && "hoist"@[0] == 'h');
        assert("position"@.len() == 8);
        assert("permissions"@.len() == 11 && "permissions"@[0] == 'p');
        assert("managed"@.len() == 7);
        assert("mentionable"@.len() == 11 && "mentionable"@[0] == 'm');
        assert("tags"@.len() == 4 && "tags"@[0] == 't');
        // What the object holds, member by member.
        let s0: Members = Seq::empty();
        Snowflake::lemma_round_trip(m.id);
        lemma_field::<Snowflake>("id", m.id);
        let s1 = s0 + field::<Snowflake>("id", m.id);
        lemma_concat(s0, field::<Snowflake>("id", m.id));
        String::lemma_round_trip(m.name);
        lemma_field::<String>("name", m.name);
        let s2 = s1 + field::<String>("name", m.name);
        lemma_concat(s1, field::<String>("name", m.name));
        u64::lemma_round_trip(m.color);
        lemma_field::<u64>("color", m.color);
        let s3 = s2 + field::<u64>("color", m.color);
        lemma_concat(s2, field::<u64>("color", m.color));
        bool::lemma_round_trip(m.hoist);
        lemma_field::<bool>("hoist", m.hoist);
        let s4 = s3 + field::<bool>("hoist", m.hoist);
        lemma_concat(s3, field::<bool>("hoist", m.hoist));
        u64::lemma_round_trip(m.position);
        lemma_field::<u64>("position", m.position);
        let s5 = s4 + field::<u64>("position", m.position);
        lemma_concat(s4, field::<u64>("position", m.position));
        String::lemma_round_trip(m.permissions);
        lemma_field::<String>("permissions", m.permissions);
        let s6 = s5 + field::<String>("permissions", m.permissions);
        lemma_concat(s5, field::<String>("permissions", m.permissions));
        bool::lemma_round_trip(m.managed);
        lemma_field::<bool>("managed", m.managed);
        let s7 = s6 + field::<bool>("managed", m.managed);
        lemma_concat(s6, field::<bool>("managed", m.managed));
        bool::lemma_round_trip(m.mentionable);
        lemma_field::<bool>("mentionable", m.mentionable);
        let s8 = s7 + field::<bool>("mentionable", m.mentionable);
        lemma_concat(s7, field::<bool>("mentionable", m.mentionable));
        if m.tags is Some {
            RoleTags::lemma_round_trip(m.tags->0);
        }
        lemma_opt_field::<RoleTags>("tags", m.tags);
        let s9 = s8 + opt_field::<RoleTags>("tags", m.tags);
        lemma_concat(s8, opt_field::<RoleTags>("tags", m.tags));
        lemma_object(s9);
        // What each member decodes to.
        let j = JsonView::Object(s9);
        lemma_required_back::<Snowflake>(j, "id", m.id);
        lemma_required_back::<String>(j, "name", m.name);
        lemma_required_back::<u64>(j, "color", m.color);
        lemma_required_back::<bool>(j, "hoist", m.hoist);
        lemma_required_back::<u64>(j, "position", m.position);
        lemma_required_back::<String>(j, "permissions", m.permissions);
        lemma_required_back::<bool>(j, "managed", m.managed);
        lemma_required_back::<bool>(j, "mentionable", m.mentionable);
        lemma_optional_back::<RoleTags>(j, "tags", m.tags);
    }
}

/// What a role is tied to.
#[derive(Debug, Clone, PartialEq, Eq)]
pub struct RoleTags {
    pub bot_id: Option<Snowflake>,
    pub integration_id: Option<Snowflake>,
    pub premium_subscriber: Option<()>,
}

/// The model of [`RoleTags`].
pub struct RoleTagsView {
    pub bot_id: Option<u64>,
    pub integration_id: Option<u64>,
    pub premium_subscriber: Option<()>,
}

impl DeepView for RoleTags {
    type V = RoleTagsView;

    open spec fn deep_view(&self) -> RoleTagsView {
        RoleTagsView {
            bot_id: self.bot_id.deep_view(),
            integration_id: self.integration_id.deep_view(),
            premium_subscriber: self.premium_subscriber.deep_view(),
        }
    }
}

impl FromJson for RoleTags {
    open spec fn decoding(j: JsonView) -> Result<RoleTagsView, DecodeError> {
        let bot_id = optional::<Snowflake>(j, "bot_id");
        let integration_id = optional::<Snowflake>(j, "integration_id");
        let premium_subscriber = optional::<()>(j, "premium_subscriber");
        if object_fault(j) is Some {
            Err(object_fault(j)->0)
        } else if bot_id is Err {
            Err(bot_id->Err_0)
        } else if integration_id is Err {
            Err(integration_id->Err_0)
        } else if premium_subscriber is Err {
            Err(premium_subscriber->Err_0)
        } else {
            Ok(
                RoleTagsView {
                    bot_id: bot_id->Ok_0,
                    integration_id: integration_id->Ok_0,
                    premium_subscriber: premium_subscriber->Ok_0,
                },
            )
        }
    }

    fn from_json(j: &Json) -> (r: Result<RoleTags, DecodeError>) {
        expect_object(j)?;
        let bot_id = opt::<Snowflake>(j, "bot_id")?;
        let integration_id = opt::<Snowflake>(j, "integration_id")?;
        let premium_subscriber = opt::<()>(j, "premium_subscriber")?;
        Ok(RoleTags { bot_id, integration_id, premium_subscriber })
    }
}

impl ToJson for RoleTags {
    open spec fn encoding(m: RoleTagsView) -> JsonView {
        JsonView::Object(
            Seq::empty()
                + opt_field::<Snowflake>("bot_id", m.bot_id)
                + opt_field::<Snowflake>("integration_id", m.integration_id)
                + opt_field::<()>("premium_subscriber", m.premium_subscriber),
        )
    }

    fn to_json(&self) -> (j: Json) {
        let mut members = no_members();
        put_opt(&mut members, "bot_id", &self.bot_id);
        put_opt(&mut members, "integration_id", &self.integration_id);
        put_opt(&mut members, "premium_subscriber", &self.premium_subscriber);
        object(members)
    }
}

impl RoundTrip for RoleTags {
    open spec fn faithful(m: RoleTagsView) -> bool {
        &&& m.premium_subscriber is None
    }

    proof fn lemma_round_trip(m: RoleTagsView) {
        // No two keys are the same.
        reveal_strlit("bot_id");
        reveal_strlit("integration_id");
        reveal_strlit("premium_subscriber");
        assert("bot_id"@.len() == 6);
        assert("integration_id"@.len() == 14);
        assert("premium_subscriber"@.len() == 18);
        // What the object holds, member by member.
        let s0: Members = Seq::empty();
        if m.bot_id is Some {
            Snowflake::lemma_round_trip(m.bot_id->0);
        }
        lemma_opt_field::<Snowflake>("bot_id", m.bot_id);
        let s1 = s0 + opt_field::<Snowflake>("bot_id", m.bot_id);
        lemma_concat(s0, opt_field::<Snowflake>("bot_id", m.bot_id));
        if m.integration_id is Some {
            Snowflake::lemma_round_trip(m.integration_id->0);
        }
        lemma_opt_field::<Snowflake>("integration_id", m.integration_id);
        let s2 = s1 + opt_field::<Snowflake>("integration_id", m.integration_id);
        lemma_concat(s1, opt_field::<Snowflake>("integration_id", m.integration_id));
        lemma_opt_field::<()>("premium_subscriber", m.premium_subscriber);
        let s3 = s2 + opt_field::<()>("premium_subscriber", m.premium_subscriber);
        lemma_concat(s2, opt_field::<()>("premium_subscriber", m.premium_subscriber));
        lemma_object(s3);
        // What each member decodes to.
        let j = JsonView::Object(s3);
        lemma_optional_back::<Snowflake>(j, "bot_id", m.bot_id);
        lemma_optional_back::<Snowflake>(j, "integration_id", m.integration_id);
        assert(optional::<()>(j, "premium_subscriber") == Ok::<Option<()>, DecodeError>(
            m.premium_subscriber,
        ));
    }
}

} // verus!
