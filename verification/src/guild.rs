//! Members of guilds.

use crate::decode::{
    DecodeError, expect_object, FromJson, object_fault, opt, optional, req, required,
};
use crate::encode::{
    filled_field, Members, no_members, object, opt_field, put_filled, put_opt, ToJson,
};
use crate::json::{Json, JsonView, member};
use crate::round_trip::{
    lemma_concat, lemma_filled_field, lemma_object, lemma_opt_field, lemma_optional_back,
    lemma_required_back, RoundTrip,
};
use crate::snowflake::Snowflake;
use crate::user::{User, UserView};
use vstd::prelude::*;
use vstd::string::*;

verus! {

/// A user as a member of a guild.
#[derive(Debug, Clone, PartialEq, Eq)]
pub struct GuildMember {
    pub user: Option<User>,
    pub nick: Option<String>,
    pub avatar: Option<String>,
    pub roles: Vec<Snowflake>,
    pub joined_at: String,
    pub premium_since: Option<String>,
    pub deaf: Option<bool>,
    pub mute: Option<bool>,
    pub flags: Option<i64>,
    pub pending: Option<bool>,
    pub permissions: Option<String>,
    pub communication_disabled_until: Option<String>,
}

/// The model of [`GuildMember`].
pub struct GuildMemberView {
    pub user: Option<UserView>,
    pub nick: Option<Seq<char>>,
    pub avatar: Option<Seq<char>>,
    pub roles: Seq<u64>,
    pub joined_at: Seq<char>,
    pub premium_since: Option<Seq<char>>,
    pub deaf: Option<bool>,
    pub mute: Option<bool>,
    pub flags: Option<i64>,
    pub pending: Option<bool>,
    pub permissions: Option<Seq<char>>,
    pub communication_disabled_until: Option<Seq<char>>,
}

impl DeepView for GuildMember {
    type V = GuildMemberView;

    open spec fn deep_view(&self) -> GuildMemberView {
        GuildMemberView {
            user: self.user.deep_view(),
            nick: self.nick.deep_view(),
            avatar: self.avatar.deep_view(),
            roles: self.roles.deep_view(),
            joined_at: self.joined_at.deep_view(),
            premium_since: self.premium_since.deep_view(),
            deaf: self.deaf.deep_view(),
            mute: self.mute.deep_view(),
            flags: self.flags.deep_view(),
            pending: self.pending.deep_view(),
            permissions: self.permissions.deep_view(),
            communication_disabled_until: self.communication_disabled_until.deep_view(),
        }
    }
}

impl GuildMemberView {
    /// The record with nothing set.
    pub open spec fn empty() -> GuildMemberView {
        GuildMemberView {
            user: None,
            nick: None,
            avatar: None,
            roles: Seq::empty(),
            joined_at: Seq::empty(),
            premium_since: None,
            deaf: None,
            mute: None,
            flags: None,
            pending: None,
            permissions: None,
            communication_disabled_until: None,
        }
    }
}

impl Default for GuildMember {
    fn default() -> (r: GuildMember)
        ensures
            r.deep_view() == GuildMemberView::empty(),
    {
        let r = GuildMember {
            user: None,
            nick: None,
            avatar: None,
            roles: Vec::new(),
            joined_at: String::new(),
            premium_since: None,
            deaf: None,
            mute: None,
            flags: None,
            pending: None,
            permissions: None,
            communication_disabled_until: None,
        };
        assert(r.roles.deep_view() =~= Seq::empty());
        r
    }
}

impl FromJson for GuildMember {
    open spec fn decoding(j: JsonView) -> Result<GuildMemberView, DecodeError> {
        let user = optional::<User>(j, "user");
        let nick = optional::<String>(j, "nick");
        let avatar = optional::<String>(j, "avatar");
        let roles = required::<Vec<Snowflake>>(j, "roles");
        let joined_at = required::<String>(j, "joined_at");
        let premium_since = optional::<String>(j, "premium_since");
        let deaf = optional::<bool>(j, "deaf");
        let mute = optional::<bool>(j, "mute");
        let flags = optional::<i64>(j, "flags");
        let pending = optional::<bool>(j, "pending");
        let permissions = optional::<String>(j, "permissions");
        let communication_disabled_until = optional::<String>(j, "communication_disabled_until");
        if object_fault(j) is Some {
            Err(object_fault(j)->0)
        } else if user is Err {
            Err(user->Err_0)
        } else if nick is Err {
            Err(nick->Err_0)
        } else if avatar is Err {
            Err(avatar->Err_0)
        } else if roles is Err {
            Err(roles->Err_0)
        } else if joined_at is Err {
            Err(joined_at->Err_0)
        } else if premium_since is Err {
            Err(premium_since->Err_0)
        } else if deaf is Err {
            Err(deaf->Err_0)
        } else if mute is Err {
            Err(mute->Err_0)
        } else if flags is Err {
            Err(flags->Err_0)
        } else if pending is Err {
            Err(pending->Err_0)
        } else if permissions is Err {
            Err(permissions->Err_0)
        } else if communication_disabled_until is Err {
            Err(communication_disabled_until->Err_0)
        } else {
            Ok(
                GuildMemberView {
                    user: user->Ok_0,
                    nick: nick->Ok_0,
                    avatar: avatar->Ok_0,
                    roles: roles->Ok_0,
                    joined_at: joined_at->Ok_0,
                    premium_since: premium_since->Ok_0,
                    deaf: deaf->Ok_0,
                    mute: mute->Ok_0,
                    flags: flags->Ok_0,
                    pending: pending->Ok_0,
                    permissions: permissions->Ok_0,
                    communication_disabled_until: communication_disabled_until->Ok_0,
                },
            )
        }
    }

    fn from_json(j: &Json) -> (r: Result<GuildMember, DecodeError>) {
        expect_object(j)?;
        let user = opt::<User>(j, "user")?;
        let nick = opt::<String>(j, "nick")?;
        let avatar = opt::<String>(j, "avatar")?;
        let roles = req::<Vec<Snowflake>>(j, "roles")?;
        let joined_at = req::<String>(j, "joined_at")?;
        let premium_since = opt::<String>(j, "premium_since")?;
        let deaf = opt::<bool>(j, "deaf")?;
        let mute = opt::<bool>(j, "mute")?;
        let flags = opt::<i64>(j, "flags")?;
        let pending = opt::<bool>(j, "pending")?;
        let permissions = opt::<String>(j, "permissions")?;
        let communication_disabled_until = opt::<String>(j, "communication_disabled_until")?;
        Ok(
            GuildMember {
                user,
                nick,
                avatar,
                roles,
                joined_at,
                premium_since,
                deaf,
                mute,
                flags,
                pending,
                permissions,
                communication_disabled_until,
            },
        )
    }
}

/// What to change of a member of a guild.
#[derive(Debug, Clone, PartialEq, Eq)]
pub struct GuildMemberUpdate {
    pub nick: Option<String>,
    pub roles: Vec<Snowflake>,
    pub deaf: Option<bool>,
    pub mute: Option<bool>,
    pub channel_id: Option<Snowflake>,
    pub communication_disabled_until: Option<String>,
    pub flags: Option<i64>,
}

/// The model of [`GuildMemberUpdate`].
pub struct GuildMemberUpdateView {
    pub nick: Option<Seq<char>>,
    pub roles: Seq<u64>,
    pub deaf: Option<bool>,
    pub mute: Option<bool>,
    pub channel_id: Option<u64>,
    pub communication_disabled_until: Option<Seq<char>>,
    pub flags: Option<i64>,
}

impl DeepView for GuildMemberUpdate {
    type V = GuildMemberUpdateView;

    open spec fn deep_view(&self) -> GuildMemberUpdateView {
        GuildMemberUpdateView {
            nick: self.nick.deep_view(),
            roles: self.roles.deep_view(),
            deaf: self.deaf.deep_view(),
            mute: self.mute.deep_view(),
            channel_id: self.channel_id.deep_view(),
            communication_disabled_until: self.communication_disabled_until.deep_view(),
            flags: self.flags.deep_view(),
        }
    }
}

impl GuildMemberUpdateView {
    /// The record with nothing set.
    pub open spec fn empty() -> GuildMemberUpdateView {
        GuildMemberUpdateView {
            nick: None,
            roles: Seq::empty(),
            deaf: None,
            mute: None,
            channel_id: None,
            communication_disabled_until: None,
            flags: None,
        }
    }
}

impl Default for GuildMemberUpdate {
    fn default() -> (r: GuildMemberUpdate)
        ensures
            r.deep_view() == GuildMemberUpdateView::empty(),
    {
        let r = GuildMemberUpdate {
            nick: None,
            roles: Vec::new(),
            deaf: None,
            mute: None,
            channel_id: None,
            communication_disabled_until: None,
            flags: None,
        };
        assert(r.roles.deep_view() =~= Seq::empty());
        r
    }
}

impl FromJson for GuildMemberUpdate {
    open spec fn decoding(j: JsonView) -> Result<GuildMemberUpdateView, DecodeError> {
        let nick = optional::<String>(j, "nick");
        let roles = required::<Vec<Snowflake>>(j, "roles");
        let deaf = optional::<bool>(j, "deaf");
        let mute = optional::<bool>(j, "mute");
        let channel_id = optional::<Snowflake>(j, "channel_id");
        let communication_disabled_until = optional::<String>(j, "communication_disabled_until");
        let flags = optional::<i64>(j, "flags");
        if object_fault(j) is Some {
            Err(object_fault(j)->0)
        } else if nick is Err {
            Err(nick->Err_0)
        } else if roles is Err {
            Err(roles->Err_0)
        } else if deaf is Err {
            Err(deaf->Err_0)
        } else if mute is Err {
            Err(mute->Err_0)
        } else if channel_id is Err {
            Err(channel_id->Err_0)
        } else if communication_disabled_until is Err {
            Err(communication_disabled_until->Err_0)
        } else if flags is Err {
            Err(flags->Err_0)
        } else {
            Ok(
                GuildMemberUpdateView {
                    nick: nick->Ok_0,
                    roles: roles->Ok_0,
                    deaf: deaf->Ok_0,
                    mute: mute->Ok_0,
                    channel_id: channel_id->Ok_0,
                    communication_disabled_until: communication_disabled_until->Ok_0,
                    flags: flags->Ok_0,
                },
            )
        }
    }

    fn from_json(j: &Json) -> (r: Result<GuildMemberUpdate, DecodeError>) {
        expect_object(j)?;
        let nick = opt::<String>(j, "nick")?;
        let roles = req::<Vec<Snowflake>>(j, "roles")?;
        let deaf = opt::<bool>(j, "deaf")?;
        let mute = opt::<bool>(j, "mute")?;
        let channel_id = opt::<Snowflake>(j, "channel_id")?;
        let communication_disabled_until = opt::<String>(j, "communication_disabled_until")?;
        let flags = opt::<i64>(j, "flags")?;
        Ok(
            GuildMemberUpdate {
                nick,
                roles,
                deaf,
                mute,
                channel_id,
                communication_disabled_until,
                flags,
            },
        )
    }
}

impl ToJson for GuildMemberUpdate {
    open spec fn encoding(m: GuildMemberUpdateView) -> JsonView {
        JsonView::Object(
            Seq::empty()
                + opt_field::<String>("nick", m.nick)
                + filled_field::<Snowflake>("roles", m.roles)
                + opt_field::<bool>("deaf", m.deaf)
                + opt_field::<bool>("mute", m.mute)
                + opt_field::<Snowflake>("channel_id", m.channel_id)
                + opt_field::<String>(
                    "communication_disabled_until",
                    m.communication_disabled_until,
                )
                + opt_field::<i64>("flags", m.flags),
        )
    }

    fn to_json(&self) -> (j: Json) {
        let mut members = no_members();
        put_opt(&mut members, "nick", &self.nick);
        put_filled(&mut members, "roles", &self.roles);
        put_opt(&mut members, "deaf", &self.deaf);
        put_opt(&mut members, "mute", &self.mute);
        put_opt(&mut members, "channel_id", &self.channel_id);
        put_opt(&mut members, "communication_disabled_until", &self.communication_disabled_until);
        put_opt(&mut members, "flags", &self.flags);
        object(members)
    }
}

impl RoundTrip for GuildMemberUpdate {
    open spec fn faithful(m: GuildMemberUpdateView) -> bool {
        &&& m.roles.len() > 0
    }

    proof fn lemma_round_trip(m: GuildMemberUpdateView) {
        // No two keys are the same.
        reveal_strlit("nick");
        reveal_strlit("roles");
        reveal_strlit("deaf");
        reveal_strlit("mute");
        reveal_strlit("channel_id");
        reveal_strlit("communication_disabled_until");
        reveal_strlit("flags");
        assert("nick"@.len() == 4 && "nick"@[0] == 'n');
        assert("roles"@.len() == 5 && "roles"@[0] == 'r');
        assert("deaf"@.len() == 4 && "deaf"@[0] == 'd');
        assert("mute"@.len() == 4 && "mute"@[0] == 'm');
        assert("channel_id"@.len() == 10);
        assert("communication_disabled_until"@.len() == 28);
        assert("flags"@.len() == 5 && "flags"@[0] == 'f');
        // What the object holds, member by member.
        let s0: Members = Seq::empty();
        if m.nick is Some {
            String::lemma_round_trip(m.nick->0);
        }
        lemma_opt_field::<String>("nick", m.nick);
        let s1 = s0 + opt_field::<String>("nick", m.nick);
        lemma_concat(s0, opt_field::<String>("nick", m.nick));
        Vec::<Snowflake>::lemma_round_trip(m.roles);
        lemma_filled_field::<Snowflake>("roles", m.roles);
        let s2 = s1 + filled_field::<Snowflake>("roles", m.roles);
        lemma_concat(s1, filled_field::<Snowflake>("roles", m.roles));
        if m.deaf is Some {
            bool::lemma_round_trip(m.deaf->0);
        }
        lemma_opt_field::<bool>("deaf", m.deaf);
        let s3 = s2 + opt_field::<bool>("deaf", m.deaf);
        lemma_concat(s2, opt_field::<bool>("deaf", m.deaf));
        if m.mute is Some {
            bool::lemma_round_trip(m.mute->0);
        }
        lemma_opt_field::<bool>("mute", m.mute);
        let s4 = s3 + opt_field::<bool>("mute", m.mute);
        lemma_concat(s3, opt_field::<bool>("mute", m.mute));
        if m.channel_id is Some {
            Snowflake::lemma_round_trip(m.channel_id->0);
        }
        lemma_opt_field::<Snowflake>("channel_id", m.channel_id);
        let s5 = s4 + opt_field::<Snowflake>("channel_id", m.channel_id);
        lemma_concat(s4, opt_field::<Snowflake>("channel_id", m.channel_id));
        if m.communication_disabled_until is Some {
            String::lemma_round_trip(m.communication_disabled_until->0);
        }
        lemma_opt_field::<String>("communication_disabled_until", m.communication_disabled_until);
        let s6 = s5 + opt_field::<String>(
            "communication_disabled_until",
            m.communication_disabled_until,
        );
        lemma_concat(s5, opt_field::<String>(
            "communication_disabled_until",
            m.communication_disabled_until,
        ));
        if m.flags is Some {
            i64::lemma_round_trip(m.flags->0);
        }
        lemma_opt_field::<i64>("flags", m.flags);
        let s7 = s6 + opt_field::<i64>("flags", m.flags);
        lemma_concat(s6, opt_field::<i64>("flags", m.flags));
        lemma_object(s7);
        // What each member decodes to.
        let j = JsonView::Object(s7);
        lemma_optional_back::<String>(j, "nick", m.nick);
        lemma_required_back::<Vec<Snowflake>>(j, "roles", m.roles);
        lemma_optional_back::<bool>(j, "deaf", m.deaf);
        lemma_optional_back::<bool>(j, "mute", m.mute);
        lemma_optional_back::<Snowflake>(j, "channel_id", m.channel_id);
        lemma_optional_back::<String>(
            j,
            "communication_disabled_until",
            m.communication_disabled_until,
        );
        lemma_optional_back::<i64>(j, "flags", m.flags);
    }
}

} // verus!
