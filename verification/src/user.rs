//! Users of the platform.

use crate::decode::{
    DecodeError, expect_object, FromJson, object_fault, opt, optional, req, required,
};
use crate::encode::{field, Members, no_members, object, opt_field, put, put_opt, ToJson};
use crate::json::{Json, JsonView, member};
use crate::round_trip::{
    lemma_concat, lemma_field, lemma_object, lemma_opt_field, lemma_optional_back,
    lemma_required_back, RoundTrip,
};
use crate::snowflake::Snowflake;
use vstd::prelude::*;
use vstd::string::*;

verus! {

/// A user of the platform, as the platform describes one.
#[derive(Debug, Clone, PartialEq, Eq)]
pub struct User {
    pub id: Snowflake,
    pub username: String,
    pub discriminator: String,
    pub global_name: Option<String>,
    pub avatar: Option<String>,
    pub bot: Option<bool>,
    pub system: Option<bool>,
    pub mfa_enabled: Option<bool>,
    pub banner: Option<String>,
    pub accent_color: Option<u64>,
    pub locale: Option<String>,
    pub verified: Option<bool>,
    pub email: Option<String>,
    pub flags: Option<u64>,
    pub premium_type: Option<u64>,
    pub public_flags: Option<u64>,
    pub avatar_decoration: Option<String>,
}

/// The model of [`User`].
pub struct UserView {
    pub id: u64,
    pub username: Seq<char>,
    pub discriminator: Seq<char>,
    pub global_name: Option<Seq<char>>,
    pub avatar: Option<Seq<char>>,
    pub bot: Option<bool>,
    pub system: Option<bool>,
    pub mfa_enabled: Option<bool>,
    pub banner: Option<Seq<char>>,
    pub accent_color: Option<u64>,
    pub locale: Option<Seq<char>>,
    pub verified: Option<bool>,
    pub email: Option<Seq<char>>,
    pub flags: Option<u64>,
    pub premium_type: Option<u64>,
    pub public_flags: Option<u64>,
    pub avatar_decoration: Option<Seq<char>>,
}

impl DeepView for User {
    type V = UserView;

    open spec fn deep_view(&self) -> UserView {
        UserView {
            id: self.id.deep_view(),
            username: self.username.deep_view(),
            discriminator: self.discriminator.deep_view(),
            global_name: self.global_name.deep_view(),
            avatar: self.avatar.deep_view(),
            bot: self.bot.deep_view(),
            system: self.system.deep_view(),
            mfa_enabled: self.mfa_enabled.deep_view(),
            banner: self.banner.deep_view(),
            accent_color: self.accent_color.deep_view(),
            locale: self.locale.deep_view(),
            verified: self.verified.deep_view(),
            email: self.email.deep_view(),
            flags: self.flags.deep_view(),
            premium_type: self.premium_type.deep_view(),
            public_flags: self.public_flags.deep_view(),
            avatar_decoration: self.avatar_decoration.deep_view(),
        }
    }
}

impl FromJson for User {
    open spec fn decoding(j: JsonView) -> Result<UserView, DecodeError> {
        let id = required::<Snowflake>(j, "id");
        let username = required::<String>(j, "username");
        let discriminator = required::<String>(j, "discriminator");
        let global_name = optional::<String>(j, "global_name");
        let avatar = optional::<String>(j, "avatar");
        let bot = optional::<bool>(j, "bot");
        let system = optional::<bool>(j, "system");
        let mfa_enabled = optional::<bool>(j, "mfa_enabled");
        let banner = optional::<String>(j, "banner");
        let accent_color = optional::<u64>(j, "accent_color");
        let locale = optional::<String>(j, "locale");
        let verified = optional::<bool>(j, "verified");
        let email = optional::<String>(j, "email");
        let flags = optional::<u64>(j, "flags");
        let premium_type = optional::<u64>(j, "premium_type");
        let public_flags = optional::<u64>(j, "public_flags");
        let avatar_decoration = optional::<String>(j, "avatar_decoration");
        if object_fault(j) is Some {
            Err(object_fault(j)->0)
        } else if id is Err {
            Err(id->Err_0)
        } else if username is Err {
            Err(username->Err_0)
        } else if discriminator is Err {
            Err(discriminator->Err_0)
        } else if global_name is Err {
            Err(global_name->Err_0)
        } else if avatar is Err {
            Err(avatar->Err_0)
        } else if bot is Err {
            Err(bot->Err_0)
        } else if system is Err {
            Err(system->Err_0)
        } else if mfa_enabled is Err {
            Err(mfa_enabled->Err_0)
        } else if banner is Err {
            Err(banner->Err_0)
        } else if accent_color is Err {
            Err(accent_color->Err_0)
        } else if locale is Err {
            Err(locale->Err_0)
        } else if verified is Err {
            Err(verified->Err_0)
        } else if email is Err {
            Err(email->Err_0)
        } else if flags is Err {
            Err(flags->Err_0)
        } else if premium_type is Err {
            Err(premium_type->Err_0)
        } else if public_flags is Err {
            Err(public_flags->Err_0)
        } else if avatar_decoration is Err {
            Err(avatar_decoration->Err_0)
        } else {
            Ok(
                UserView {
                    id: id->Ok_0,
                    username: username->Ok_0,
                    discriminator: discriminator->Ok_0,
                    global_name: global_name->Ok_0,
                    avatar: avatar->Ok_0,
                    bot: bot->Ok_0,
                    system: system->Ok_0,
                    mfa_enabled: mfa_enabled->Ok_0,
                    banner: banner->Ok_0,
                    accent_color: accent_color->Ok_0,
                    locale: locale->Ok_0,
                    verified: verified->Ok_0,
                    email: email->Ok_0,
                    flags: flags->Ok_0,
                    premium_type: premium_type->Ok_0,
                    public_flags: public_flags->Ok_0,
                    avatar_decoration: avatar_decoration->Ok_0,
                },
            )
        }
    }

    fn from_json(j: &Json) -> (r: Result<User, DecodeError>) {
        expect_object(j)?;
        let id = req::<Snowflake>(j, "id")?;
        let username = req::<String>(j, "username")?;
        let discriminator = req::<String>(j, "discriminator")?;
        let global_name = opt::<String>(j, "global_name")?;
        let avatar = opt::<String>(j, "avatar")?;
        let bot = opt::<bool>(j, "bot")?;
        let system = opt::<bool>(j, "system")?;
        let mfa_enabled = opt::<bool>(j, "mfa_enabled")?;
        let banner = opt::<String>(j, "banner")?;
        let accent_color = opt::<u64>(j, "accent_color")?;
        let locale = opt::<String>(j, "locale")?;
        let verified = opt::<bool>(j, "verified")?;
        let email = opt::<String>(j, "email")?;
        let flags = opt::<u64>(j, "flags")?;
        let premium_type = opt::<u64>(j, "premium_type")?;
        let public_flags = opt::<u64>(j, "public_flags")?;
        let avatar_decoration = opt::<String>(j, "avatar_decoration")?;
        Ok(
            User {
                id,
                username,
                discriminator,
                global_name,
                avatar,
                bot,
                system,
                mfa_enabled,
                banner,
                accent_color,
                locale,
                verified,
                email,
                flags,
                premium_type,
                public_flags,
                avatar_decoration,
            },
        )
    }
}

impl ToJson for User {
    open spec fn encoding(m: UserView) -> JsonView {
        JsonView::Object(
            Seq::empty()
                + field::<Snowflake>("id", m.id)
                + field::<String>("username", m.username)
                + field::<String>("discriminator", m.discriminator)
                + opt_field::<String>("global_name", m.global_name)
                + opt_field::<String>("avatar", m.avatar)
                + opt_field::<bool>("bot", m.bot)
                + opt_field::<bool>("system", m.system)
                + opt_field::<bool>("mfa_enabled", m.mfa_enabled)
                + opt_field::<String>("banner", m.banner)
                + opt_field::<u64>("accent_color", m.accent_color)
                + opt_field::<String>("locale", m.locale)
                + opt_field::<bool>("verified", m.verified)
                + opt_field::<String>("email", m.email)
                + opt_field::<u64>("flags", m.flags)
                + opt_field::<u64>("premium_type", m.premium_type)
                + opt_field::<u64>("public_flags", m.public_flags)
                + opt_field::<String>("avatar_decoration", m.avatar_decoration),
        )
    }

    fn to_json(&self) -> (j: Json) {
        let mut members = no_members();
        put(&mut members, "id", &self.id);
        put(&mut members, "username", &self.username);
        put(&mut members, "discriminator", &self.discriminator);
        put_opt(&mut members, "global_name", &self.global_name);
        put_opt(&mut members, "avatar", &self.avatar);
        put_opt(&mut members, "bot", &self.bot);
        put_opt(&mut members, "system", &self.system);
        put_opt(&mut members, "mfa_enabled", &self.mfa_enabled);
        put_opt(&mut members, "banner", &self.banner);
        put_opt(&mut members, "accent_color", &self.accent_color);
        put_opt(&mut members, "locale", &self.locale);
        put_opt(&mut members, "verified", &self.verified);
        put_opt(&mut members, "email", &self.email);
        put_opt(&mut members, "flags", &self.flags);
        put_opt(&mut members, "premium_type", &self.premium_type);
        put_opt(&mut members, "public_flags", &self.public_flags);
        put_opt(&mut members, "avatar_decoration", &self.avatar_decoration);
        object(members)
    }
}

impl RoundTrip for User {
    open spec fn faithful(m: UserView) -> bool {
        true
    }

    proof fn lemma_round_trip(m: UserView) {
        // No two keys are the same.
        reveal_strlit("id");
        reveal_strlit("username");
        reveal_strlit("discriminator");
        reveal_strlit("global_name");
        reveal_strlit("avatar");
        reveal_strlit("bot");
        reveal_strlit("system");
        reveal_strlit("mfa_enabled");
        reveal_strlit("banner");
        reveal_strlit("accent_color");
        reveal_strlit("locale");
        reveal_strlit("verified");
        reveal_strlit("email");
        reveal_strlit("flags");
        reveal_strlit("premium_type");
        reveal_strlit("public_flags");
        reveal_strlit("avatar_decoration");
        assert("id"@.len() == 2);
        assert("username"@.len() == 8 && "username"@[0] == 'u');
        assert("discriminator"@.len() == 13);
        assert("global_name"@.len() == 11 && "global_name"@[0] == 'g');
        assert("avatar"@.len() == 6 && "avatar"@[0] == 'a');
        assert("bot"@.len() == 3);
        assert("system"@.len() == 6 && "system"@[0] == 's');
        assert("mfa_enabled"@.len() == 11 && "mfa_enabled"@[0] == 'm');
        assert("banner"@.len() == 6 && "banner"@[0] == 'b');
        assert("accent_color"@.len() == 12 && "accent_color"@[0] == 'a');
        assert("locale"@.len() == 6 && "locale"@[0] == 'l');
        assert("verified"@.len() == 8 && "verified"@[0] == 'v');
        assert("email"@.len() == 5 && "email"@[0] == 'e');
        assert("flags"@.len() == 5 && "flags"@[0] == 'f');
        assert("premium_type"@.len() == 12
            && "premium_type"@[0] == 'p'
            && "premium_type"@[1] == 'r');
        assert("public_flags"@.len() == 12
            && "public_flags"@[0] == 'p'
            && "public_flags"@[1] == 'u');
        assert("avatar_decoration"@.len() == 17);
        // What the object holds, member by member.
        let s0: Members = Seq::empty();
        Snowflake::lemma_round_trip(m.id);
        lemma_field::<Snowflake>("id", m.id);
        let s1 = s0 + field::<Snowflake>("id", m.id);
        lemma_concat(s0, field::<Snowflake>("id", m.id));
        String::lemma_round_trip(m.username);
        lemma_field::<String>("username", m.username);
        let s2 = s1 + field::<String>("username", m.username);
        lemma_concat(s1, field::<String>("username", m.username));
        String::lemma_round_trip(m.discriminator);
        lemma_field::<String>("discriminator", m.discriminator);
        let s3 = s2 + field::<String>("discriminator", m.discriminator);
        lemma_concat(s2, field::<String>("discriminator", m.discriminator));
        if m.global_name is Some {
            String::lemma_round_trip(m.global_name->0);
        }
        lemma_opt_field::<String>("global_name", m.global_name);
        let s4 = s3 + opt_field::<String>("global_name", m.global_name);
        lemma_concat(s3, opt_field::<String>("global_name", m.global_name));
        if m.avatar is Some {
            String::lemma_round_trip(m.avatar->0);
        }
        lemma_opt_field::<String>("avatar", m.avatar);
        let s5 = s4 + opt_field::<String>("avatar", m.avatar);
        lemma_concat(s4, opt_field::<String>("avatar", m.avatar));
        if m.bot is Some {
            bool::lemma_round_trip(m.bot->0);
        }
        lemma_opt_field::<bool>("bot", m.bot);
        let s6 = s5 + opt_field::<bool>("bot", m.bot);
        lemma_concat(s5, opt_field::<bool>("bot", m.bot));
        if m.system is Some {
            bool::lemma_round_trip(m.system->0);
        }
        lemma_opt_field::<bool>("system", m.system);
        let s7 = s6 + opt_field::<bool>("system", m.system);
        lemma_concat(s6, opt_field::<bool>("system", m.system));
        if m.mfa_enabled is Some {
            bool::lemma_round_trip(m.mfa_enabled->0);
        }
        lemma_opt_field::<bool>("mfa_enabled", m.mfa_enabled);
        let s8 = s7 + opt_field::<bool>("mfa_enabled", m.mfa_enabled);
        lemma_concat(s7, opt_field::<bool>("mfa_enabled", m.mfa_enabled));
        if m.banner is Some {
            String::lemma_round_trip(m.banner->0);
        }
        lemma_opt_field::<String>("banner", m.banner);
        let s9 = s8 + opt_field::<String>("banner", m.banner);
        lemma_concat(s8, opt_field::<String>("banner", m.banner));
        if m.accent_color is Some {
            u64::lemma_round_trip(m.accent_color->0);
        }
        lemma_opt_field::<u64>("accent_color", m.accent_color);
        let s10 = s9 + opt_field::<u64>("accent_color", m.accent_color);
        lemma_concat(s9, opt_field::<u64>("accent_color", m.accent_color));
        if m.locale is Some {
            String::lemma_round_trip(m.locale->0);
        }
        lemma_opt_field::<String>("locale", m.locale);
        let s11 = s10 + opt_field::<String>("locale", m.locale);
        lemma_concat(s10, opt_field::<String>("locale", m.locale));
        if m.verified is Some {
            bool::lemma_round_trip(m.verified->0);
        }
        lemma_opt_field::<bool>("verified", m.verified);
        let s12 = s11 + opt_field::<bool>("verified", m.verified);
        lemma_concat(s11, opt_field::<bool>("verified", m.verified));
        if m.email is Some {
            String::lemma_round_trip(m.email->0);
        }
        lemma_opt_field::<String>("email", m.email);
        let s13 = s12 + opt_field::<String>("email", m.email);
        lemma_concat(s12, opt_field::<String>("email", m.email));
        if m.flags is Some {
            u64::lemma_round_trip(m.flags->0);
        }
        lemma_opt_field::<u64>("flags", m.flags);
        let s14 = s13 + opt_field::<u64>("flags", m.flags);
        lemma_concat(s13, opt_field::<u64>("flags", m.flags));
        if m.premium_type is Some {
            u64::lemma_round_trip(m.premium_type->0);
        }
        lemma_opt_field::<u64>("premium_type", m.premium_type);
        let s15 = s14 + opt_field::<u64>("premium_type", m.premium_type);
        lemma_concat(s14, opt_field::<u64>("premium_type", m.premium_type));
        if m.public_flags is Some {
            u64::lemma_round_trip(m.public_flags->0);
        }
        lemma_opt_field::<u64>("public_flags", m.public_flags);
        let s16 = s15 + opt_field::<u64>("public_flags", m.public_flags);
        lemma_concat(s15, opt_field::<u64>("public_flags", m.public_flags));
        if m.avatar_decoration is Some {
            String::lemma_round_trip(m.avatar_decoration->0);
        }
        lemma_opt_field::<String>("avatar_decoration", m.avatar_decoration);
        let s17 = s16 + opt_field::<String>("avatar_decoration", m.avatar_decoration);
        lemma_concat(s16, opt_field::<String>("avatar_decoration", m.avatar_decoration));
        lemma_object(s17);
        // What each member decodes to.
        let j = JsonView::Object(s17);
        lemma_required_back::<Snowflake>(j, "id", m.id);
        lemma_required_back::<String>(j, "username", m.username);
        lemma_required_back::<String>(j, "discriminator", m.discriminator);
        lemma_optional_back::<String>(j, "global_name", m.global_name);
        lemma_optional_back::<String>(j, "avatar", m.avatar);
        lemma_optional_back::<bool>(j, "bot", m.bot);
        lemma_optional_back::<bool>(j, "system", m.system);
        lemma_optional_back::<bool>(j, "mfa_enabled", m.mfa_enabled);
        lemma_optional_back::<String>(j, "banner", m.banner);
        lemma_optional_back::<u64>(j, "accent_color", m.accent_color);
        lemma_optional_back::<String>(j, "locale", m.locale);
        lemma_optional_back::<bool>(j, "verified", m.verified);
        lemma_optional_back::<String>(j, "email", m.email);
        lemma_optional_back::<u64>(j, "flags", m.flags);
        lemma_optional_back::<u64>(j, "premium_type", m.premium_type);
        lemma_optional_back::<u64>(j, "public_flags", m.public_flags);
        lemma_optional_back::<String>(j, "avatar_decoration", m.avatar_decoration);
    }
}

} // verus!
