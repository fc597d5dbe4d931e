//! Applications registered with the platform.

use crate::decode::{
    DecodeError, defaulted, expect_object, FromJson, list, object_fault, opt, optional, req,
    required,
};
use crate::json::{Json, JsonView};
use crate::snowflake::Snowflake;
use crate::team::{Team, TeamView};
use crate::user::{User, UserView};
use vstd::prelude::*;

verus! {

/// An application, as the platform describes one.
#[derive(Debug, Clone, PartialEq, Eq)]
pub struct Application {
    pub id: Snowflake,
    pub name: String,
    pub icon: Option<String>,
    pub description: String,
    pub rpc_origins: Vec<String>,
    pub bot_public: bool,
    pub bot_require_code_grant: bool,
    pub terms_of_service_url: Option<String>,
    pub privacy_policy_url: Option<String>,
    pub owner: Option<User>,
    pub summary: String,
    pub verify_key: String,
    pub team: Option<Team>,
    pub guild_id: Option<Snowflake>,
    pub primary_sku_id: Option<Snowflake>,
    pub slug: Option<String>,
    pub cover_image: Option<String>,
    pub flags: Option<u64>,
}

/// The model of [`Application`].
pub struct ApplicationView {
    pub id: u64,
    pub name: Seq<char>,
    pub icon: Option<Seq<char>>,
    pub description: Seq<char>,
    pub rpc_origins: Seq<Seq<char>>,
    pub bot_public: bool,
    pub bot_require_code_grant: bool,
    pub terms_of_service_url: Option<Seq<char>>,
    pub privacy_policy_url: Option<Seq<char>>,
    pub owner: Option<UserView>,
    pub summary: Seq<char>,
    pub verify_key: Seq<char>,
    pub team: Option<TeamView>,
    pub guild_id: Option<u64>,
    pub primary_sku_id: Option<u64>,
    pub slug: Option<Seq<char>>,
    pub cover_image: Option<Seq<char>>,
    pub flags: Option<u64>,
}

impl DeepView for Application {
    type V = ApplicationView;

    open spec fn deep_view(&self) -> ApplicationView {
        ApplicationView {
            id: self.id.deep_view(),
            name: self.name.deep_view(),
            icon: self.icon.deep_view(),
            description: self.description.deep_view(),
            rpc_origins: self.rpc_origins.deep_view(),
            bot_public: self.bot_public.deep_view(),
            bot_require_code_grant: self.bot_require_code_grant.deep_view(),
            terms_of_service_url: self.terms_of_service_url.deep_view(),
            privacy_policy_url: self.privacy_policy_url.deep_view(),
            owner: self.owner.deep_view(),
            summary: self.summary.deep_view(),
            verify_key: self.verify_key.deep_view(),
            team: self.team.deep_view(),
            guild_id: self.guild_id.deep_view(),
            primary_sku_id: self.primary_sku_id.deep_view(),
            slug: self.slug.deep_view(),
            cover_image: self.cover_image.deep_view(),
            flags: self.flags.deep_view(),
        }
    }
}

impl FromJson for Application {
    open spec fn decoding(j: JsonView) -> Result<ApplicationView, DecodeError> {
        let id = required::<Snowflake>(j, "id");
        let name = required::<String>(j, "name");
        let icon = optional::<String>(j, "icon");
        let description = required::<String>(j, "description");
        let rpc_origins = defaulted::<String>(j, "rpc_origins");
        let bot_public = required::<bool>(j, "bot_public");
        let bot_require_code_grant = required::<bool>(j, "bot_require_code_grant");
        let terms_of_service_url = optional::<String>(j, "terms_of_service_url");
        let privacy_policy_url = optional::<String>(j, "privacy_policy_url");
        let owner = optional::<User>(j, "owner");
        let summary = required::<String>(j, "summary");
        let verify_key = required::<String>(j, "verify_key");
        let team = optional::<Team>(j, "team");
        let guild_id = optional::<Snowflake>(j, "guild_id");
        let primary_sku_id = optional::<Snowflake>(j, "primary_sku_id");
        let slug = optional::<String>(j, "slug");
        let cover_image = optional::<String>(j, "cover_image");
        let flags = optional::<u64>(j, "flags");
        if object_fault(j) is Some {
            Err(object_fault(j)->0)
        } else if id is Err {
            Err(id->Err_0)
        } else if name is Err {
            Err(name->Err_0)
        } else if icon is Err {
            Err(icon->Err_0)
        } else if description is Err {
            Err(description->Err_0)
        } else if rpc_origins is Err {
            Err(rpc_origins->Err_0)
        } else if bot_public is Err {
            Err(bot_public->Err_0)
        } else if bot_require_code_grant is Err {
            Err(bot_require_code_grant->Err_0)
        } else if terms_of_service_url is Err {
            Err(terms_of_service_url->Err_0)
        } else if privacy_policy_url is Err {
            Err(privacy_policy_url->Err_0)
        } else if owner is Err {
            Err(owner->Err_0)
        } else if summary is Err {
            Err(summary->Err_0)
        } else if verify_key is Err {
            Err(verify_key->Err_0)
        } else if team is Err {
            Err(team->Err_0)
        } else if guild_id is Err {
            Err(guild_id->Err_0)
        } else if primary_sku_id is Err {
            Err(primary_sku_id->Err_0)
        } else if slug is Err {
            Err(slug->Err_0)
        } else if cover_image is Err {
            Err(cover_image->Err_0)
        } else if flags is Err {
            Err(flags->Err_0)
        } else {
            Ok(
                ApplicationView {
                    id: id->Ok_0,
                    name: name->Ok_0,
                    icon: icon->Ok_0,
                    description: description->Ok_0,
                    rpc_origins: rpc_origins->Ok_0,
                    bot_public: bot_public->Ok_0,
                    bot_require_code_grant: bot_require_code_grant->Ok_0,
                    terms_of_service_url: terms_of_service_url->Ok_0,
                    privacy_policy_url: privacy_policy_url->Ok_0,
                    owner: owner->Ok_0,
                    summary: summary->Ok_0,
                    verify_key: verify_key->Ok_0,
                    team: team->Ok_0,
                    guild_id: guild_id->Ok_0,
                    primary_sku_id: primary_sku_id->Ok_0,
                    slug: slug->Ok_0,
                    cover_image: cover_image->Ok_0,
                    flags: flags->Ok_0,
                },
            )
        }
    }

    fn from_json(j: &Json) -> (r: Result<Application, DecodeError>) {
        expect_object(j)?;
        let id = req::<Snowflake>(j, "id")?;
        let name = req::<String>(j, "name")?;
        let icon = opt::<String>(j, "icon")?;
        let description = req::<String>(j, "description")?;
        let rpc_origins = list::<String>(j, "rpc_origins")?;
        let bot_public = req::<bool>(j, "bot_public")?;
        let bot_require_code_grant = req::<bool>(j, "bot_require_code_grant")?;
        let terms_of_service_url = opt::<String>(j, "terms_of_service_url")?;
        let privacy_policy_url = opt::<String>(j, "privacy_policy_url")?;
        let owner = opt::<User>(j, "owner")?;
        let summary = req::<String>(j, "summary")?;
        let verify_key = req::<String>(j, "verify_key")?;
        let team = opt::<Team>(j, "team")?;
        let guild_id = opt::<Snowflake>(j, "guild_id")?;
        let primary_sku_id = opt::<Snowflake>(j, "primary_sku_id")?;
        let slug = opt::<String>(j, "slug")?;
        let cover_image = opt::<String>(j, "cover_image")?;
        let flags = opt::<u64>(j, "flags")?;
        Ok(
            Application {
                id,
                name,
                icon,
                description,
                rpc_origins,
                bot_public,
                bot_require_code_grant,
                terms_of_service_url,
                privacy_policy_url,
                owner,
                summary,
                verify_key,
                team,
                guild_id,
                primary_sku_id,
                slug,
                cover_image,
                flags,
            },
        )
    }
}

} // verus!
