//! Channels, and the messages in them.

use crate::application::{Application, ApplicationView};
use crate::component::{Component, ComponentView};
use crate::decode::{
    agrees, DecodeError, defaulted, expect_object, FromJson, list, object_fault, opt, optional,
    req, required,
};
use crate::emoji::{Emoji, EmojiView};
use crate::encode::{
    field, filled_field, Members, no_members, object, opt_field, put, put_filled, put_opt, ToJson,
};
use crate::guild::{GuildMember, GuildMemberView};
use crate::interaction::{MessageInteraction, MessageInteractionView};
use crate::json::{Json, JsonNumber, JsonView, member};
use crate::permission::{Role, RoleView};
use crate::round_trip::{
    lemma_concat, lemma_defaulted_back, lemma_field, lemma_filled_field, lemma_object,
    lemma_opt_field, lemma_optional_back, lemma_required_back, null_free, RoundTrip,
};
use crate::snowflake::Snowflake;
use crate::sticker::{Sticker, StickerItem, StickerItemView, StickerView};
use crate::text::str_eq;
use crate::user::{User, UserView};
use vstd::prelude::*;
use vstd::string::*;

verus! {

/// A channel or thread.
#[derive(Debug, Clone, PartialEq, Eq)]
pub struct Channel {
    pub id: Snowflake,
    pub channel_type: ChannelType,
    pub guild_id: Option<Snowflake>,
    pub position: Option<u64>,
    pub permission_overwrites: Vec<Overwrite>,
    pub name: Option<String>,
    pub topic: Option<String>,
    pub nsfw: Option<bool>,
    pub last_message_id: Option<Snowflake>,
    pub bitrate: Option<u64>,
    pub user_limit: Option<u64>,
    pub rate_limit_per_user: Option<u64>,
    pub recipients: Vec<User>,
    pub icon: Option<String>,
    pub owner_id: Option<Snowflake>,
    pub applicaiton_id: Option<Snowflake>,
    pub parent_id: Option<Snowflake>,
    pub last_pin_timestamp: Option<String>,
    pub rtc_region: Option<String>,
    pub video_quality_mode: Option<u64>,
    pub message_count: Option<u64>,
    pub member_count: Option<u64>,
    pub thread_metadata: Option<ThreadMetadata>,
    pub member: Option<ThreadMember>,
    pub default_auto_archive_duration: Option<u64>,
    pub permissions: Option<String>,
}

/// The model of [`Channel`].
pub struct ChannelView {
    pub id: u64,
    pub channel_type: ChannelType,
    pub guild_id: Option<u64>,
    pub position: Option<u64>,
    pub permission_overwrites: Seq<OverwriteView>,
    pub name: Option<Seq<char>>,
    pub topic: Option<Seq<char>>,
    pub nsfw: Option<bool>,
    pub last_message_id: Option<u64>,
    pub bitrate: Option<u64>,
    pub user_limit: Option<u64>,
    pub rate_limit_per_user: Option<u64>,
    pub recipients: Seq<UserView>,
    pub icon: Option<Seq<char>>,
    pub owner_id: Option<u64>,
    pub applicaiton_id: Option<u64>,
    pub parent_id: Option<u64>,
    pub last_pin_timestamp: Option<Seq<char>>,
    pub rtc_region: Option<Seq<char>>,
    pub video_quality_mode: Option<u64>,
    pub message_count: Option<u64>,
    pub member_count: Option<u64>,
    pub thread_metadata: Option<ThreadMetadataView>,
    pub member: Option<ThreadMemberView>,
    pub default_auto_archive_duration: Option<u64>,
    pub permissions: Option<Seq<char>>,
}

impl DeepView for Channel {
    type V = ChannelView;

    open spec fn deep_view(&self) -> ChannelView {
        ChannelView {
            id: self.id.deep_view(),
            channel_type: self.channel_type.deep_view(),
            guild_id: self.guild_id.deep_view(),
            position: self.position.deep_view(),
            permission_overwrites: self.permission_overwrites.deep_view(),
            name: self.name.deep_view(),
            topic: self.topic.deep_view(),
            nsfw: self.nsfw.deep_view(),
            last_message_id: self.last_message_id.deep_view(),
            bitrate: self.bitrate.deep_view(),
            user_limit: self.user_limit.deep_view(),
            rate_limit_per_user: self.rate_limit_per_user.deep_view(),
            recipients: self.recipients.deep_view(),
            icon: self.icon.deep_view(),
            owner_id: self.owner_id.deep_view(),
            applicaiton_id: self.applicaiton_id.deep_view(),
            parent_id: self.parent_id.deep_view(),
            last_pin_timestamp: self.last_pin_timestamp.deep_view(),
            rtc_region: self.rtc_region.deep_view(),
            video_quality_mode: self.video_quality_mode.deep_view(),
            message_count: self.message_count.deep_view(),
            member_count: self.member_count.deep_view(),
            thread_metadata: self.thread_metadata.deep_view(),
            member: self.member.deep_view(),
            default_auto_archive_duration: self.default_auto_archive_duration.deep_view(),
            permissions: self.permissions.deep_view(),
        }
    }
}

impl FromJson for Channel {
    open spec fn decoding(j: JsonView) -> Result<ChannelView, DecodeError> {
        let id = required::<Snowflake>(j, "id");
        let channel_type = required::<ChannelType>(j, "type");
        let guild_id = optional::<Snowflake>(j, "guild_id");
        let position = optional::<u64>(j, "position");
        let permission_overwrites = defaulted::<Overwrite>(j, "permission_overwrites");
        let name = optional::<String>(j, "name");
        let topic = optional::<String>(j, "topic");
        let nsfw = optional::<bool>(j, "nsfw");
        let last_message_id = optional::<Snowflake>(j, "last_message_id");
        let bitrate = optional::<u64>(j, "bitrate");
        let user_limit = optional::<u64>(j, "user_limit");
        let rate_limit_per_user = optional::<u64>(j, "rate_limit_per_user");
        let recipients = defaulted::<User>(j, "recipients");
        let icon = optional::<String>(j, "icon");
        let owner_id = optional::<Snowflake>(j, "owner_id");
        let applicaiton_id = optional::<Snowflake>(j, "applicaiton_id");
        let parent_id = optional::<Snowflake>(j, "parent_id");
        let last_pin_timestamp = optional::<String>(j, "last_pin_timestamp");
        let rtc_region = optional::<String>(j, "rtc_region");
        let video_quality_mode = optional::<u64>(j, "video_quality_mode");
        let message_count = optional::<u64>(j, "message_count");
        let member_count = optional::<u64>(j, "member_count");
        let thread_metadata = optional::<ThreadMetadata>(j, "thread_metadata");
        let member = optional::<ThreadMember>(j, "member");
        let default_auto_archive_duration = optional::<u64>(j, "default_auto_archive_duration");
        let permissions = optional::<String>(j, "permissions");
        if object_fault(j) is Some {
            Err(object_fault(j)->0)
        } else if id is Err {
            Err(id->Err_0)
        } else if channel_type is Err {
            Err(channel_type->Err_0)
        } else if guild_id is Err {
            Err(guild_id->Err_0)
        } else if position is Err {
            Err(position->Err_0)
        } else if permission_overwrites is Err {
            Err(permission_overwrites->Err_0)
        } else if name is Err {
            Err(name->Err_0)
        } else if topic is Err {
            Err(topic->Err_0)
        } else if nsfw is Err {
            Err(nsfw->Err_0)
        } else if last_message_id is Err {
            Err(last_message_id->Err_0)
        } else if bitrate is Err {
            Err(bitrate->Err_0)
        } else if user_limit is Err {
            Err(user_limit->Err_0)
        } else if rate_limit_per_user is Err {
            Err(rate_limit_per_user->Err_0)
        } else if recipients is Err {
            Err(recipients->Err_0)
        } else if icon is Err {
            Err(icon->Err_0)
        } else if owner_id is Err {
            Err(owner_id->Err_0)
        } else if applicaiton_id is Err {
            Err(applicaiton_id->Err_0)
        } else if parent_id is Err {
            Err(parent_id->Err_0)
        } else if last_pin_timestamp is Err {
            Err(last_pin_timestamp->Err_0)
        } else if rtc_region is Err {
            Err(rtc_region->Err_0)
        } else if video_quality_mode is Err {
            Err(video_quality_mode->Err_0)
        } else if message_count is Err {
            Err(message_count->Err_0)
        } else if member_count is Err {
            Err(member_count->Err_0)
        } else if thread_metadata is Err {
            Err(thread_metadata->Err_0)
        } else if member is Err {
            Err(member->Err_0)
        } else if default_auto_archive_duration is Err {
            Err(default_auto_archive_duration->Err_0)
        } else if permissions is Err {
            Err(permissions->Err_0)
        } else {
            Ok(
                ChannelView {
                    id: id->Ok_0,
                    channel_type: channel_type->Ok_0,
                    guild_id: guild_id->Ok_0,
                    position: position->Ok_0,
                    permission_overwrites: permission_overwrites->Ok_0,
                    name: name->Ok_0,
                    topic: topic->Ok_0,
                    nsfw: nsfw->Ok_0,
                    last_message_id: last_message_id->Ok_0,
                    bitrate: bitrate->Ok_0,
                    user_limit: user_limit->Ok_0,
                    rate_limit_per_user: rate_limit_per_user->Ok_0,
                    recipients: recipients->Ok_0,
                    icon: icon->Ok_0,
                    owner_id: owner_id->Ok_0,
                    applicaiton_id: applicaiton_id->Ok_0,
                    parent_id: parent_id->Ok_0,
                    last_pin_timestamp: last_pin_timestamp->Ok_0,
                    rtc_region: rtc_region->Ok_0,
                    video_quality_mode: video_quality_mode->Ok_0,
                    message_count: message_count->Ok_0,
                    member_count: member_count->Ok_0,
                    thread_metadata: thread_metadata->Ok_0,
                    member: member->Ok_0,
                    default_auto_archive_duration: default_auto_archive_duration->Ok_0,
                    permissions: permissions->Ok_0,
                },
            )
        }
    }

    fn from_json(j: &Json) -> (r: Result<Channel, DecodeError>) {
        expect_object(j)?;
        let id = req::<Snowflake>(j, "id")?;
        let channel_type = req::<ChannelType>(j, "type")?;
        let guild_id = opt::<Snowflake>(j, "guild_id")?;
        let position = opt::<u64>(j, "position")?;
        let permission_overwrites = list::<Overwrite>(j, "permission_overwrites")?;
        let name = opt::<String>(j, "name")?;
        let topic = opt::<String>(j, "topic")?;
        let nsfw = opt::<bool>(j, "nsfw")?;
        let last_message_id = opt::<Snowflake>(j, "last_message_id")?;
        let bitrate = opt::<u64>(j, "bitrate")?;
        let user_limit = opt::<u64>(j, "user_limit")?;
        let rate_limit_per_user = opt::<u64>(j, "rate_limit_per_user")?;
        let recipients = list::<User>(j, "recipients")?;
        let icon = opt::<String>(j, "icon")?;
        let owner_id = opt::<Snowflake>(j, "owner_id")?;
        let applicaiton_id = opt::<Snowflake>(j, "applicaiton_id")?;
        let parent_id = opt::<Snowflake>(j, "parent_id")?;
        let last_pin_timestamp = opt::<String>(j, "last_pin_timestamp")?;
        let rtc_region = opt::<String>(j, "rtc_region")?;
        let video_quality_mode = opt::<u64>(j, "video_quality_mode")?;
        let message_count = opt::<u64>(j, "message_count")?;
        let member_count = opt::<u64>(j, "member_count")?;
        let thread_metadata = opt::<ThreadMetadata>(j, "thread_metadata")?;
        let member = opt::<ThreadMember>(j, "member")?;
        let default_auto_archive_duration = opt::<u64>(j, "default_auto_archive_duration")?;
        let permissions = opt::<String>(j, "permissions")?;
        Ok(
            Channel {
                id,
                channel_type,
                guild_id,
                position,
                permission_overwrites,
                name,
                topic,
                nsfw,
                last_message_id,
                bitrate,
                user_limit,
                rate_limit_per_user,
                recipients,
                icon,
                owner_id,
                applicaiton_id,
                parent_id,
                last_pin_timestamp,
                rtc_region,
                video_quality_mode,
                message_count,
                member_count,
                thread_metadata,
                member,
                default_auto_archive_duration,
                permissions,
            },
        )
    }
}

/// The kind of a channel.
#[derive(Debug, Clone, Copy, PartialEq, Eq, Structural)]
pub enum ChannelType {
    GuildText,
    Dm,
    GuildVoice,
    GroupDm,
    GuildCategory,
    GuildNews,
    GuildStore,
    GuildNewsThread,
    GuildPublicThread,
    GuildPrivateThread,
    GuildStageVoice,
}

impl DeepView for ChannelType {
    type V = ChannelType;

    open spec fn deep_view(&self) -> ChannelType {
        *self
    }
}

impl ChannelType {
    /// The number that stands for the variant on the wire.
    pub open spec fn spec_tag(self) -> u64 {
        match self {
            ChannelType::GuildText => 0,
            ChannelType::Dm => 1,
            ChannelType::GuildVoice => 2,
            ChannelType::GroupDm => 3,
            ChannelType::GuildCategory => 4,
            ChannelType::GuildNews => 5,
            ChannelType::GuildStore => 6,
            ChannelType::GuildNewsThread => 10,
            ChannelType::GuildPublicThread => 11,
            ChannelType::GuildPrivateThread => 12,
            ChannelType::GuildStageVoice => 13,
        }
    }

    /// The variant that `tag` stands for, if any.
    pub open spec fn spec_from_tag(tag: u64) -> Option<ChannelType> {
        if tag == 0 {
            Some(ChannelType::GuildText)
        } else if tag == 1 {
            Some(ChannelType::Dm)
        } else if tag == 2 {
            Some(ChannelType::GuildVoice)
        } else if tag == 3 {
            Some(ChannelType::GroupDm)
        } else if tag == 4 {
            Some(ChannelType::GuildCategory)
        } else if tag == 5 {
            Some(ChannelType::GuildNews)
        } else if tag == 6 {
            Some(ChannelType::GuildStore)
        } else if tag == 10 {
            Some(ChannelType::GuildNewsThread)
        } else if tag == 11 {
            Some(ChannelType::GuildPublicThread)
        } else if tag == 12 {
            Some(ChannelType::GuildPrivateThread)
        } else if tag == 13 {
            Some(ChannelType::GuildStageVoice)
        } else {
            None
        }
    }

    /// The number that stands for the variant on the wire.
    pub fn tag(&self) -> (r: u64)
        ensures
            r == self.spec_tag(),
    {
        match self {
            ChannelType::GuildText => 0,
            ChannelType::Dm => 1,
            ChannelType::GuildVoice => 2,
            ChannelType::GroupDm => 3,
            ChannelType::GuildCategory => 4,
            ChannelType::GuildNews => 5,
            ChannelType::GuildStore => 6,
            ChannelType::GuildNewsThread => 10,
            ChannelType::GuildPublicThread => 11,
            ChannelType::GuildPrivateThread => 12,
            ChannelType::GuildStageVoice => 13,
        }
    }

    /// The variant that `tag` stands for, if any.
    pub fn from_tag(tag: u64) -> (r: Option<ChannelType>)
        ensures
            r == Self::spec_from_tag(tag),
    {
        if tag == 0 {
            Some(ChannelType::GuildText)
        } else if tag == 1 {
            Some(ChannelType::Dm)
        } else if tag == 2 {
            Some(ChannelType::GuildVoice)
        } else if tag == 3 {
            Some(ChannelType::GroupDm)
        } else if tag == 4 {
            Some(ChannelType::GuildCategory)
        } else if tag == 5 {
            Some(ChannelType::GuildNews)
        } else if tag == 6 {
            Some(ChannelType::GuildStore)
        } else if tag == 10 {
            Some(ChannelType::GuildNewsThread)
        } else if tag == 11 {
            Some(ChannelType::GuildPublicThread)
        } else if tag == 12 {
            Some(ChannelType::GuildPrivateThread)
        } else if tag == 13 {
            Some(ChannelType::GuildStageVoice)
        } else {
            None
        }
    }

    /// Every variant is found again from its tag.
    pub proof fn lemma_tag_round_trip(self)
        ensures
            Self::spec_from_tag(self.spec_tag()) == Some(self),
    {
    }
}

impl FromJson for ChannelType {
    open spec fn decoding(j: JsonView) -> Result<ChannelType, DecodeError> {
        match u64::decoding(j) {
            Err(e) => Err(e),
            Ok(tag) => match ChannelType::spec_from_tag(tag) {
                Some(v) => Ok(v),
                None => Err(DecodeError::UnknownVariant("ChannelType", tag)),
            },
        }
    }

    fn from_json(j: &Json) -> (r: Result<ChannelType, DecodeError>) {
        let tag = u64::from_json(j)?;
        match ChannelType::from_tag(tag) {
            Some(v) => Ok(v),
            None => Err(DecodeError::UnknownVariant("ChannelType", tag)),
        }
    }
}

impl ToJson for ChannelType {
    open spec fn encoding(m: ChannelType) -> JsonView {
        JsonView::Number(JsonNumber::Unsigned(m.spec_tag()))
    }

    fn to_json(&self) -> (j: Json) {
        Json::Number(JsonNumber::Unsigned(self.tag()))
    }
}

impl RoundTrip for ChannelType {
    open spec fn faithful(m: ChannelType) -> bool {
        true
    }

    proof fn lemma_round_trip(m: ChannelType) {
        m.lemma_tag_round_trip();
    }
}

/// Permissions granted to or taken from a role or a member in one channel.
#[derive(Debug, Clone, PartialEq, Eq)]
pub struct Overwrite {
    pub id: Snowflake,
    pub overwrite_type: OverwriteType,
    pub allow: String,
    pub deny: String,
}

/// The model of [`Overwrite`].
pub struct OverwriteView {
    pub id: u64,
    pub overwrite_type: OverwriteType,
    pub allow: Seq<char>,
    pub deny: Seq<char>,
}

impl DeepView for Overwrite {
    type V = OverwriteView;

    open spec fn deep_view(&self) -> OverwriteView {
        OverwriteView {
            id: self.id.deep_view(),
            overwrite_type: self.overwrite_type.deep_view(),
            allow: self.allow.deep_view(),
            deny: self.deny.deep_view(),
        }
    }
}

impl FromJson for Overwrite {
    open spec fn decoding(j: JsonView) -> Result<OverwriteView, DecodeError> {
        let id = required::<Snowflake>(j, "id");
        let overwrite_type = required::<OverwriteType>(j, "type");
        let allow = required::<String>(j, "allow");
        let deny = required::<String>(j, "deny");
        if object_fault(j) is Some {
            Err(object_fault(j)->0)
        } else if id is Err {
            Err(id->Err_0)
        } else if overwrite_type is Err {
            Err(overwrite_type->Err_0)
        } else if allow is Err {
            Err(allow->Err_0)
        } else if deny is Err {
            Err(deny->Err_0)
        } else {
            Ok(
                OverwriteView {
                    id: id->Ok_0,
                    overwrite_type: overwrite_type->Ok_0,
                    allow: allow->Ok_0,
                    deny: deny->Ok_0,
                },
            )
        }
    }

    fn from_json(j: &Json) -> (r: Result<Overwrite, DecodeError>) {
        expect_object(j)?;
        let id = req::<Snowflake>(j, "id")?;
        let overwrite_type = req::<OverwriteType>(j, "type")?;
        let allow = req::<String>(j, "allow")?;
        let deny = req::<String>(j, "deny")?;
        Ok(Overwrite { id, overwrite_type, allow, deny })
    }
}

/// Whom an overwrite is about.
#[derive(Debug, Clone, Copy, PartialEq, Eq, Structural)]
pub enum OverwriteType {
    Role,
    Member,
}

impl DeepView for OverwriteType {
    type V = OverwriteType;

    open spec fn deep_view(&self) -> OverwriteType {
        *self
    }
}

impl OverwriteType {
    /// The number that stands for the variant on the wire.
    pub open spec fn spec_tag(self) -> u64 {
        match self {
            OverwriteType::Role => 0,
            OverwriteType::Member => 1,
        }
    }

    /// The variant that `tag` stands for, if any.
    pub open spec fn spec_from_tag(tag: u64) -> Option<OverwriteType> {
        if tag == 0 {
            Some(OverwriteType::Role)
        } else if tag == 1 {
            Some(OverwriteType::Member)
        } else {
            None
        }
    }

    /// The number that stands for the variant on the wire.
    pub fn tag(&self) -> (r: u64)
        ensures
            r == self.spec_tag(),
    {
        match self {
            OverwriteType::Role => 0,
            OverwriteType::Member => 1,
        }
    }

    /// The variant that `tag` stands for, if any.
    pub fn from_tag(tag: u64) -> (r: Option<OverwriteType>)
        ensures
            r == Self::spec_from_tag(tag),
    {
        if tag == 0 {
            Some(OverwriteType::Role)
        } else if tag == 1 {
            Some(OverwriteType::Member)
        } else {
            None
        }
    }

    /// Every variant is found again from its tag.
    pub proof fn lemma_tag_round_trip(self)
        ensures
            Self::spec_from_tag(self.spec_tag()) == Some(self),
    {
    }
}

impl FromJson for OverwriteType {
    open spec fn decoding(j: JsonView) -> Result<OverwriteType, DecodeError> {
        match u64::decoding(j) {
            Err(e) => Err(e),
            Ok(tag) => match OverwriteType::spec_from_tag(tag) {
                Some(v) => Ok(v),
                None => Err(DecodeError::UnknownVariant("OverwriteType", tag)),
            },
        }
    }

    fn from_json(j: &Json) -> (r: Result<OverwriteType, DecodeError>) {
        let tag = u64::from_json(j)?;
        match OverwriteType::from_tag(tag) {
            Some(v) => Ok(v),
            None => Err(DecodeError::UnknownVariant("OverwriteType", tag)),
        }
    }
}

/// What only threads have.
#[derive(Debug, Clone, PartialEq, Eq)]
pub struct ThreadMetadata {
    pub archived: bool,
    pub auto_archive_duration: u64,
    pub archive_timestamp: String,
    pub locked: bool,
    pub invitable: Option<bool>,
}

/// The model of [`ThreadMetadata`].
pub struct ThreadMetadataView {
    pub archived: bool,
    pub auto_archive_duration: u64,
    pub archive_timestamp: Seq<char>,
    pub locked: bool,
    pub invitable: Option<bool>,
}

impl DeepView for ThreadMetadata {
    type V = ThreadMetadataView;

    open spec fn deep_view(&self) -> ThreadMetadataView {
        ThreadMetadataView {
            archived: self.archived.deep_view(),
            auto_archive_duration: self.auto_archive_duration.deep_view(),
            archive_timestamp: self.archive_timestamp.deep_view(),
            locked: self.locked.deep_view(),
            invitable: self.invitable.deep_view(),
        }
    }
}

impl FromJson for ThreadMetadata {
    open spec fn decoding(j: JsonView) -> Result<ThreadMetadataView, DecodeError> {
        let archived = required::<bool>(j, "archived");
        let auto_archive_duration = required::<u64>(j, "auto_archive_duration");
        let archive_timestamp = required::<String>(j, "archive_timestamp");
        let locked = required::<bool>(j, "locked");
        let invitable = optional::<bool>(j, "invitable");
        if object_fault(j) is Some {
            Err(object_fault(j)->0)
        } else if archived is Err {
            Err(archived->Err_0)
        } else if auto_archive_duration is Err {
            Err(auto_archive_duration->Err_0)
        } else if archive_timestamp is Err {
            Err(archive_timestamp->Err_0)
        } else if locked is Err {
            Err(locked->Err_0)
        } else if invitable is Err {
            Err(invitable->Err_0)
        } else {
            Ok(
                ThreadMetadataView {
                    archived: archived->Ok_0,
                    auto_archive_duration: auto_archive_duration->Ok_0,
                    archive_timestamp: archive_timestamp->Ok_0,
                    locked: locked->Ok_0,
                    invitable: invitable->Ok_0,
                },
            )
        }
    }

    fn from_json(j: &Json) -> (r: Result<ThreadMetadata, DecodeError>) {
        expect_object(j)?;
        let archived = req::<bool>(j, "archived")?;
        let auto_archive_duration = req::<u64>(j, "auto_archive_duration")?;
        let archive_timestamp = req::<String>(j, "archive_timestamp")?;
        let locked = req::<bool>(j, "locked")?;
        let invitable = opt::<bool>(j, "invitable")?;
        Ok(
            ThreadMetadata {
                archived,
                auto_archive_duration,
                archive_timestamp,
                locked,
                invitable,
            },
        )
    }
}

/// A user as a member of a thread.
#[derive(Debug, Clone, PartialEq, Eq)]
pub struct ThreadMember {
    pub id: Option<Snowflake>,
    pub user_id: Option<Snowflake>,
    pub join_timestamp: String,
    pub flags: u64,
}

/// The model of [`ThreadMember`].
pub struct ThreadMemberView {
    pub id: Option<u64>,
    pub user_id: Option<u64>,
    pub join_timestamp: Seq<char>,
    pub flags: u64,
}

impl DeepView for ThreadMember {
    type V = ThreadMemberView;

    open spec fn deep_view(&self) -> ThreadMemberView {
        ThreadMemberView {
            id: self.id.deep_view(),
            user_id: self.user_id.deep_view(),
            join_timestamp: self.join_timestamp.deep_view(),
            flags: self.flags.deep_view(),
        }
    }
}

impl FromJson for ThreadMember {
    open spec fn decoding(j: JsonView) -> Result<ThreadMemberView, DecodeError> {
        let id = optional::<Snowflake>(j, "id");
        let user_id = optional::<Snowflake>(j, "user_id");
        let join_timestamp = required::<String>(j, "join_timestamp");
        let flags = required::<u64>(j, "flags");
        if object_fault(j) is Some {
            Err(object_fault(j)->0)
        } else if id is Err {
            Err(id->Err_0)
        } else if user_id is Err {
            Err(user_id->Err_0)
        } else if join_timestamp is Err {
            Err(join_timestamp->Err_0)
        } else if flags is Err {
            Err(flags->Err_0)
        } else {
            Ok(
                ThreadMemberView {
                    id: id->Ok_0,
                    user_id: user_id->Ok_0,
                    join_timestamp: join_timestamp->Ok_0,
                    flags: flags->Ok_0,
                },
            )
        }
    }

    fn from_json(j: &Json) -> (r: Result<ThreadMember, DecodeError>) {
        expect_object(j)?;
        let id = opt::<Snowflake>(j, "id")?;
        let user_id = opt::<Snowflake>(j, "user_id")?;
        let join_timestamp = req::<String>(j, "join_timestamp")?;
        let flags = req::<u64>(j, "flags")?;
        Ok(ThreadMember { id, user_id, join_timestamp, flags })
    }
}

/// A message. A reply holds the message it answers.
#[derive(Debug, PartialEq, Eq)]
pub struct Message {
    pub id: Snowflake,
    pub channel_id: Snowflake,
    pub guild_id: Option<Snowflake>,
    pub author: User,
    pub member: Option<GuildMember>,
    pub content: String,
    pub timestamp: String,
    pub edited_timestamp: Option<String>,
    pub tts: bool,
    pub mention_everyone: bool,
    pub mentions: Vec<User>,
    pub mention_roles: Vec<Role>,
    pub mention_channels: Vec<ChannelMention>,
    pub attachments: Vec<Attachment>,
    pub embeds: Vec<Embed>,
    pub reactions: Vec<Reaction>,
    pub nonce: Option<Nonce>,
    pub pinned: bool,
    pub webhook_id: Option<Snowflake>,
    pub message_type: MessageType,
    pub activity: Option<MessageActivity>,
    pub application: Option<Application>,
    pub application_id: Option<Snowflake>,
    pub message_reference: Option<MessageReference>,
    pub flags: Option<u64>,
    pub referenced_message: Option<Box<Message>>,
    pub interaction: Option<MessageInteraction>,
    pub thread: Option<Channel>,
    pub components: Vec<Component>,
    pub sticker_items: Vec<StickerItem>,
    pub stickers: Vec<Sticker>,
}

/// The model of [`Message`].
pub struct MessageView {
    pub id: u64,
    pub channel_id: u64,
    pub guild_id: Option<u64>,
    pub author: UserView,
    pub member: Option<GuildMemberView>,
    pub content: Seq<char>,
    pub timestamp: Seq<char>,
    pub edited_timestamp: Option<Seq<char>>,
    pub tts: bool,
    pub mention_everyone: bool,
    pub mentions: Seq<UserView>,
    pub mention_roles: Seq<RoleView>,
    pub mention_channels: Seq<ChannelMentionView>,
    pub attachments: Seq<AttachmentView>,
    pub embeds: Seq<EmbedView>,
    pub reactions: Seq<ReactionView>,
    pub nonce: Option<NonceView>,
    pub pinned: bool,
    pub webhook_id: Option<u64>,
    pub message_type: MessageType,
    pub activity: Option<MessageActivityView>,
    pub application: Option<ApplicationView>,
    pub application_id: Option<u64>,
    pub message_reference: Option<MessageReferenceView>,
    pub flags: Option<u64>,
    pub referenced_message: Option<Box<MessageView>>,
    pub interaction: Option<MessageInteractionView>,
    pub thread: Option<ChannelView>,
    pub components: Seq<ComponentView>,
    pub sticker_items: Seq<StickerItemView>,
    pub stickers: Seq<StickerView>,
}

/// The model of `x`.
pub open spec fn message_view(x: Message) -> MessageView
    decreases x,
{
    MessageView {
        id: x.id.deep_view(),
        channel_id: x.channel_id.deep_view(),
        guild_id: x.guild_id.deep_view(),
        author: x.author.deep_view(),
        member: x.member.deep_view(),
        content: x.content.deep_view(),
        timestamp: x.timestamp.deep_view(),
        edited_timestamp: x.edited_timestamp.deep_view(),
        tts: x.tts.deep_view(),
        mention_everyone: x.mention_everyone.deep_view(),
        mentions: x.mentions.deep_view(),
        mention_roles: x.mention_roles.deep_view(),
        mention_channels: x.mention_channels.deep_view(),
        attachments: x.attachments.deep_view(),
        embeds: x.embeds.deep_view(),
        reactions: x.reactions.deep_view(),
        nonce: x.nonce.deep_view(),
        pinned: x.pinned.deep_view(),
        webhook_id: x.webhook_id.deep_view(),
        message_type: x.message_type.deep_view(),
        activity: x.activity.deep_view(),
        application: x.application.deep_view(),
        application_id: x.application_id.deep_view(),
        message_reference: x.message_reference.deep_view(),
        flags: x.flags.deep_view(),
        referenced_message: match x.referenced_message {
            Some(b) => Some(Box::new(message_view(*b))),
            None => None,
        },
        interaction: x.interaction.deep_view(),
        thread: x.thread.deep_view(),
        components: x.components.deep_view(),
        sticker_items: x.sticker_items.deep_view(),
        stickers: x.stickers.deep_view(),
    }
}

impl DeepView for Message {
    type V = MessageView;

    open spec fn deep_view(&self) -> MessageView {
        message_view(*self)
    }
}

/// What `j` decodes to as a message.
pub open spec fn message_decoding(j: JsonView) -> Result<MessageView, DecodeError>
    decreases j,
{
    let id = required::<Snowflake>(j, "id");
    let channel_id = required::<Snowflake>(j, "channel_id");
    let guild_id = optional::<Snowflake>(j, "guild_id");
    let author = required::<User>(j, "author");
    let member = optional::<GuildMember>(j, "member");
    let content = required::<String>(j, "content");
    let timestamp = required::<String>(j, "timestamp");
    let edited_timestamp = optional::<String>(j, "edited_timestamp");
    let tts = required::<bool>(j, "tts");
    let mention_everyone = required::<bool>(j, "mention_everyone");
    let mentions = required::<Vec<User>>(j, "mentions");
    let mention_roles = required::<Vec<Role>>(j, "mention_roles");
    let mention_channels = defaulted::<ChannelMention>(j, "mention_channels");
    let attachments = required::<Vec<Attachment>>(j, "attachments");
    let embeds = required::<Vec<Embed>>(j, "embeds");
    let reactions = defaulted::<Reaction>(j, "reactions");
    let nonce = optional::<Nonce>(j, "nonce");
    let pinned = required::<bool>(j, "pinned");
    let webhook_id = optional::<Snowflake>(j, "webhook_id");
    let message_type = required::<MessageType>(j, "type");
    let activity = optional::<MessageActivity>(j, "activity");
    let application = optional::<Application>(j, "application");
    let application_id = optional::<Snowflake>(j, "application_id");
    let message_reference = optional::<MessageReference>(j, "message_reference");
    let flags = optional::<u64>(j, "flags");
    let referenced_message = match j.get("referenced_message"@) {
        None => Ok(None),
        Some(JsonView::Null) => Ok(None),
        Some(m) => {
            proof {
                j.lemma_get_decreases("referenced_message"@);
            }
            match message_decoding(m) {
                Ok(x) => Ok(Some(Box::new(x))),
                Err(e) => Err(e),
            }
        },
    };
    let interaction = optional::<MessageInteraction>(j, "interaction");
    let thread = optional::<Channel>(j, "thread");
    let components = defaulted::<Component>(j, "components");
    let sticker_items = defaulted::<StickerItem>(j, "sticker_items");
    let stickers = defaulted::<Sticker>(j, "stickers");
    if object_fault(j) is Some {
        Err(object_fault(j)->0)
    } else if id is Err {
        Err(id->Err_0)
    } else if channel_id is Err {
        Err(channel_id->Err_0)
    } else if guild_id is Err {
        Err(guild_id->Err_0)
    } else if author is Err {
        Err(author->Err_0)
    } else if member is Err {
        Err(member->Err_0)
    } else if content is Err {
        Err(content->Err_0)
    } else if timestamp is Err {
        Err(timestamp->Err_0)
    } else if edited_timestamp is Err {
        Err(edited_timestamp->Err_0)
    } else if tts is Err {
        Err(tts->Err_0)
    } else if mention_everyone is Err {
        Err(mention_everyone->Err_0)
    } else if mentions is Err {
        Err(mentions->Err_0)
    } else if mention_roles is Err {
        Err(mention_roles->Err_0)
    } else if mention_channels is Err {
        Err(mention_channels->Err_0)
    } else if attachments is Err {
        Err(attachments->Err_0)
    } else if embeds is Err {
        Err(embeds->Err_0)
    } else if reactions is Err {
        Err(reactions->Err_0)
    } else if nonce is Err {
        Err(nonce->Err_0)
    } else if pinned is Err {
        Err(pinned->Err_0)
    } else if webhook_id is Err {
        Err(webhook_id->Err_0)
    } else if message_type is Err {
        Err(message_type->Err_0)
    } else if activity is Err {
        Err(activity->Err_0)
    } else if application is Err {
        Err(application->Err_0)
    } else if application_id is Err {
        Err(application_id->Err_0)
    } else if message_reference is Err {
        Err(message_reference->Err_0)
    } else if flags is Err {
        Err(flags->Err_0)
    } else if referenced_message is Err {
        Err(referenced_message->Err_0)
    } else if interaction is Err {
        Err(interaction->Err_0)
    } else if thread is Err {
        Err(thread->Err_0)
    } else if components is Err {
        Err(components->Err_0)
    } else if sticker_items is Err {
        Err(sticker_items->Err_0)
    } else if stickers is Err {
        Err(stickers->Err_0)
    } else {
        Ok(
            MessageView {
                id: id->Ok_0,
                channel_id: channel_id->Ok_0,
                guild_id: guild_id->Ok_0,
                author: author->Ok_0,
                member: member->Ok_0,
                content: content->Ok_0,
                timestamp: timestamp->Ok_0,
                edited_timestamp: edited_timestamp->Ok_0,
                tts: tts->Ok_0,
                mention_everyone: mention_everyone->Ok_0,
                mentions: mentions->Ok_0,
                mention_roles: mention_roles->Ok_0,
                mention_channels: mention_channels->Ok_0,
                attachments: attachments->Ok_0,
                embeds: embeds->Ok_0,
                reactions: reactions->Ok_0,
                nonce: nonce->Ok_0,
                pinned: pinned->Ok_0,
                webhook_id: webhook_id->Ok_0,
                message_type: message_type->Ok_0,
                activity: activity->Ok_0,
                application: application->Ok_0,
                application_id: application_id->Ok_0,
                message_reference: message_reference->Ok_0,
                flags: flags->Ok_0,
                referenced_message: referenced_message->Ok_0,
                interaction: interaction->Ok_0,
                thread: thread->Ok_0,
                components: components->Ok_0,
                sticker_items: sticker_items->Ok_0,
                stickers: stickers->Ok_0,
            },
        )
    }
}

/// Reads a message from `j`.
pub fn decode_message(j: &Json) -> (r: Result<Message, DecodeError>)
    ensures
        agrees(r, message_decoding(j@)),
    decreases j,
{
    expect_object(j)?;
    let id = req::<Snowflake>(j, "id")?;
    let channel_id = req::<Snowflake>(j, "channel_id")?;
    let guild_id = opt::<Snowflake>(j, "guild_id")?;
    let author = req::<User>(j, "author")?;
    let member = opt::<GuildMember>(j, "member")?;
    let content = req::<String>(j, "content")?;
    let timestamp = req::<String>(j, "timestamp")?;
    let edited_timestamp = opt::<String>(j, "edited_timestamp")?;
    let tts = req::<bool>(j, "tts")?;
    let mention_everyone = req::<bool>(j, "mention_everyone")?;
    let mentions = req::<Vec<User>>(j, "mentions")?;
    let mention_roles = req::<Vec<Role>>(j, "mention_roles")?;
    let mention_channels = list::<ChannelMention>(j, "mention_channels")?;
    let attachments = req::<Vec<Attachment>>(j, "attachments")?;
    let embeds = req::<Vec<Embed>>(j, "embeds")?;
    let reactions = list::<Reaction>(j, "reactions")?;
    let nonce = opt::<Nonce>(j, "nonce")?;
    let pinned = req::<bool>(j, "pinned")?;
    let webhook_id = opt::<Snowflake>(j, "webhook_id")?;
    let message_type = req::<MessageType>(j, "type")?;
    let activity = opt::<MessageActivity>(j, "activity")?;
    let application = opt::<Application>(j, "application")?;
    let application_id = opt::<Snowflake>(j, "application_id")?;
    let message_reference = opt::<MessageReference>(j, "message_reference")?;
    let flags = opt::<u64>(j, "flags")?;
    let referenced_message = match j.get("referenced_message") {
        None => None,
        Some(Json::Null) => None,
        Some(m) => Some(Box::new(decode_message(m)?)),
    };
    let interaction = opt::<MessageInteraction>(j, "interaction")?;
    let thread = opt::<Channel>(j, "thread")?;
    let components = list::<Component>(j, "components")?;
    let sticker_items = list::<StickerItem>(j, "sticker_items")?;
    let stickers = list::<Sticker>(j, "stickers")?;
    let r = Message {
        id,
        channel_id,
        guild_id,
        author,
        member,
        content,
        timestamp,
        edited_timestamp,
        tts,
        mention_everyone,
        mentions,
        mention_roles,
        mention_channels,
        attachments,
        embeds,
        reactions,
        nonce,
        pinned,
        webhook_id,
        message_type,
        activity,
        application,
        application_id,
        message_reference,
        flags,
        referenced_message,
        interaction,
        thread,
        components,
        sticker_items,
        stickers,
    };
    Ok(r)
}

impl FromJson for Message {
    open spec fn decoding(j: JsonView) -> Result<MessageView, DecodeError> {
        message_decoding(j)
    }

    fn from_json(j: &Json) -> (r: Result<Message, DecodeError>) {
        decode_message(j)
    }
}

/// A channel that a message names.
#[derive(Debug, Clone, PartialEq, Eq)]
pub struct ChannelMention {
    pub id: Snowflake,
    pub guild_id: Snowflake,
    pub channel_mention_type: ChannelType,
    pub name: String,
}

/// The model of [`ChannelMention`].
pub struct ChannelMentionView {
    pub id: u64,
    pub guild_id: u64,
    pub channel_mention_type: ChannelType,
    pub name: Seq<char>,
}

impl DeepView for ChannelMention {
    type V = ChannelMentionView;

    open spec fn deep_view(&self) -> ChannelMentionView {
        ChannelMentionView {
            id: self.id.deep_view(),
            guild_id: self.guild_id.deep_view(),
            channel_mention_type: self.channel_mention_type.deep_view(),
            name: self.name.deep_view(),
        }
    }
}

impl FromJson for ChannelMention {
    open spec fn decoding(j: JsonView) -> Result<ChannelMentionView, DecodeError> {
        let id = required::<Snowflake>(j, "id");
        let guild_id = required::<Snowflake>(j, "guild_id");
        let channel_mention_type = required::<ChannelType>(j, "channel_mention_type");
        let name = required::<String>(j, "name");
        if object_fault(j) is Some {
            Err(object_fault(j)->0)
        } else if id is Err {
            Err(id->Err_0)
        } else if guild_id is Err {
            Err(guild_id->Err_0)
        } else if channel_mention_type is Err {
            Err(channel_mention_type->Err_0)
        } else if name is Err {
            Err(name->Err_0)
        } else {
            Ok(
                ChannelMentionView {
                    id: id->Ok_0,
                    guild_id: guild_id->Ok_0,
                    channel_mention_type: channel_mention_type->Ok_0,
                    name: name->Ok_0,
                },
            )
        }
    }

    fn from_json(j: &Json) -> (r: Result<ChannelMention, DecodeError>) {
        expect_object(j)?;
        let id = req::<Snowflake>(j, "id")?;
        let guild_id = req::<Snowflake>(j, "guild_id")?;
        let channel_mention_type = req::<ChannelType>(j, "channel_mention_type")?;
        let name = req::<String>(j, "name")?;
        Ok(ChannelMention { id, guild_id, channel_mention_type, name })
    }
}

/// A file that comes with a message.
#[derive(Debug, Clone, PartialEq, Eq)]
pub struct Attachment {
    pub id: Snowflake,
    pub filename: String,
    pub description: Option<String>,
    pub content_type: Option<String>,
    pub size: u64,
    pub url: String,
    pub proxy_url: String,
    pub height: Option<u64>,
    pub width: Option<u64>,
    pub ephemeral: Option<bool>,
}

/// The model of [`Attachment`].
pub struct AttachmentView {
    pub id: u64,
    pub filename: Seq<char>,
    pub description: Option<Seq<char>>,
    pub content_type: Option<Seq<char>>,
    pub size: u64,
    pub url: Seq<char>,
    pub proxy_url: Seq<char>,
    pub height: Option<u64>,
    pub width: Option<u64>,
    pub ephemeral: Option<bool>,
}

impl DeepView for Attachment {
    type V = AttachmentView;

    open spec fn deep_view(&self) -> AttachmentView {
        AttachmentView {
            id: self.id.deep_view(),
            filename: self.filename.deep_view(),
            description: self.description.deep_view(),
            content_type: self.content_type.deep_view(),
            size: self.size.deep_view(),
            url: self.url.deep_view(),
            proxy_url: self.proxy_url.deep_view(),
            height: self.height.deep_view(),
            width: self.width.deep_view(),
            ephemeral: self.ephemeral.deep_view(),
        }
    }
}

impl FromJson for Attachment {
    open spec fn decoding(j: JsonView) -> Result<AttachmentView, DecodeError> {
        let id = required::<Snowflake>(j, "id");
        let filename = required::<String>(j, "filename");
        let description = optional::<String>(j, "description");
        let content_type = optional::<String>(j, "content_type");
        let size = required::<u64>(j, "size");
        let url = required::<String>(j, "url");
        let proxy_url = required::<String>(j, "proxy_url");
        let height = optional::<u64>(j, "height");
        let width = optional::<u64>(j, "width");
        let ephemeral = optional::<bool>(j, "ephemeral");
        if object_fault(j) is Some {
            Err(object_fault(j)->0)
        } else if id is Err {
            Err(id->Err_0)
        } else if filename is Err {
            Err(filename->Err_0)
        } else if description is Err {
            Err(description->Err_0)
        } else if content_type is Err {
            Err(content_type->Err_0)
        } else if size is Err {
            Err(size->Err_0)
        } else if url is Err {
            Err(url->Err_0)
        } else if proxy_url is Err {
            Err(proxy_url->Err_0)
        } else if height is Err {
            Err(height->Err_0)
        } else if width is Err {
            Err(width->Err_0)
        } else if ephemeral is Err {
            Err(ephemeral->Err_0)
        } else {
            Ok(
                AttachmentView {
                    id: id->Ok_0,
                    filename: filename->Ok_0,
                    description: description->Ok_0,
                    content_type: content_type->Ok_0,
                    size: size->Ok_0,
                    url: url->Ok_0,
                    proxy_url: proxy_url->Ok_0,
                    height: height->Ok_0,
                    width: width->Ok_0,
                    ephemeral: ephemeral->Ok_0,
                },
            )
        }
    }

    fn from_json(j: &Json) -> (r: Result<Attachment, DecodeError>) {
        expect_object(j)?;
        let id = req::<Snowflake>(j, "id")?;
        let filename = req::<String>(j, "filename")?;
        let description = opt::<String>(j, "description")?;
        let content_type = opt::<String>(j, "content_type")?;
        let size = req::<u64>(j, "size")?;
        let url = req::<String>(j, "url")?;
        let proxy_url = req::<String>(j, "proxy_url")?;
        let height = opt::<u64>(j, "height")?;
        let width = opt::<u64>(j, "width")?;
        let ephemeral = opt::<bool>(j, "ephemeral")?;
        Ok(
            Attachment {
                id,
                filename,
                description,
                content_type,
                size,
                url,
                proxy_url,
                height,
                width,
                ephemeral,
            },
        )
    }
}

impl ToJson for Attachment {
    open spec fn encoding(m: AttachmentView) -> JsonView {
        JsonView::Object(
            Seq::empty()
                + field::<Snowflake>("id", m.id)
                + field::<String>("filename", m.filename)
                + opt_field::<String>("description", m.description)
                + opt_field::<String>("content_type", m.content_type)
                + field::<u64>("size", m.size)
                + field::<String>("url", m.url)
                + field::<String>("proxy_url", m.proxy_url)
                + opt_field::<u64>("height", m.height)
                + opt_field::<u64>("width", m.width)
                + opt_field::<bool>("ephemeral", m.ephemeral),
        )
    }

    fn to_json(&self) -> (j: Json) {
        let mut members = no_members();
        put(&mut members, "id", &self.id);
        put(&mut members, "filename", &self.filename);
        put_opt(&mut members, "description", &self.description);
        put_opt(&mut members, "content_type", &self.content_type);
        put(&mut members, "size", &self.size);
        put(&mut members, "url", &self.url);
        put(&mut members, "proxy_url", &self.proxy_url);
        put_opt(&mut members, "height", &self.height);
        put_opt(&mut members, "width", &self.width);
        put_opt(&mut members, "ephemeral", &self.ephemeral);
        object(members)
    }
}

impl RoundTrip for Attachment {
    open spec fn faithful(m: AttachmentView) -> bool {
        true
    }

    proof fn lemma_round_trip(m: AttachmentView) {
        // No two keys are the same.
        reveal_strlit("id");
        reveal_strlit("filename");
        reveal_strlit("description");
        reveal_strlit("content_type");
        reveal_strlit("size");
        reveal_strlit("url");
        reveal_strlit("proxy_url");
        reveal_strlit("height");
        reveal_strlit("width");
        reveal_strlit("ephemeral");
        assert("id"@.len() == 2);
        assert("filename"@.len() == 8);
        assert("description"@.len() == 11);
        assert("content_type"@.len() == 12);
        assert("size"@.len() == 4);
        assert("url"@.len() == 3);
        assert("proxy_url"@.len() == 9 && "proxy_url"@[0] == 'p');
        assert("height"@.len() == 6);
        assert("width"@.len() == 5);
        assert("ephemeral"@.len() == 9 && "ephemeral"@[0] == 'e');
        // What the object holds, member by member.
        let s0: Members = Seq::empty();
        Snowflake::lemma_round_trip(m.id);
        lemma_field::<Snowflake>("id", m.id);
        let s1 = s0 + field::<Snowflake>("id", m.id);
        lemma_concat(s0, field::<Snowflake>("id", m.id));
        String::lemma_round_trip(m.filename);
        lemma_field::<String>("filename", m.filename);
        let s2 = s1 + field::<String>("filename", m.filename);
        lemma_concat(s1, field::<String>("filename", m.filename));
        if m.description is Some {
            String::lemma_round_trip(m.description->0);
        }
        lemma_opt_field::<String>("description", m.description);
        let s3 = s2 + opt_field::<String>("description", m.description);
        lemma_concat(s2, opt_field::<String>("description", m.description));
        if m.content_type is Some {
            String::lemma_round_trip(m.content_type->0);
        }
        lemma_opt_field::<String>("content_type", m.content_type);
        let s4 = s3 + opt_field::<String>("content_type", m.content_type);
        lemma_concat(s3, opt_field::<String>("content_type", m.content_type));
        u64::lemma_round_trip(m.size);
        lemma_field::<u64>("size", m.size);
        let s5 = s4 + field::<u64>("size", m.size);
        lemma_concat(s4, field::<u64>("size", m.size));
        String::lemma_round_trip(m.url);
        lemma_field::<String>("url", m.url);
        let s6 = s5 + field::<String>("url", m.url);
        lemma_concat(s5, field::<String>("url", m.url));
        String::lemma_round_trip(m.proxy_url);
        lemma_field::<String>("proxy_url", m.proxy_url);
        let s7 = s6 + field::<String>("proxy_url", m.proxy_url);
        lemma_concat(s6, field::<String>("proxy_url", m.proxy_url));
        if m.height is Some {
            u64::lemma_round_trip(m.height->0);
        }
        lemma_opt_field::<u64>("height", m.height);
        let s8 = s7 + opt_field::<u64>("height", m.height);
        lemma_concat(s7, opt_field::<u64>("height", m.height));
        if m.width is Some {
            u64::lemma_round_trip(m.width->0);
        }
        lemma_opt_field::<u64>("width", m.width);
        let s9 = s8 + opt_field::<u64>("width", m.width);
        lemma_concat(s8, opt_field::<u64>("width", m.width));
        if m.ephemeral is Some {
            bool::lemma_round_trip(m.ephemeral->0);
        }
        lemma_opt_field::<bool>("ephemeral", m.ephemeral);
        let s10 = s9 + opt_field::<bool>("ephemeral", m.ephemeral);
        lemma_concat(s9, opt_field::<bool>("ephemeral", m.ephemeral));
        lemma_object(s10);
        // What each member decodes to.
        let j = JsonView::Object(s10);
        lemma_required_back::<Snowflake>(j, "id", m.id);
        lemma_required_back::<String>(j, "filename", m.filename);
        lemma_optional_back::<String>(j, "description", m.description);
        lemma_optional_back::<String>(j, "content_type", m.content_type);
        lemma_required_back::<u64>(j, "size", m.size);
        lemma_required_back::<String>(j, "url", m.url);
        lemma_required_back::<String>(j, "proxy_url", m.proxy_url);
        lemma_optional_back::<u64>(j, "height", m.height);
        lemma_optional_back::<u64>(j, "width", m.width);
        lemma_optional_back::<bool>(j, "ephemeral", m.ephemeral);
    }
}

/// Rich content shown with a message.
#[derive(Debug, Clone, PartialEq, Eq)]
pub struct Embed {
    pub title: Option<String>,
    pub embed_type: Option<EmbedType>,
    pub description: Option<String>,
    pub url: Option<String>,
    pub timestamp: Option<String>,
    pub color: Option<u64>,
    pub footer: Option<EmbedFooter>,
    pub image: Option<EmbedImage>,
    pub thumbnail: Option<EmbedThumbnail>,
    pub video: Option<EmbedVideo>,
    pub provider: Option<EmbedProvider>,
    pub author: Option<EmbedAuthor>,
    pub fields: Vec<EmbedField>,
}

/// The model of [`Embed`].
pub struct EmbedView {
    pub title: Option<Seq<char>>,
    pub embed_type: Option<EmbedType>,
    pub description: Option<Seq<char>>,
    pub url: Option<Seq<char>>,
    pub timestamp: Option<Seq<char>>,
    pub color: Option<u64>,
    pub footer: Option<EmbedFooterView>,
    pub image: Option<EmbedImageView>,
    pub thumbnail: Option<EmbedThumbnailView>,
    pub video: Option<EmbedVideoView>,
    pub provider: Option<EmbedProviderView>,
    pub author: Option<EmbedAuthorView>,
    pub fields: Seq<EmbedFieldView>,
}

impl DeepView for Embed {
    type V = EmbedView;

    open spec fn deep_view(&self) -> EmbedView {
        EmbedView {
            title: self.title.deep_view(),
            embed_type: self.embed_type.deep_view(),
            description: self.description.deep_view(),
            url: self.url.deep_view(),
            timestamp: self.timestamp.deep_view(),
            color: self.color.deep_view(),
            footer: self.footer.deep_view(),
            image: self.image.deep_view(),
            thumbnail: self.thumbnail.deep_view(),
            video: self.video.deep_view(),
            provider: self.provider.deep_view(),
            author: self.author.deep_view(),
            fields: self.fields.deep_view(),
        }
    }
}

impl EmbedView {
    /// The record with nothing set.
    pub open spec fn empty() -> EmbedView {
        EmbedView {
            title: None,
            embed_type: None,
            description: None,
            url: None,
            timestamp: None,
            color: None,
            footer: None,
            image: None,
            thumbnail: None,
            video: None,
            provider: None,
            author: None,
            fields: Seq::empty(),
        }
    }
}

impl Default for Embed {
    fn default() -> (r: Embed)
        ensures
            r.deep_view() == EmbedView::empty(),
    {
        let r = Embed {
            title: None,
            embed_type: None,
            description: None,
            url: None,
            timestamp: None,
            color: None,
            footer: None,
            image: None,
            thumbnail: None,
            video: None,
            provider: None,
            author: None,
            fields: Vec::new(),
        };
        assert(r.fields.deep_view() =~= Seq::empty());
        r
    }
}

impl FromJson for Embed {
    open spec fn decoding(j: JsonView) -> Result<EmbedView, DecodeError> {
        let title = optional::<String>(j, "title");
        let embed_type = optional::<EmbedType>(j, "type");
        let description = optional::<String>(j, "description");
        let url = optional::<String>(j, "url");
        let timestamp = optional::<String>(j, "timestamp");
        let color = optional::<u64>(j, "color");
        let footer = optional::<EmbedFooter>(j, "footer");
        let image = optional::<EmbedImage>(j, "image");
        let thumbnail = optional::<EmbedThumbnail>(j, "thumbnail");
        let video = optional::<EmbedVideo>(j, "video");
        let provider = optional::<EmbedProvider>(j, "provider");
        let author = optional::<EmbedAuthor>(j, "author");
        let fields = defaulted::<EmbedField>(j, "fields");
        if object_fault(j) is Some {
            Err(object_fault(j)->0)
        } else if title is Err {
            Err(title->Err_0)
        } else if embed_type is Err {
            Err(embed_type->Err_0)
        } else if description is Err {
            Err(description->Err_0)
        } else if url is Err {
            Err(url->Err_0)
        } else if timestamp is Err {
            Err(timestamp->Err_0)
        } else if color is Err {
            Err(color->Err_0)
        } else if footer is Err {
            Err(footer->Err_0)
        } else if image is Err {
            Err(image->Err_0)
        } else if thumbnail is Err {
            Err(thumbnail->Err_0)
        } else if video is Err {
            Err(video->Err_0)
        } else if provider is Err {
            Err(provider->Err_0)
        } else if author is Err {
            Err(author->Err_0)
        } else if fields is Err {
            Err(fields->Err_0)
        } else {
            Ok(
                EmbedView {
                    title: title->Ok_0,
                    embed_type: embed_type->Ok_0,
                    description: description->Ok_0,
                    url: url->Ok_0,
                    timestamp: timestamp->Ok_0,
                    color: color->Ok_0,
                    footer: footer->Ok_0,
                    image: image->Ok_0,
                    thumbnail: thumbnail->Ok_0,
                    video: video->Ok_0,
                    provider: provider->Ok_0,
                    author: author->Ok_0,
                    fields: fields->Ok_0,
                },
            )
        }
    }

    fn from_json(j: &Json) -> (r: Result<Embed, DecodeError>) {
        expect_object(j)?;
        let title = opt::<String>(j, "title")?;
        let embed_type = opt::<EmbedType>(j, "type")?;
        let description = opt::<String>(j, "description")?;
        let url = opt::<String>(j, "url")?;
        let timestamp = opt::<String>(j, "timestamp")?;
        let color = opt::<u64>(j, "color")?;
        let footer = opt::<EmbedFooter>(j, "footer")?;
        let image = opt::<EmbedImage>(j, "image")?;
        let thumbnail = opt::<EmbedThumbnail>(j, "thumbnail")?;
        let video = opt::<EmbedVideo>(j, "video")?;
        let provider = opt::<EmbedProvider>(j, "provider")?;
        let author = opt::<EmbedAuthor>(j, "author")?;
        let fields = list::<EmbedField>(j, "fields")?;
        Ok(
            Embed {
                title,
                embed_type,
                description,
                url,
                timestamp,
                color,
                footer,
                image,
                thumbnail,
                video,
                provider,
                author,
                fields,
            },
        )
    }
}

impl ToJson for Embed {
    open spec fn encoding(m: EmbedView) -> JsonView {
        JsonView::Object(
            Seq::empty()
                + opt_field::<String>("title", m.title)
                + opt_field::<EmbedType>("type", m.embed_type)
                + opt_field::<String>("description", m.description)
                + opt_field::<String>("url", m.url)
                + opt_field::<String>("timestamp", m.timestamp)
                + opt_field::<u64>("color", m.color)
                + opt_field::<EmbedFooter>("footer", m.footer)
                + opt_field::<EmbedImage>("image", m.image)
                + opt_field::<EmbedThumbnail>("thumbnail", m.thumbnail)
                + opt_field::<EmbedVideo>("video", m.video)
                + opt_field::<EmbedProvider>("provider", m.provider)
                + opt_field::<EmbedAuthor>("author", m.author)
                + filled_field::<EmbedField>("fields", m.fields),
        )
    }

    fn to_json(&self) -> (j: Json) {
        let mut members = no_members();
        put_opt(&mut members, "title", &self.title);
        put_opt(&mut members, "type", &self.embed_type);
        put_opt(&mut members, "description", &self.description);
        put_opt(&mut members, "url", &self.url);
        put_opt(&mut members, "timestamp", &self.timestamp);
        put_opt(&mut members, "color", &self.color);
        put_opt(&mut members, "footer", &self.footer);
        put_opt(&mut members, "image", &self.image);
        put_opt(&mut members, "thumbnail", &self.thumbnail);
        put_opt(&mut members, "video", &self.video);
        put_opt(&mut members, "provider", &self.provider);
        put_opt(&mut members, "author", &self.author);
        put_filled(&mut members, "fields", &self.fields);
        object(members)
    }
}

impl RoundTrip for Embed {
    open spec fn faithful(m: EmbedView) -> bool {
        true
    }

    proof fn lemma_round_trip(m: EmbedView) {
        // No two keys are the same.
        reveal_strlit("title");
        reveal_strlit("type");
        reveal_strlit("description");
        reveal_strlit("url");
        reveal_strlit("timestamp");
        reveal_strlit("color");
        reveal_strlit("footer");
        reveal_strlit("image");
        reveal_strlit("thumbnail");
        reveal_strlit("video");
        reveal_strlit("provider");
        reveal_strlit("author");
        reveal_strlit("fields");
        assert("title"@.len() == 5 && "title"@[0] == 't');
        assert("type"@.len() == 4);
        assert("description"@.len() == 11);
        assert("url"@.len() == 3);
        assert("timestamp"@.len() == 9 && "timestamp"@[1] == 'i');
        assert("color"@.len() == 5 && "color"@[0] == 'c');
        assert("footer"@.len() == 6 && "footer"@[0] == 'f' && "footer"@[1] == 'o');
        assert("image"@.len() == 5 && "image"@[0] == 'i');
        assert("thumbnail"@.len() == 9 && "thumbnail"@[1] == 'h');
        assert("video"@.len() == 5 && "video"@[0] == 'v');
        assert("provider"@.len() == 8);
        assert("author"@.len() == 6 && "author"@[0] == 'a');
        assert("fields"@.len() == 6 && "fields"@[0] == 'f' && "fields"@[1] == 'i');
        // What the object holds, member by member.
        let s0: Members = Seq::empty();
        if m.title is Some {
            String::lemma_round_trip(m.title->0);
        }
        lemma_opt_field::<String>("title", m.title);
        let s1 = s0 + opt_field::<String>("title", m.title);
        lemma_concat(s0, opt_field::<String>("title", m.title));
        if m.embed_type is Some {
            EmbedType::lemma_round_trip(m.embed_type->0);
        }
        lemma_opt_field::<EmbedType>("type", m.embed_type);
        let s2 = s1 + opt_field::<EmbedType>("type", m.embed_type);
        lemma_concat(s1, opt_field::<EmbedType>("type", m.embed_type));
        if m.description is Some {
            String::lemma_round_trip(m.description->0);
        }
        lemma_opt_field::<String>("description", m.description);
        let s3 = s2 + opt_field::<String>("description", m.description);
        lemma_concat(s2, opt_field::<String>("description", m.description));
        if m.url is Some {
            String::lemma_round_trip(m.url->0);
        }
        lemma_opt_field::<String>("url", m.url);
        let s4 = s3 + opt_field::<String>("url", m.url);
        lemma_concat(s3, opt_field::<String>("url", m.url));
        if m.timestamp is Some {
            String::lemma_round_trip(m.timestamp->0);
        }
        lemma_opt_field::<String>("timestamp", m.timestamp);
        let s5 = s4 + opt_field::<String>("timestamp", m.timestamp);
        lemma_concat(s4, opt_field::<String>("timestamp", m.timestamp));
        if m.color is Some {
            u64::lemma_round_trip(m.color->0);
        }
        lemma_opt_field::<u64>("color", m.color);
        let s6 = s5 + opt_field::<u64>("color", m.color);
        lemma_concat(s5, opt_field::<u64>("color", m.color));
        if m.footer is Some {
            EmbedFooter::lemma_round_trip(m.footer->0);
        }
        lemma_opt_field::<EmbedFooter>("footer", m.footer);
        let s7 = s6 + opt_field::<EmbedFooter>("footer", m.footer);
        lemma_concat(s6, opt_field::<EmbedFooter>("footer", m.footer));
        if m.image is Some {
            EmbedImage::lemma_round_trip(m.image->0);
        }
        lemma_opt_field::<EmbedImage>("image", m.image);
        let s8 = s7 + opt_field::<EmbedImage>("image", m.image);
        lemma_concat(s7, opt_field::<EmbedImage>("image", m.image));
        if m.thumbnail is Some {
            EmbedThumbnail::lemma_round_trip(m.thumbnail->0);
        }
        lemma_opt_field::<EmbedThumbnail>("thumbnail", m.thumbnail);
        let s9 = s8 + opt_field::<EmbedThumbnail>("thumbnail", m.thumbnail);
        lemma_concat(s8, opt_field::<EmbedThumbnail>("thumbnail", m.thumbnail));
        if m.video is Some {
            EmbedVideo::lemma_round_trip(m.video->0);
        }
        lemma_opt_field::<EmbedVideo>("video", m.video);
        let s10 = s9 + opt_field::<EmbedVideo>("video", m.video);
        lemma_concat(s9, opt_field::<EmbedVideo>("video", m.video));
        if m.provider is Some {
            EmbedProvider::lemma_round_trip(m.provider->0);
        }
        lemma_opt_field::<EmbedProvider>("provider", m.provider);
        let s11 = s10 + opt_field::<EmbedProvider>("provider", m.provider);
        lemma_concat(s10, opt_field::<EmbedProvider>("provider", m.provider));
        if m.author is Some {
            EmbedAuthor::lemma_round_trip(m.author->0);
        }
        lemma_opt_field::<EmbedAuthor>("author", m.author);
        let s12 = s11 + opt_field::<EmbedAuthor>("author", m.author);
        lemma_concat(s11, opt_field::<EmbedAuthor>("author", m.author));
        Vec::<EmbedField>::lemma_round_trip(m.fields);
        if m.fields.len() == 0 {
            assert(m.fields =~= Seq::empty());
        }
        lemma_filled_field::<EmbedField>("fields", m.fields);
        let s13 = s12 + filled_field::<EmbedField>("fields", m.fields);
        lemma_concat(s12, filled_field::<EmbedField>("fields", m.fields));
        lemma_object(s13);
        // What each member decodes to.
        let j = JsonView::Object(s13);
        lemma_optional_back::<String>(j, "title", m.title);
        lemma_optional_back::<EmbedType>(j, "type", m.embed_type);
        lemma_optional_back::<String>(j, "description", m.description);
        lemma_optional_back::<String>(j, "url", m.url);
        lemma_optional_back::<String>(j, "timestamp", m.timestamp);
        lemma_optional_back::<u64>(j, "color", m.color);
        lemma_optional_back::<EmbedFooter>(j, "footer", m.footer);
        lemma_optional_back::<EmbedImage>(j, "image", m.image);
        lemma_optional_back::<EmbedThumbnail>(j, "thumbnail", m.thumbnail);
        lemma_optional_back::<EmbedVideo>(j, "video", m.video);
        lemma_optional_back::<EmbedProvider>(j, "provider", m.provider);
        lemma_optional_back::<EmbedAuthor>(j, "author", m.author);
        lemma_defaulted_back::<EmbedField>(j, "fields", m.fields);
    }
}

/// The kind of an embed.
#[derive(Debug, Clone, Copy, PartialEq, Eq, Structural)]
pub enum EmbedType {
    Rich,
    Image,
    Video,
    Gifv,
    Article,
    Link,
}

impl DeepView for EmbedType {
    type V = EmbedType;

    open spec fn deep_view(&self) -> EmbedType {
        *self
    }
}

impl EmbedType {
    /// The name that stands for the variant on the wire.
    pub open spec fn spec_name(self) -> Seq<char> {
        match self {
            EmbedType::Rich => "rich"@,
            EmbedType::Image => "image"@,
            EmbedType::Video => "video"@,
            EmbedType::Gifv => "gifv"@,
            EmbedType::Article => "article"@,
            EmbedType::Link => "link"@,
        }
    }

    /// The variant that `name` stands for, if any.
    pub open spec fn spec_from_name(name: Seq<char>) -> Option<EmbedType> {
        if name == "rich"@ {
            Some(EmbedType::Rich)
        } else if name == "image"@ {
            Some(EmbedType::Image)
        } else if name == "video"@ {
            Some(EmbedType::Video)
        } else if name == "gifv"@ {
            Some(EmbedType::Gifv)
        } else if name == "article"@ {
            Some(EmbedType::Article)
        } else if name == "link"@ {
            Some(EmbedType::Link)
        } else {
            None
        }
    }

    /// The name that stands for the variant on the wire.
    pub fn name(&self) -> (r: &'static str)
        ensures
            r@ == self.spec_name(),
    {
        match self {
            EmbedType::Rich => "rich",
            EmbedType::Image => "image",
            EmbedType::Video => "video",
            EmbedType::Gifv => "gifv",
            EmbedType::Article => "article",
            EmbedType::Link => "link",
        }
    }

    /// The variant that `name` stands for, if any.
    pub fn from_name(name: &str) -> (r: Option<EmbedType>)
        ensures
            r == Self::spec_from_name(name@),
    {
        if str_eq(name, "rich") {
            Some(EmbedType::Rich)
        } else if str_eq(name, "image") {
            Some(EmbedType::Image)
        } else if str_eq(name, "video") {
            Some(EmbedType::Video)
        } else if str_eq(name, "gifv") {
            Some(EmbedType::Gifv)
        } else if str_eq(name, "article") {
            Some(EmbedType::Article)
        } else if str_eq(name, "link") {
            Some(EmbedType::Link)
        } else {
            None
        }
    }
}

impl FromJson for EmbedType {
    open spec fn decoding(j: JsonView) -> Result<EmbedType, DecodeError> {
        match j {
            JsonView::String(s) => match EmbedType::spec_from_name(s) {
                Some(v) => Ok(v),
                None => Err(DecodeError::InvalidValue("EmbedType")),
            },
            _ => Err(DecodeError::InvalidType("string")),
        }
    }

    fn from_json(j: &Json) -> (r: Result<EmbedType, DecodeError>) {
        match j {
            Json::String(s) => match EmbedType::from_name(s.as_str()) {
                Some(v) => Ok(v),
                None => Err(DecodeError::InvalidValue("EmbedType")),
            },
            _ => Err(DecodeError::InvalidType("string")),
        }
    }
}

impl ToJson for EmbedType {
    open spec fn encoding(m: EmbedType) -> JsonView {
        JsonView::String(m.spec_name())
    }

    fn to_json(&self) -> (j: Json) {
        Json::String(self.name().to_owned())
    }
}

impl RoundTrip for EmbedType {
    open spec fn faithful(m: EmbedType) -> bool {
        true
    }

    proof fn lemma_round_trip(m: EmbedType) {
        reveal_strlit("rich");
        reveal_strlit("image");
        reveal_strlit("video");
        reveal_strlit("gifv");
        reveal_strlit("article");
        reveal_strlit("link");
        assert("rich"@.len() == 4 && "rich"@[0] == 'r');
        assert("image"@.len() == 5 && "image"@[0] == 'i');
        assert("video"@.len() == 5 && "video"@[0] == 'v');
        assert("gifv"@.len() == 4 && "gifv"@[0] == 'g');
        assert("article"@.len() == 7);
        assert("link"@.len() == 4 && "link"@[0] == 'l');
    }
}

/// The line under an embed.
#[derive(Debug, Clone, PartialEq, Eq)]
pub struct EmbedFooter {
    pub text: String,
    pub icon_url: Option<String>,
    pub proxy_icon_url: Option<String>,
}

/// The model of [`EmbedFooter`].
pub struct EmbedFooterView {
    pub text: Seq<char>,
    pub icon_url: Option<Seq<char>>,
    pub proxy_icon_url: Option<Seq<char>>,
}

impl DeepView for EmbedFooter {
    type V = EmbedFooterView;

    open spec fn deep_view(&self) -> EmbedFooterView {
        EmbedFooterView {
            text: self.text.deep_view(),
            icon_url: self.icon_url.deep_view(),
            proxy_icon_url: self.proxy_icon_url.deep_view(),
        }
    }
}

impl EmbedFooterView {
    /// The record with nothing set.
    pub open spec fn empty() -> EmbedFooterView {
        EmbedFooterView {
            text: Seq::empty(),
            icon_url: None,
            proxy_icon_url: None,
        }
    }
}

impl Default for EmbedFooter {
    fn default() -> (r: EmbedFooter)
        ensures
            r.deep_view() == EmbedFooterView::empty(),
    {
        let r = EmbedFooter {
            text: String::new(),
            icon_url: None,
            proxy_icon_url: None,
        };
        r
    }
}

impl FromJson for EmbedFooter {
    open spec fn decoding(j: JsonView) -> Result<EmbedFooterView, DecodeError> {
        let text = required::<String>(j, "text");
        let icon_url = optional::<String>(j, "icon_url");
        let proxy_icon_url = optional::<String>(j, "proxy_icon_url");
        if object_fault(j) is Some {
            Err(object_fault(j)->0)
        } else if text is Err {
            Err(text->Err_0)
        } else if icon_url is Err {
            Err(icon_url->Err_0)
        } else if proxy_icon_url is Err {
            Err(proxy_icon_url->Err_0)
        } else {
            Ok(
                EmbedFooterView {
                    text: text->Ok_0,
                    icon_url: icon_url->Ok_0,
                    proxy_icon_url: proxy_icon_url->Ok_0,
                },
            )
        }
    }

    fn from_json(j: &Json) -> (r: Result<EmbedFooter, DecodeError>) {
        expect_object(j)?;
        let text = req::<String>(j, "text")?;
        let icon_url = opt::<String>(j, "icon_url")?;
        let proxy_icon_url = opt::<String>(j, "proxy_icon_url")?;
        Ok(EmbedFooter { text, icon_url, proxy_icon_url })
    }
}

impl ToJson for EmbedFooter {
    open spec fn encoding(m: EmbedFooterView) -> JsonView {
        JsonView::Object(
            Seq::empty()
                + field::<String>("text", m.text)
                + opt_field::<String>("icon_url", m.icon_url)
                + opt_field::<String>("proxy_icon_url", m.proxy_icon_url),
        )
    }

    fn to_json(&self) -> (j: Json) {
        let mut members = no_members();
        put(&mut members, "text", &self.text);
        put_opt(&mut members, "icon_url", &self.icon_url);
        put_opt(&mut members, "proxy_icon_url", &self.proxy_icon_url);
        object(members)
    }
}

impl RoundTrip for EmbedFooter {
    open spec fn faithful(m: EmbedFooterView) -> bool {
        true
    }

    proof fn lemma_round_trip(m: EmbedFooterView) {
        // No two keys are the same.
        reveal_strlit("text");
        reveal_strlit("icon_url");
        reveal_strlit("proxy_icon_url");
        assert("text"@.len() == 4);
        assert("icon_url"@.len() == 8);
        assert("proxy_icon_url"@.len() == 14);
        // What the object holds, member by member.
        let s0: Members = Seq::empty();
        String::lemma_round_trip(m.text);
        lemma_field::<String>("text", m.text);
        let s1 = s0 + field::<String>("text", m.text);
        lemma_concat(s0, field::<String>("text", m.text));
        if m.icon_url is Some {
            String::lemma_round_trip(m.icon_url->0);
        }
        lemma_opt_field::<String>("icon_url", m.icon_url);
        let s2 = s1 + opt_field::<String>("icon_url", m.icon_url);
        lemma_concat(s1, opt_field::<String>("icon_url", m.icon_url));
        if m.proxy_icon_url is Some {
            String::lemma_round_trip(m.proxy_icon_url->0);
        }
        lemma_opt_field::<String>("proxy_icon_url", m.proxy_icon_url);
        let s3 = s2 + opt_field::<String>("proxy_icon_url", m.proxy_icon_url);
        lemma_concat(s2, opt_field::<String>("proxy_icon_url", m.proxy_icon_url));
        lemma_object(s3);
        // What each member decodes to.
        let j = JsonView::Object(s3);
        lemma_required_back::<String>(j, "text", m.text);
        lemma_optional_back::<String>(j, "icon_url", m.icon_url);
        lemma_optional_back::<String>(j, "proxy_icon_url", m.proxy_icon_url);
    }
}

/// The image of an embed.
#[derive(Debug, Clone, PartialEq, Eq)]
pub struct EmbedImage {
    pub url: String,
    pub proxy_url: Option<String>,
    pub height: Option<u64>,
    pub width: Option<u64>,
}

/// The model of [`EmbedImage`].
pub struct EmbedImageView {
    pub url: Seq<char>,
    pub proxy_url: Option<Seq<char>>,
    pub height: Option<u64>,
    pub width: Option<u64>,
}

impl DeepView for EmbedImage {
    type V = EmbedImageView;

    open spec fn deep_view(&self) -> EmbedImageView {
        EmbedImageView {
            url: self.url.deep_view(),
            proxy_url: self.proxy_url.deep_view(),
            height: self.height.deep_view(),
            width: self.width.deep_view(),
        }
    }
}

impl FromJson for EmbedImage {
    open spec fn decoding(j: JsonView) -> Result<EmbedImageView, DecodeError> {
        let url = required::<String>(j, "url");
        let proxy_url = optional::<String>(j, "proxy_url");
        let height = optional::<u64>(j, "height");
        let width = optional::<u64>(j, "width");
        if object_fault(j) is Some {
            Err(object_fault(j)->0)
        } else if url is Err {
            Err(url->Err_0)
        } else if proxy_url is Err {
            Err(proxy_url->Err_0)
        } else if height is Err {
            Err(height->Err_0)
        } else if width is Err {
            Err(width->Err_0)
        } else {
            Ok(
                EmbedImageView {
                    url: url->Ok_0,
                    proxy_url: proxy_url->Ok_0,
                    height: height->Ok_0,
                    width: width->Ok_0,
                },
            )
        }
    }

    fn from_json(j: &Json) -> (r: Result<EmbedImage, DecodeError>) {
        expect_object(j)?;
        let url = req::<String>(j, "url")?;
        let proxy_url = opt::<String>(j, "proxy_url")?;
        let height = opt::<u64>(j, "height")?;
        let width = opt::<u64>(j, "width")?;
        Ok(EmbedImage { url, proxy_url, height, width })
    }
}

impl ToJson for EmbedImage {
    open spec fn encoding(m: EmbedImageView) -> JsonView {
        JsonView::Object(
            Seq::empty()
                + field::<String>("url", m.url)
                + opt_field::<String>("proxy_url", m.proxy_url)
                + opt_field::<u64>("height", m.height)
                + opt_field::<u64>("width", m.width),
        )
    }

    fn to_json(&self) -> (j: Json) {
        let mut members = no_members();
        put(&mut members, "url", &self.url);
        put_opt(&mut members, "proxy_url", &self.proxy_url);
        put_opt(&mut members, "height", &self.height);
        put_opt(&mut members, "width", &self.width);
        object(members)
    }
}

impl RoundTrip for EmbedImage {
    open spec fn faithful(m: EmbedImageView) -> bool {
        true
    }

    proof fn lemma_round_trip(m: EmbedImageView) {
        // No two keys are the same.
        reveal_strlit("url");
        reveal_strlit("proxy_url");
        reveal_strlit("height");
        reveal_strlit("width");
        assert("url"@.len() == 3);
        assert("proxy_url"@.len() == 9);
        assert("height"@.len() == 6);
        assert("width"@.len() == 5);
        // What the object holds, member by member.
        let s0: Members = Seq::empty();
        String::lemma_round_trip(m.url);
        lemma_field::<String>("url", m.url);
        let s1 = s0 + field::<String>("url", m.url);
        lemma_concat(s0, field::<String>("url", m.url));
        if m.proxy_url is Some {
            String::lemma_round_trip(m.proxy_url->0);
        }
        lemma_opt_field::<String>("proxy_url", m.proxy_url);
        let s2 = s1 + opt_field::<String>("proxy_url", m.proxy_url);
        lemma_concat(s1, opt_field::<String>("proxy_url", m.proxy_url));
        if m.height is Some {
            u64::lemma_round_trip(m.height->0);
        }
        lemma_opt_field::<u64>("height", m.height);
        let s3 = s2 + opt_field::<u64>("height", m.height);
        lemma_concat(s2, opt_field::<u64>("height", m.height));
        if m.width is Some {
            u64::lemma_round_trip(m.width->0);
        }
        lemma_opt_field::<u64>("width", m.width);
        let s4 = s3 + opt_field::<u64>("width", m.width);
        lemma_concat(s3, opt_field::<u64>("width", m.width));
        lemma_object(s4);
        // What each member decodes to.
        let j = JsonView::Object(s4);
        lemma_required_back::<String>(j, "url", m.url);
        lemma_optional_back::<String>(j, "proxy_url", m.proxy_url);
        lemma_optional_back::<u64>(j, "height", m.height);
        lemma_optional_back::<u64>(j, "width", m.width);
    }
}

/// The small image of an embed.
#[derive(Debug, Clone, PartialEq, Eq)]
pub struct EmbedThumbnail {
    pub url: String,
    pub proxy_url: Option<String>,
    pub height: Option<u64>,
    pub width: Option<u64>,
}

/// The model of [`EmbedThumbnail`].
pub struct EmbedThumbnailView {
    pub url: Seq<char>,
    pub proxy_url: Option<Seq<char>>,
    pub height: Option<u64>,
    pub width: Option<u64>,
}

impl DeepView for EmbedThumbnail {
    type V = EmbedThumbnailView;

    open spec fn deep_view(&self) -> EmbedThumbnailView {
        EmbedThumbnailView {
            url: self.url.deep_view(),
            proxy_url: self.proxy_url.deep_view(),
            height: self.height.deep_view(),
            width: self.width.deep_view(),
        }
    }
}

impl EmbedThumbnailView {
    /// The record with nothing set.
    pub open spec fn empty() -> EmbedThumbnailView {
        EmbedThumbnailView {
            url: Seq::empty(),
            proxy_url: None,
            height: None,
            width: None,
        }
    }
}

impl Default for EmbedThumbnail {
    fn default() -> (r: EmbedThumbnail)
        ensures
            r.deep_view() == EmbedThumbnailView::empty(),
    {
        let r = EmbedThumbnail {
            url: String::new(),
            proxy_url: None,
            height: None,
            width: None,
        };
        r
    }
}

impl FromJson for EmbedThumbnail {
    open spec fn decoding(j: JsonView) -> Result<EmbedThumbnailView, DecodeError> {
        let url = required::<String>(j, "url");
        let proxy_url = optional::<String>(j, "proxy_url");
        let height = optional::<u64>(j, "height");
        let width = optional::<u64>(j, "width");
        if object_fault(j) is Some {
            Err(object_fault(j)->0)
        } else if url is Err {
            Err(url->Err_0)
        } else if proxy_url is Err {
            Err(proxy_url->Err_0)
        } else if height is Err {
            Err(height->Err_0)
        } else if width is Err {
            Err(width->Err_0)
        } else {
            Ok(
                EmbedThumbnailView {
                    url: url->Ok_0,
                    proxy_url: proxy_url->Ok_0,
                    height: height->Ok_0,
                    width: width->Ok_0,
                },
            )
        }
    }

    fn from_json(j: &Json) -> (r: Result<EmbedThumbnail, DecodeError>) {
        expect_object(j)?;
        let url = req::<String>(j, "url")?;
        let proxy_url = opt::<String>(j, "proxy_url")?;
        let height = opt::<u64>(j, "height")?;
        let width = opt::<u64>(j, "width")?;
        Ok(EmbedThumbnail { url, proxy_url, height, width })
    }
}

impl ToJson for EmbedThumbnail {
    open spec fn encoding(m: EmbedThumbnailView) -> JsonView {
        JsonView::Object(
            Seq::empty()
                + field::<String>("url", m.url)
                + opt_field::<String>("proxy_url", m.proxy_url)
                + opt_field::<u64>("height", m.height)
                + opt_field::<u64>("width", m.width),
        )
    }

    fn to_json(&self) -> (j: Json) {
        let mut members = no_members();
        put(&mut members, "url", &self.url);
        put_opt(&mut members, "proxy_url", &self.proxy_url);
        put_opt(&mut members, "height", &self.height);
        put_opt(&mut members, "width", &self.width);
        object(members)
    }
}

impl RoundTrip for EmbedThumbnail {
    open spec fn faithful(m: EmbedThumbnailView) -> bool {
        true
    }

    proof fn lemma_round_trip(m: EmbedThumbnailView) {
        // No two keys are the same.
        reveal_strlit("url");
        reveal_strlit("proxy_url");
        reveal_strlit("height");
        reveal_strlit("width");
        assert("url"@.len() == 3);
        assert("proxy_url"@.len() == 9);
        assert("height"@.len() == 6);
        assert("width"@.len() == 5);
        // What the object holds, member by member.
        let s0: Members = Seq::empty();
        String::lemma_round_trip(m.url);
        lemma_field::<String>("url", m.url);
        let s1 = s0 + field::<String>("url", m.url);
        lemma_concat(s0, field::<String>("url", m.url));
        if m.proxy_url is Some {
            String::lemma_round_trip(m.proxy_url->0);
        }
        lemma_opt_field::<String>("proxy_url", m.proxy_url);
        let s2 = s1 + opt_field::<String>("proxy_url", m.proxy_url);
        lemma_concat(s1, opt_field::<String>("proxy_url", m.proxy_url));
        if m.height is Some {
            u64::lemma_round_trip(m.height->0);
        }
        lemma_opt_field::<u64>("height", m.height);
        let s3 = s2 + opt_field::<u64>("height", m.height);
        lemma_concat(s2, opt_field::<u64>("height", m.height));
        if m.width is Some {
            u64::lemma_round_trip(m.width->0);
        }
        lemma_opt_field::<u64>("width", m.width);
        let s4 = s3 + opt_field::<u64>("width", m.width);
        lemma_concat(s3, opt_field::<u64>("width", m.width));
        lemma_object(s4);
        // What each member decodes to.
        let j = JsonView::Object(s4);
        lemma_required_back::<String>(j, "url", m.url);
        lemma_optional_back::<String>(j, "proxy_url", m.proxy_url);
        lemma_optional_back::<u64>(j, "height", m.height);
        lemma_optional_back::<u64>(j, "width", m.width);
    }
}

/// The video of an embed.
#[derive(Debug, Clone, PartialEq, Eq)]
pub struct EmbedVideo {
    pub url: Option<String>,
    pub proxy_url: Option<String>,
    pub height: Option<u64>,
    pub width: Option<u64>,
}

/// The model of [`EmbedVideo`].
pub struct EmbedVideoView {
    pub url: Option<Seq<char>>,
    pub proxy_url: Option<Seq<char>>,
    pub height: Option<u64>,
    pub width: Option<u64>,
}

impl DeepView for EmbedVideo {
    type V = EmbedVideoView;

    open spec fn deep_view(&self) -> EmbedVideoView {
        EmbedVideoView {
            url: self.url.deep_view(),
            proxy_url: self.proxy_url.deep_view(),
            height: self.height.deep_view(),
            width: self.width.deep_view(),
        }
    }
}

impl FromJson for EmbedVideo {
    open spec fn decoding(j: JsonView) -> Result<EmbedVideoView, DecodeError> {
        let url = optional::<String>(j, "url");
        let proxy_url = optional::<String>(j, "proxy_url");
        let height = optional::<u64>(j, "height");
        let width = optional::<u64>(j, "width");
        if object_fault(j) is Some {
            Err(object_fault(j)->0)
        } else if url is Err {
            Err(url->Err_0)
        } else if proxy_url is Err {
            Err(proxy_url->Err_0)
        } else if height is Err {
            Err(height->Err_0)
        } else if width is Err {
            Err(width->Err_0)
        } else {
            Ok(
                EmbedVideoView {
                    url: url->Ok_0,
                    proxy_url: proxy_url->Ok_0,
                    height: height->Ok_0,
                    width: width->Ok_0,
                },
            )
        }
    }

    fn from_json(j: &Json) -> (r: Result<EmbedVideo, DecodeError>) {
        expect_object(j)?;
        let url = opt::<String>(j, "url")?;
        let proxy_url = opt::<String>(j, "proxy_url")?;
        let height = opt::<u64>(j, "height")?;
        let width = opt::<u64>(j, "width")?;
        Ok(EmbedVideo { url, proxy_url, height, width })
    }
}

impl ToJson for EmbedVideo {
    open spec fn encoding(m: EmbedVideoView) -> JsonView {
        JsonView::Object(
            Seq::empty()
                + opt_field::<String>("url", m.url)
                + opt_field::<String>("proxy_url", m.proxy_url)
                + opt_field::<u64>("height", m.height)
                + opt_field::<u64>("width", m.width),
        )
    }

    fn to_json(&self) -> (j: Json) {
        let mut members = no_members();
        put_opt(&mut members, "url", &self.url);
        put_opt(&mut members, "proxy_url", &self.proxy_url);
        put_opt(&mut members, "height", &self.height);
        put_opt(&mut members, "width", &self.width);
        object(members)
    }
}

impl RoundTrip for EmbedVideo {
    open spec fn faithful(m: EmbedVideoView) -> bool {
        true
    }

    proof fn lemma_round_trip(m: EmbedVideoView) {
        // No two keys are the same.
        reveal_strlit("url");
        reveal_strlit("proxy_url");
        reveal_strlit("height");
        reveal_strlit("width");
        assert("url"@.len() == 3);
        assert("proxy_url"@.len() == 9);
        assert("height"@.len() == 6);
        assert("width"@.len() == 5);
        // What the object holds, member by member.
        let s0: Members = Seq::empty();
        if m.url is Some {
            String::lemma_round_trip(m.url->0);
        }
        lemma_opt_field::<String>("url", m.url);
        let s1 = s0 + opt_field::<String>("url", m.url);
        lemma_concat(s0, opt_field::<String>("url", m.url));
        if m.proxy_url is Some {
            String::lemma_round_trip(m.proxy_url->0);
        }
        lemma_opt_field::<String>("proxy_url", m.proxy_url);
        let s2 = s1 + opt_field::<String>("proxy_url", m.proxy_url);
        lemma_concat(s1, opt_field::<String>("proxy_url", m.proxy_url));
        if m.height is Some {
            u64::lemma_round_trip(m.height->0);
        }
        lemma_opt_field::<u64>("height", m.height);
        let s3 = s2 + opt_field::<u64>("height", m.height);
        lemma_concat(s2, opt_field::<u64>("height", m.height));
        if m.width is Some {
            u64::lemma_round_trip(m.width->0);
        }
        lemma_opt_field::<u64>("width", m.width);
        let s4 = s3 + opt_field::<u64>("width", m.width);
        lemma_concat(s3, opt_field::<u64>("width", m.width));
        lemma_object(s4);
        // What each member decodes to.
        let j = JsonView::Object(s4);
        lemma_optional_back::<String>(j, "url", m.url);
        lemma_optional_back::<String>(j, "proxy_url", m.proxy_url);
        lemma_optional_back::<u64>(j, "height", m.height);
        lemma_optional_back::<u64>(j, "width", m.width);
    }
}

/// Where the content of an embed comes from.
#[derive(Debug, Clone, PartialEq, Eq)]
pub struct EmbedProvider {
    pub name: Option<String>,
    pub url: Option<String>,
}

/// The model of [`EmbedProvider`].
pub struct EmbedProviderView {
    pub name: Option<Seq<char>>,
    pub url: Option<Seq<char>>,
}

impl DeepView for EmbedProvider {
    type V = EmbedProviderView;

    open spec fn deep_view(&self) -> EmbedProviderView {
        EmbedProviderView {
            name: self.name.deep_view(),
            url: self.url.deep_view(),
        }
    }
}

impl FromJson for EmbedProvider {
    open spec fn decoding(j: JsonView) -> Result<EmbedProviderView, DecodeError> {
        let name = optional::<String>(j, "name");
        let url = optional::<String>(j, "url");
        if object_fault(j) is Some {
            Err(object_fault(j)->0)
        } else if name is Err {
            Err(name->Err_0)
        } else if url is Err {
            Err(url->Err_0)
        } else {
            Ok(
                EmbedProviderView {
                    name: name->Ok_0,
                    url: url->Ok_0,
                },
            )
        }
    }

    fn from_json(j: &Json) -> (r: Result<EmbedProvider, DecodeError>) {
        expect_object(j)?;
        let name = opt::<String>(j, "name")?;
        let url = opt::<String>(j, "url")?;
        Ok(EmbedProvider { name, url })
    }
}

impl ToJson for EmbedProvider {
    open spec fn encoding(m: EmbedProviderView) -> JsonView {
        JsonView::Object(
            Seq::empty()
                + opt_field::<String>("name", m.name)
                + opt_field::<String>("url", m.url),
        )
    }

    fn to_json(&self) -> (j: Json) {
        let mut members = no_members();
        put_opt(&mut members, "name", &self.name);
        put_opt(&mut members, "url", &self.url);
        object(members)
    }
}

impl RoundTrip for EmbedProvider {
    open spec fn faithful(m: EmbedProviderView) -> bool {
        true
    }

    proof fn lemma_round_trip(m: EmbedProviderView) {
        // No two keys are the same.
        reveal_strlit("name");
        reveal_strlit("url");
        assert("name"@.len() == 4);
        assert("url"@.len() == 3);
        // What the object holds, member by member.
        let s0: Members = Seq::empty();
        if m.name is Some {
            String::lemma_round_trip(m.name->0);
        }
        lemma_opt_field::<String>("name", m.name);
        let s1 = s0 + opt_field::<String>("name", m.name);
        lemma_concat(s0, opt_field::<String>("name", m.name));
        if m.url is Some {
            String::lemma_round_trip(m.url->0);
        }
        lemma_opt_field::<String>("url", m.url);
        let s2 = s1 + opt_field::<String>("url", m.url);
        lemma_concat(s1, opt_field::<String>("url", m.url));
        lemma_object(s2);
        // What each member decodes to.
        let j = JsonView::Object(s2);
        lemma_optional_back::<String>(j, "name", m.name);
        lemma_optional_back::<String>(j, "url", m.url);
    }
}

/// Who wrote the content of an embed.
#[derive(Debug, Clone, PartialEq, Eq)]
pub struct EmbedAuthor {
    pub name: String,
    pub url: Option<String>,
    pub icon_url: Option<String>,
    pub proxy_icon_url: Option<String>,
}

/// The model of [`EmbedAuthor`].
pub struct EmbedAuthorView {
    pub name: Seq<char>,
    pub url: Option<Seq<char>>,
    pub icon_url: Option<Seq<char>>,
    pub proxy_icon_url: Option<Seq<char>>,
}

impl DeepView for EmbedAuthor {
    type V = EmbedAuthorView;

    open spec fn deep_view(&self) -> EmbedAuthorView {
        EmbedAuthorView {
            name: self.name.deep_view(),
            url: self.url.deep_view(),
            icon_url: self.icon_url.deep_view(),
            proxy_icon_url: self.proxy_icon_url.deep_view(),
        }
    }
}

impl EmbedAuthorView {
    /// The record with nothing set.
    pub open spec fn empty() -> EmbedAuthorView {
        EmbedAuthorView {
            name: Seq::empty(),
            url: None,
            icon_url: None,
            proxy_icon_url: None,
        }
    }
}

impl Default for EmbedAuthor {
    fn default() -> (r: EmbedAuthor)
        ensures
            r.deep_view() == EmbedAuthorView::empty(),
    {
        let r = EmbedAuthor {
            name: String::new(),
            url: None,
            icon_url: None,
            proxy_icon_url: None,
        };
        r
    }
}

impl FromJson for EmbedAuthor {
    open spec fn decoding(j: JsonView) -> Result<EmbedAuthorView, DecodeError> {
        let name = required::<String>(j, "name");
        let url = optional::<String>(j, "url");
        let icon_url = optional::<String>(j, "icon_url");
        let proxy_icon_url = optional::<String>(j, "proxy_icon_url");
        if object_fault(j) is Some {
            Err(object_fault(j)->0)
        } else if name is Err {
            Err(name->Err_0)
        } else if url is Err {
            Err(url->Err_0)
        } else if icon_url is Err {
            Err(icon_url->Err_0)
        } else if proxy_icon_url is Err {
            Err(proxy_icon_url->Err_0)
        } else {
            Ok(
                EmbedAuthorView {
                    name: name->Ok_0,
                    url: url->Ok_0,
                    icon_url: icon_url->Ok_0,
                    proxy_icon_url: proxy_icon_url->Ok_0,
                },
            )
        }
    }

    fn from_json(j: &Json) -> (r: Result<EmbedAuthor, DecodeError>) {
        expect_object(j)?;
        let name = req::<String>(j, "name")?;
        let url = opt::<String>(j, "url")?;
        let icon_url = opt::<String>(j, "icon_url")?;
        let proxy_icon_url = opt::<String>(j, "proxy_icon_url")?;
        Ok(EmbedAuthor { name, url, icon_url, proxy_icon_url })
    }
}

impl ToJson for EmbedAuthor {
    open spec fn encoding(m: EmbedAuthorView) -> JsonView {
        JsonView::Object(
            Seq::empty()
                + field::<String>("name", m.name)
                + opt_field::<String>("url", m.url)
                + opt_field::<String>("icon_url", m.icon_url)
                + opt_field::<String>("proxy_icon_url", m.proxy_icon_url),
        )
    }

    fn to_json(&self) -> (j: Json) {
        let mut members = no_members();
        put(&mut members, "name", &self.name);
        put_opt(&mut members, "url", &self.url);
        put_opt(&mut members, "icon_url", &self.icon_url);
        put_opt(&mut members, "proxy_icon_url", &self.proxy_icon_url);
        object(members)
    }
}

impl RoundTrip for EmbedAuthor {
    open spec fn faithful(m: EmbedAuthorView) -> bool {
        true
    }

    proof fn lemma_round_trip(m: EmbedAuthorView) {
        // No two keys are the same.
        reveal_strlit("name");
        reveal_strlit("url");
        reveal_strlit("icon_url");
        reveal_strlit("proxy_icon_url");
        assert("name"@.len() == 4);
        assert("url"@.len() == 3);
        assert("icon_url"@.len() == 8);
        assert("proxy_icon_url"@.len() == 14);
        // What the object holds, member by member.
        let s0: Members = Seq::empty();
        String::lemma_round_trip(m.name);
        lemma_field::<String>("name", m.name);
        let s1 = s0 + field::<String>("name", m.name);
        lemma_concat(s0, field::<String>("name", m.name));
        if m.url is Some {
            String::lemma_round_trip(m.url->0);
        }
        lemma_opt_field::<String>("url", m.url);
        let s2 = s1 + opt_field::<String>("url", m.url);
        lemma_concat(s1, opt_field::<String>("url", m.url));
        if m.icon_url is Some {
            String::lemma_round_trip(m.icon_url->0);
        }
        lemma_opt_field::<String>("icon_url", m.icon_url);
        let s3 = s2 + opt_field::<String>("icon_url", m.icon_url);
        lemma_concat(s2, opt_field::<String>("icon_url", m.icon_url));
        if m.proxy_icon_url is Some {
            String::lemma_round_trip(m.proxy_icon_url->0);
        }
        lemma_opt_field::<String>("proxy_icon_url", m.proxy_icon_url);
        let s4 = s3 + opt_field::<String>("proxy_icon_url", m.proxy_icon_url);
        lemma_concat(s3, opt_field::<String>("proxy_icon_url", m.proxy_icon_url));
        lemma_object(s4);
        // What each member decodes to.
        let j = JsonView::Object(s4);
        lemma_required_back::<String>(j, "name", m.name);
        lemma_optional_back::<String>(j, "url", m.url);
        lemma_optional_back::<String>(j, "icon_url", m.icon_url);
        lemma_optional_back::<String>(j, "proxy_icon_url", m.proxy_icon_url);
    }
}

/// A titled piece of text in an embed.
#[derive(Debug, Clone, PartialEq, Eq)]
pub struct EmbedField {
    pub name: String,
    pub value: String,
    pub inline: Option<bool>,
}

/// The model of [`EmbedField`].
pub struct EmbedFieldView {
    pub name: Seq<char>,
    pub value: Seq<char>,
    pub inline: Option<bool>,
}

impl DeepView for EmbedField {
    type V = EmbedFieldView;

    open spec fn deep_view(&self) -> EmbedFieldView {
        EmbedFieldView {
            name: self.name.deep_view(),
            value: self.value.deep_view(),
            inline: self.inline.deep_view(),
        }
    }
}

impl FromJson for EmbedField {
    open spec fn decoding(j: JsonView) -> Result<EmbedFieldView, DecodeError> {
        let name = required::<String>(j, "name");
        let value = required::<String>(j, "value");
        let inline = optional::<bool>(j, "inline");
        if object_fault(j) is Some {
            Err(object_fault(j)->0)
        } else if name is Err {
            Err(name->Err_0)
        } else if value is Err {
            Err(value->Err_0)
        } else if inline is Err {
            Err(inline->Err_0)
        } else {
            Ok(
                EmbedFieldView {
                    name: name->Ok_0,
                    value: value->Ok_0,
                    inline: inline->Ok_0,
                },
            )
        }
    }

    fn from_json(j: &Json) -> (r: Result<EmbedField, DecodeError>) {
        expect_object(j)?;
        let name = req::<String>(j, "name")?;
        let value = req::<String>(j, "value")?;
        let inline = opt::<bool>(j, "inline")?;
        Ok(EmbedField { name, value, inline })
    }
}

impl ToJson for EmbedField {
    open spec fn encoding(m: EmbedFieldView) -> JsonView {
        JsonView::Object(
            Seq::empty()
                + field::<String>("name", m.name)
                + field::<String>("value", m.value)
                + opt_field::<bool>("inline", m.inline),
        )
    }

    fn to_json(&self) -> (j: Json) {
        let mut members = no_members();
        put(&mut members, "name", &self.name);
        put(&mut members, "value", &self.value);
        put_opt(&mut members, "inline", &self.inline);
        object(members)
    }
}

impl RoundTrip for EmbedField {
    open spec fn faithful(m: EmbedFieldView) -> bool {
        true
    }

    proof fn lemma_round_trip(m: EmbedFieldView) {
        // No two keys are the same.
        reveal_strlit("name");
        reveal_strlit("value");
        reveal_strlit("inline");
        assert("name"@.len() == 4);
        assert("value"@.len() == 5);
        assert("inline"@.len() == 6);
        // What the object holds, member by member.
        let s0: Members = Seq::empty();
        String::lemma_round_trip(m.name);
        lemma_field::<String>("name", m.name);
        let s1 = s0 + field::<String>("name", m.name);
        lemma_concat(s0, field::<String>("name", m.name));
        String::lemma_round_trip(m.value);
        lemma_field::<String>("value", m.value);
        let s2 = s1 + field::<String>("value", m.value);
        lemma_concat(s1, field::<String>("value", m.value));
        if m.inline is Some {
            bool::lemma_round_trip(m.inline->0);
        }
        lemma_opt_field::<bool>("inline", m.inline);
        let s3 = s2 + opt_field::<bool>("inline", m.inline);
        lemma_concat(s2, opt_field::<bool>("inline", m.inline));
        lemma_object(s3);
        // What each member decodes to.
        let j = JsonView::Object(s3);
        lemma_required_back::<String>(j, "name", m.name);
        lemma_required_back::<String>(j, "value", m.value);
        lemma_optional_back::<bool>(j, "inline", m.inline);
    }
}

/// How often an emoji was put on a message.
#[derive(Debug, Clone, PartialEq, Eq)]
pub struct Reaction {
    pub count: u64,
    pub me: bool,
    pub emoji: Emoji,
}

/// The model of [`Reaction`].
pub struct ReactionView {
    pub count: u64,
    pub me: bool,
    pub emoji: EmojiView,
}

impl DeepView for Reaction {
    type V = ReactionView;

    open spec fn deep_view(&self) -> ReactionView {
        ReactionView {
            count: self.count.deep_view(),
            me: self.me.deep_view(),
            emoji: self.emoji.deep_view(),
        }
    }
}

impl FromJson for Reaction {
    open spec fn decoding(j: JsonView) -> Result<ReactionView, DecodeError> {
        let count = required::<u64>(j, "count");
        let me = required::<bool>(j, "me");
        let emoji = required::<Emoji>(j, "emoji");
        if object_fault(j) is Some {
            Err(object_fault(j)->0)
        } else if count is Err {
            Err(count->Err_0)
        } else if me is Err {
            Err(me->Err_0)
        } else if emoji is Err {
            Err(emoji->Err_0)
        } else {
            Ok(
                ReactionView {
                    count: count->Ok_0,
                    me: me->Ok_0,
                    emoji: emoji->Ok_0,
                },
            )
        }
    }

    fn from_json(j: &Json) -> (r: Result<Reaction, DecodeError>) {
        expect_object(j)?;
        let count = req::<u64>(j, "count")?;
        let me = req::<bool>(j, "me")?;
        let emoji = req::<Emoji>(j, "emoji")?;
        Ok(Reaction { count, me, emoji })
    }
}

/// A mark by which a sender finds its message again: a number or a text.
#[derive(Debug, Clone, PartialEq, Eq)]
pub enum Nonce {
    Integer(u64),
    String(String),
}

/// The model of [`Nonce`].
pub enum NonceView {
    Integer(u64),
    String(Seq<char>),
}

impl DeepView for Nonce {
    type V = NonceView;

    open spec fn deep_view(&self) -> NonceView {
        match self {
            Nonce::Integer(n) => NonceView::Integer(*n),
            Nonce::String(s) => NonceView::String(s@),
        }
    }
}

impl FromJson for Nonce {
    open spec fn decoding(j: JsonView) -> Result<NonceView, DecodeError> {
        match j {
            JsonView::Number(JsonNumber::Unsigned(n)) => Ok(NonceView::Integer(n)),
            JsonView::String(s) => Ok(NonceView::String(s)),
            _ => Err(DecodeError::InvalidType("unsigned integer or string")),
        }
    }

    fn from_json(j: &Json) -> (r: Result<Nonce, DecodeError>) {
        match j {
            Json::Number(JsonNumber::Unsigned(n)) => Ok(Nonce::Integer(*n)),
            Json::String(s) => Ok(Nonce::String(s.clone())),
            _ => Err(DecodeError::InvalidType("unsigned integer or string")),
        }
    }
}

/// The kind of a message.
#[derive(Debug, Clone, Copy, PartialEq, Eq, Structural)]
pub enum MessageType {
    Default,
    RecipientAdd,
    RecipientRemove,
    Call,
    ChannelNameChange,
    ChannelIconChange,
    ChannelPinnedMessage,
    GuildMemberJoin,
    UserPremiumGuildSubscription,
    UserPremiumGuildSubscriptionTier1,
    UserPremiumGuildSubscriptionTier2,
    UserPremiumGuildSubscriptionTier3,
    ChannelFollowAdd,
    GuildDiscoveryDisqualified,
    GuildDiscoveryRequalified,
    GuildDiscoveryGracePeriodInitialWarning,
    GuildDiscoveryGracePeriodFinalWarning,
    ThreadCreated,
    Reply,
    ChatInputCommand,
    ThreadStarterMessage,
    GuildInviteReminder,
    ContextMenuCommand,
}

impl DeepView for MessageType {
    type V = MessageType;

    open spec fn deep_view(&self) -> MessageType {
        *self
    }
}

impl MessageType {
    /// The number that stands for the variant on the wire.
    pub open spec fn spec_tag(self) -> u64 {
        match self {
            MessageType::Default => 0,
            MessageType::RecipientAdd => 1,
            MessageType::RecipientRemove => 2,
            MessageType::Call => 3,
            MessageType::ChannelNameChange => 4,
            MessageType::ChannelIconChange => 5,
            MessageType::ChannelPinnedMessage => 6,
            MessageType::GuildMemberJoin => 7,
            MessageType::UserPremiumGuildSubscription => 8,
            MessageType::UserPremiumGuildSubscriptionTier1 => 9,
            MessageType::UserPremiumGuildSubscriptionTier2 => 10,
            MessageType::UserPremiumGuildSubscriptionTier3 => 11,
            MessageType::ChannelFollowAdd => 12,
            MessageType::GuildDiscoveryDisqualified => 14,
            MessageType::GuildDiscoveryRequalified => 15,
            MessageType::GuildDiscoveryGracePeriodInitialWarning => 16,
            MessageType::GuildDiscoveryGracePeriodFinalWarning => 17,
            MessageType::ThreadCreated => 18,
            MessageType::Reply => 19,
            MessageType::ChatInputCommand => 20,
            MessageType::ThreadStarterMessage => 21,
            MessageType::GuildInviteReminder => 22,
            MessageType::ContextMenuCommand => 23,
        }
    }

    /// The variant that `tag` stands for, if any.
    pub open spec fn spec_from_tag(tag: u64) -> Option<MessageType> {
        if tag == 0 {
            Some(MessageType::Default)
        } else if tag == 1 {
            Some(MessageType::RecipientAdd)
        } else if tag == 2 {
            Some(MessageType::RecipientRemove)
        } else if tag == 3 {
            Some(MessageType::Call)
        } else if tag == 4 {
            Some(MessageType::ChannelNameChange)
        } else if tag == 5 {
            Some(MessageType::ChannelIconChange)
        } else if tag == 6 {
            Some(MessageType::ChannelPinnedMessage)
        } else if tag == 7 {
            Some(MessageType::GuildMemberJoin)
        } else if tag == 8 {
            Some(MessageType::UserPremiumGuildSubscription)
        } else if tag == 9 {
            Some(MessageType::UserPremiumGuildSubscriptionTier1)
        } else if tag == 10 {
            Some(MessageType::UserPremiumGuildSubscriptionTier2)
        } else if tag == 11 {
            Some(MessageType::UserPremiumGuildSubscriptionTier3)
        } else if tag == 12 {
            Some(MessageType::ChannelFollowAdd)
        } else if tag == 14 {
            Some(MessageType::GuildDiscoveryDisqualified)
        } else if tag == 15 {
            Some(MessageType::GuildDiscoveryRequalified)
        } else if tag == 16 {
            Some(MessageType::GuildDiscoveryGracePeriodInitialWarning)
        } else if tag == 17 {
            Some(MessageType::GuildDiscoveryGracePeriodFinalWarning)
        } else if tag == 18 {
            Some(MessageType::ThreadCreated)
        } else if tag == 19 {
            Some(MessageType::Reply)
        } else if tag == 20 {
            Some(MessageType::ChatInputCommand)
        } else if tag == 21 {
            Some(MessageType::ThreadStarterMessage)
        } else if tag == 22 {
            Some(MessageType::GuildInviteReminder)
        } else if tag == 23 {
            Some(MessageType::ContextMenuCommand)
        } else {
            None
        }
    }

    /// The number that stands for the variant on the wire.
    pub fn tag(&self) -> (r: u64)
        ensures
            r == self.spec_tag(),
    {
        match self {
            MessageType::Default => 0,
            MessageType::RecipientAdd => 1,
            MessageType::RecipientRemove => 2,
            MessageType::Call => 3,
            MessageType::ChannelNameChange => 4,
            MessageType::ChannelIconChange => 5,
            MessageType::ChannelPinnedMessage => 6,
            MessageType::GuildMemberJoin => 7,
            MessageType::UserPremiumGuildSubscription => 8,
            MessageType::UserPremiumGuildSubscriptionTier1 => 9,
            MessageType::UserPremiumGuildSubscriptionTier2 => 10,
            MessageType::UserPremiumGuildSubscriptionTier3 => 11,
            MessageType::ChannelFollowAdd => 12,
            MessageType::GuildDiscoveryDisqualified => 14,
            MessageType::GuildDiscoveryRequalified => 15,
            MessageType::GuildDiscoveryGracePeriodInitialWarning => 16,
            MessageType::GuildDiscoveryGracePeriodFinalWarning => 17,
            MessageType::ThreadCreated => 18,
            MessageType::Reply => 19,
            MessageType::ChatInputCommand => 20,
            MessageType::ThreadStarterMessage => 21,
            MessageType::GuildInviteReminder => 22,
            MessageType::ContextMenuCommand => 23,
        }
    }

    /// The variant that `tag` stands for, if any.
    pub fn from_tag(tag: u64) -> (r: Option<MessageType>)
        ensures
            r == Self::spec_from_tag(tag),
    {
        if tag == 0 {
            Some(MessageType::Default)
        } else if tag == 1 {
            Some(MessageType::RecipientAdd)
        } else if tag == 2 {
            Some(MessageType::RecipientRemove)
        } else if tag == 3 {
            Some(MessageType::Call)
        } else if tag == 4 {
            Some(MessageType::ChannelNameChange)
        } else if tag == 5 {
            Some(MessageType::ChannelIconChange)
        } else if tag == 6 {
            Some(MessageType::ChannelPinnedMessage)
        } else if tag == 7 {
            Some(MessageType::GuildMemberJoin)
        } else if tag == 8 {
            Some(MessageType::UserPremiumGuildSubscription)
        } else if tag == 9 {
            Some(MessageType::UserPremiumGuildSubscriptionTier1)
        } else if tag == 10 {
            Some(MessageType::UserPremiumGuildSubscriptionTier2)
        } else if tag == 11 {
            Some(MessageType::UserPremiumGuildSubscriptionTier3)
        } else if tag == 12 {
            Some(MessageType::ChannelFollowAdd)
        } else if tag == 14 {
            Some(MessageType::GuildDiscoveryDisqualified)
        } else if tag == 15 {
            Some(MessageType::GuildDiscoveryRequalified)
        } else if tag == 16 {
            Some(MessageType::GuildDiscoveryGracePeriodInitialWarning)
        } else if tag == 17 {
            Some(MessageType::GuildDiscoveryGracePeriodFinalWarning)
        } else if tag == 18 {
            Some(MessageType::ThreadCreated)
        } else if tag == 19 {
            Some(MessageType::Reply)
        } else if tag == 20 {
            Some(MessageType::ChatInputCommand)
        } else if tag == 21 {
            Some(MessageType::ThreadStarterMessage)
        } else if tag == 22 {
            Some(MessageType::GuildInviteReminder)
        } else if tag == 23 {
            Some(MessageType::ContextMenuCommand)
        } else {
            None
        }
    }

    /// Every variant is found again from its tag.
    pub proof fn lemma_tag_round_trip(self)
        ensures
            Self::spec_from_tag(self.spec_tag()) == Some(self),
    {
    }
}

impl FromJson for MessageType {
    open spec fn decoding(j: JsonView) -> Result<MessageType, DecodeError> {
        match u64::decoding(j) {
            Err(e) => Err(e),
            Ok(tag) => match MessageType::spec_from_tag(tag) {
                Some(v) => Ok(v),
                None => Err(DecodeError::UnknownVariant("MessageType", tag)),
            },
        }
    }

    fn from_json(j: &Json) -> (r: Result<MessageType, DecodeError>) {
        let tag = u64::from_json(j)?;
        match MessageType::from_tag(tag) {
            Some(v) => Ok(v),
            None => Err(DecodeError::UnknownVariant("MessageType", tag)),
        }
    }
}

/// An activity that a message invites to.
#[derive(Debug, Clone, PartialEq, Eq)]
pub struct MessageActivity {
    pub message_activity_type: MessageActivityType,
    pub party_id: Option<String>,
}

/// The model of [`MessageActivity`].
pub struct MessageActivityView {
    pub message_activity_type: MessageActivityType,
    pub party_id: Option<Seq<char>>,
}

impl DeepView for MessageActivity {
    type V = MessageActivityView;

    open spec fn deep_view(&self) -> MessageActivityView {
        MessageActivityView {
            message_activity_type: self.message_activity_type.deep_view(),
            party_id: self.party_id.deep_view(),
        }
    }
}

impl FromJson for MessageActivity {
    open spec fn decoding(j: JsonView) -> Result<MessageActivityView, DecodeError> {
        let message_activity_type = required::<MessageActivityType>(j, "type");
        let party_id = optional::<String>(j, "party_id");
        if object_fault(j) is Some {
            Err(object_fault(j)->0)
        } else if message_activity_type is Err {
            Err(message_activity_type->Err_0)
        } else if party_id is Err {
            Err(party_id->Err_0)
        } else {
            Ok(
                MessageActivityView {
                    message_activity_type: message_activity_type->Ok_0,
                    party_id: party_id->Ok_0,
                },
            )
        }
    }

    fn from_json(j: &Json) -> (r: Result<MessageActivity, DecodeError>) {
        expect_object(j)?;
        let message_activity_type = req::<MessageActivityType>(j, "type")?;
        let party_id = opt::<String>(j, "party_id")?;
        Ok(MessageActivity { message_activity_type, party_id })
    }
}

/// The kind of an activity.
#[derive(Debug, Clone, Copy, PartialEq, Eq, Structural)]
pub enum MessageActivityType {
    Join,
    Spectate,
    Listen,
    JoinRequest,
}

impl DeepView for MessageActivityType {
    type V = MessageActivityType;

    open spec fn deep_view(&self) -> MessageActivityType {
        *self
    }
}

impl MessageActivityType {
    /// The number that stands for the variant on the wire.
    pub open spec fn spec_tag(self) -> u64 {
        match self {
            MessageActivityType::Join => 1,
            MessageActivityType::Spectate => 2,
            MessageActivityType::Listen => 3,
            MessageActivityType::JoinRequest => 5,
        }
    }

    /// The variant that `tag` stands for, if any.
    pub open spec fn spec_from_tag(tag: u64) -> Option<MessageActivityType> {
        if tag == 1 {
            Some(MessageActivityType::Join)
        } else if tag == 2 {
            Some(MessageActivityType::Spectate)
        } else if tag == 3 {
            Some(MessageActivityType::Listen)
        } else if tag == 5 {
            Some(MessageActivityType::JoinRequest)
        } else {
            None
        }
    }

    /// The number that stands for the variant on the wire.
    pub fn tag(&self) -> (r: u64)
        ensures
            r == self.spec_tag(),
    {
        match self {
            MessageActivityType::Join => 1,
            MessageActivityType::Spectate => 2,
            MessageActivityType::Listen => 3,
            MessageActivityType::JoinRequest => 5,
        }
    }

    /// The variant that `tag` stands for, if any.
    pub fn from_tag(tag: u64) -> (r: Option<MessageActivityType>)
        ensures
            r == Self::spec_from_tag(tag),
    {
        if tag == 1 {
            Some(MessageActivityType::Join)
        } else if tag == 2 {
            Some(MessageActivityType::Spectate)
        } else if tag == 3 {
            Some(MessageActivityType::Listen)
        } else if tag == 5 {
            Some(MessageActivityType::JoinRequest)
        } else {
            None
        }
    }

    /// Every variant is found again from its tag.
    pub proof fn lemma_tag_round_trip(self)
        ensures
            Self::spec_from_tag(self.spec_tag()) == Some(self),
    {
    }
}

impl FromJson for MessageActivityType {
    open spec fn decoding(j: JsonView) -> Result<MessageActivityType, DecodeError> {
        match u64::decoding(j) {
            Err(e) => Err(e),
            Ok(tag) => match MessageActivityType::spec_from_tag(tag) {
                Some(v) => Ok(v),
                None => Err(DecodeError::UnknownVariant("MessageActivityType", tag)),
            },
        }
    }

    fn from_json(j: &Json) -> (r: Result<MessageActivityType, DecodeError>) {
        let tag = u64::from_json(j)?;
        match MessageActivityType::from_tag(tag) {
            Some(v) => Ok(v),
            None => Err(DecodeError::UnknownVariant("MessageActivityType", tag)),
        }
    }
}

/// The message that a reply or a crosspost points to.
#[derive(Debug, Clone, PartialEq, Eq)]
pub struct MessageReference {
    pub message_id: Option<Snowflake>,
    pub channel_id: Option<Snowflake>,
    pub guild_id: Option<Snowflake>,
    pub fail_if_not_exists: Option<bool>,
}

/// The model of [`MessageReference`].
pub struct MessageReferenceView {
    pub message_id: Option<u64>,
    pub channel_id: Option<u64>,
    pub guild_id: Option<u64>,
    pub fail_if_not_exists: Option<bool>,
}

impl DeepView for MessageReference {
    type V = MessageReferenceView;

    open spec fn deep_view(&self) -> MessageReferenceView {
        MessageReferenceView {
            message_id: self.message_id.deep_view(),
            channel_id: self.channel_id.deep_view(),
            guild_id: self.guild_id.deep_view(),
            fail_if_not_exists: self.fail_if_not_exists.deep_view(),
        }
    }
}

impl FromJson for MessageReference {
    open spec fn decoding(j: JsonView) -> Result<MessageReferenceView, DecodeError> {
        let message_id = optional::<Snowflake>(j, "message_id");
        let channel_id = optional::<Snowflake>(j, "channel_id");
        let guild_id = optional::<Snowflake>(j, "guild_id");
        let fail_if_not_exists = optional::<bool>(j, "fail_if_not_exists");
        if object_fault(j) is Some {
            Err(object_fault(j)->0)
        } else if message_id is Err {
            Err(message_id->Err_0)
        } else if channel_id is Err {
            Err(channel_id->Err_0)
        } else if guild_id is Err {
            Err(guild_id->Err_0)
        } else if fail_if_not_exists is Err {
            Err(fail_if_not_exists->Err_0)
        } else {
            Ok(
                MessageReferenceView {
                    message_id: message_id->Ok_0,
                    channel_id: channel_id->Ok_0,
                    guild_id: guild_id->Ok_0,
                    fail_if_not_exists: fail_if_not_exists->Ok_0,
                },
            )
        }
    }

    fn from_json(j: &Json) -> (r: Result<MessageReference, DecodeError>) {
        expect_object(j)?;
        let message_id = opt::<Snowflake>(j, "message_id")?;
        let channel_id = opt::<Snowflake>(j, "channel_id")?;
        let guild_id = opt::<Snowflake>(j, "guild_id")?;
        let fail_if_not_exists = opt::<bool>(j, "fail_if_not_exists")?;
        Ok(MessageReference { message_id, channel_id, guild_id, fail_if_not_exists })
    }
}

/// Whom a message may notify.
#[derive(Debug, Clone, PartialEq, Eq)]
pub struct AllowedMentions {
    pub parse: Vec<String>,
    pub roles: Vec<Snowflake>,
    pub users: Vec<Snowflake>,
    pub replied_user: bool,
}

/// The model of [`AllowedMentions`].
pub struct AllowedMentionsView {
    pub parse: Seq<Seq<char>>,
    pub roles: Seq<u64>,
    pub users: Seq<u64>,
    pub replied_user: bool,
}

impl DeepView for AllowedMentions {
    type V = AllowedMentionsView;

    open spec fn deep_view(&self) -> AllowedMentionsView {
        AllowedMentionsView {
            parse: self.parse.deep_view(),
            roles: self.roles.deep_view(),
            users: self.users.deep_view(),
            replied_user: self.replied_user.deep_view(),
        }
    }
}

impl ToJson for AllowedMentions {
    open spec fn encoding(m: AllowedMentionsView) -> JsonView {
        JsonView::Object(
            Seq::empty()
                + field::<Vec<String>>("parse", m.parse)
                + field::<Vec<Snowflake>>("roles", m.roles)
                + field::<Vec<Snowflake>>("users", m.users)
                + field::<bool>("replied_user", m.replied_user),
        )
    }

    fn to_json(&self) -> (j: Json) {
        let mut members = no_members();
        put(&mut members, "parse", &self.parse);
        put(&mut members, "roles", &self.roles);
        put(&mut members, "users", &self.users);
        put(&mut members, "replied_user", &self.replied_user);
        object(members)
    }
}

impl AllowedMentionsView {
    /// The models whose trees hold no `null`.
    pub open spec fn faithful(self) -> bool {
        let m = self;
        true
    }

    /// The tree of a record holds under each key the tree of the field,
    /// has no member for a field that is not set, and holds no `null`.
    pub proof fn lemma_members(self)
        requires
            self.faithful(),
        ensures
            AllowedMentions::encoding(self).get("parse"@) == Some(Vec::<String>::encoding(
                self.parse,
            )),
            AllowedMentions::encoding(self).get("roles"@) == Some(Vec::<Snowflake>::encoding(
                self.roles,
            )),
            AllowedMentions::encoding(self).get("users"@) == Some(Vec::<Snowflake>::encoding(
                self.users,
            )),
            AllowedMentions::encoding(self).get("replied_user"@) == Some(bool::encoding(
                self.replied_user,
            )),
            null_free(AllowedMentions::encoding(self)),
    {
        let m = self;
        // No two keys are the same.
        reveal_strlit("parse");
        reveal_strlit("roles");
        reveal_strlit("users");
        reveal_strlit("replied_user");
        assert("parse"@.len() == 5 && "parse"@[0] == 'p');
        assert("roles"@.len() == 5 && "roles"@[0] == 'r');
        assert("users"@.len() == 5 && "users"@[0] == 'u');
        assert("replied_user"@.len() == 12);
        // What the object holds, member by member.
        let s0: Members = Seq::empty();
        Vec::<String>::lemma_round_trip(m.parse);
        lemma_field::<Vec<String>>("parse", m.parse);
        let s1 = s0 + field::<Vec<String>>("parse", m.parse);
        lemma_concat(s0, field::<Vec<String>>("parse", m.parse));
        Vec::<Snowflake>::lemma_round_trip(m.roles);
        lemma_field::<Vec<Snowflake>>("roles", m.roles);
        let s2 = s1 + field::<Vec<Snowflake>>("roles", m.roles);
        lemma_concat(s1, field::<Vec<Snowflake>>("roles", m.roles));
        Vec::<Snowflake>::lemma_round_trip(m.users);
        lemma_field::<Vec<Snowflake>>("users", m.users);
        let s3 = s2 + field::<Vec<Snowflake>>("users", m.users);
        lemma_concat(s2, field::<Vec<Snowflake>>("users", m.users));
        bool::lemma_round_trip(m.replied_user);
        lemma_field::<bool>("replied_user", m.replied_user);
        let s4 = s3 + field::<bool>("replied_user", m.replied_user);
        lemma_concat(s3, field::<bool>("replied_user", m.replied_user));
        lemma_object(s4);
    }
}

} // verus!
