//! Interactions: what a user did, as the platform reports it.

use crate::application_command::ApplicationCommand;
use crate::channel::{Channel, ChannelView, Message, MessageView};
use crate::component::{ComponentType, SelectOption, SelectOptionView};
use crate::decode::{
    agrees, collect, DecodeError, defaulted, expect_object, FromJson, lemma_collect_step, list,
    object_fault, opt, optional, req, required,
};
use crate::encode::object;
use crate::guild::{GuildMember, GuildMemberView};
use crate::json::{items_view, Json, JsonNumber, JsonView, lemma_json_view, member};
use crate::maps::Resolved;
use crate::permission::{Role, RoleView};
use crate::snowflake::{Snowflake, snowflake_value};
use crate::text::{integer_text, push_integer, push_quoted, quoted};
use crate::user::{User, UserView};
use vstd::prelude::*;
use vstd::string::*;
use vstd::utf8::encode_utf8;

verus! {

/// What a user did, as the platform reports it to the application.
#[derive(Debug, PartialEq, Eq)]
pub struct Interaction {
    pub id: Snowflake,
    pub application_id: Snowflake,
    pub interaction_type: InteractionType,
    pub data: Option<InteractionData>,
    pub guild_id: Option<Snowflake>,
    pub channel_id: Option<Snowflake>,
    pub member: Option<GuildMember>,
    pub user: Option<User>,
    pub token: String,
    pub version: u64,
    pub message: Option<Message>,
    pub app_permissions: Option<String>,
    pub locale: Option<String>,
    pub guild_locale: Option<String>,
}

/// The model of [`Interaction`].
pub struct InteractionView {
    pub id: u64,
    pub application_id: u64,
    pub interaction_type: InteractionType,
    pub data: Option<InteractionDataView>,
    pub guild_id: Option<u64>,
    pub channel_id: Option<u64>,
    pub member: Option<GuildMemberView>,
    pub user: Option<UserView>,
    pub token: Seq<char>,
    pub version: u64,
    pub message: Option<MessageView>,
    pub app_permissions: Option<Seq<char>>,
    pub locale: Option<Seq<char>>,
    pub guild_locale: Option<Seq<char>>,
}

impl DeepView for Interaction {
    type V = InteractionView;

    open spec fn deep_view(&self) -> InteractionView {
        InteractionView {
            id: self.id.deep_view(),
            application_id: self.application_id.deep_view(),
            interaction_type: self.interaction_type.deep_view(),
            data: self.data.deep_view(),
            guild_id: self.guild_id.deep_view(),
            channel_id: self.channel_id.deep_view(),
            member: self.member.deep_view(),
            user: self.user.deep_view(),
            token: self.token.deep_view(),
            version: self.version.deep_view(),
            message: self.message.deep_view(),
            app_permissions: self.app_permissions.deep_view(),
            locale: self.locale.deep_view(),
            guild_locale: self.guild_locale.deep_view(),
        }
    }
}

impl FromJson for Interaction {
    open spec fn decoding(j: JsonView) -> Result<InteractionView, DecodeError> {
        let id = required::<Snowflake>(j, "id");
        let application_id = required::<Snowflake>(j, "application_id");
        let interaction_type = required::<InteractionType>(j, "type");
        let data = optional::<InteractionData>(j, "data");
        let guild_id = optional::<Snowflake>(j, "guild_id");
        let channel_id = optional::<Snowflake>(j, "channel_id");
        let member = optional::<GuildMember>(j, "member");
        let user = optional::<User>(j, "user");
        let token = required::<String>(j, "token");
        let version = required::<u64>(j, "version");
        let message = optional::<Message>(j, "message");
        let app_permissions = optional::<String>(j, "app_permissions");
        let locale = optional::<String>(j, "locale");
        let guild_locale = optional::<String>(j, "guild_locale");
        if object_fault(j) is Some {
            Err(object_fault(j)->0)
        } else if id is Err {
            Err(id->Err_0)
        } else if application_id is Err {
            Err(application_id->Err_0)
        } else if interaction_type is Err {
            Err(interaction_type->Err_0)
        } else if data is Err {
            Err(data->Err_0)
        } else if guild_id is Err {
            Err(guild_id->Err_0)
        } else if channel_id is Err {
            Err(channel_id->Err_0)
        } else if member is Err {
            Err(member->Err_0)
        } else if user is Err {
            Err(user->Err_0)
        } else if token is Err {
            Err(token->Err_0)
        } else if version is Err {
            Err(version->Err_0)
        } else if message is Err {
            Err(message->Err_0)
        } else if app_permissions is Err {
            Err(app_permissions->Err_0)
        } else if locale is Err {
            Err(locale->Err_0)
        } else if guild_locale is Err {
            Err(guild_locale->Err_0)
        } else {
            Ok(
                InteractionView {
                    id: id->Ok_0,
                    application_id: application_id->Ok_0,
                    interaction_type: interaction_type->Ok_0,
                    data: data->Ok_0,
                    guild_id: guild_id->Ok_0,
                    channel_id: channel_id->Ok_0,
                    member: member->Ok_0,
                    user: user->Ok_0,
                    token: token->Ok_0,
                    version: version->Ok_0,
                    message: message->Ok_0,
                    app_permissions: app_permissions->Ok_0,
                    locale: locale->Ok_0,
                    guild_locale: guild_locale->Ok_0,
                },
            )
        }
    }

    fn from_json(j: &Json) -> (r: Result<Interaction, DecodeError>) {
        expect_object(j)?;
        let id = req::<Snowflake>(j, "id")?;
        let application_id = req::<Snowflake>(j, "application_id")?;
        let interaction_type = req::<InteractionType>(j, "type")?;
        let data = opt::<InteractionData>(j, "data")?;
        let guild_id = opt::<Snowflake>(j, "guild_id")?;
        let channel_id = opt::<Snowflake>(j, "channel_id")?;
        let member = opt::<GuildMember>(j, "member")?;
        let user = opt::<User>(j, "user")?;
        let token = req::<String>(j, "token")?;
        let version = req::<u64>(j, "version")?;
        let message = opt::<Message>(j, "message")?;
        let app_permissions = opt::<String>(j, "app_permissions")?;
        let locale = opt::<String>(j, "locale")?;
        let guild_locale = opt::<String>(j, "guild_locale")?;
        Ok(
            Interaction {
                id,
                application_id,
                interaction_type,
                data,
                guild_id,
                channel_id,
                member,
                user,
                token,
                version,
                message,
                app_permissions,
                locale,
                guild_locale,
            },
        )
    }
}

/// The kind of an interaction.
#[derive(Debug, Clone, Copy, PartialEq, Eq, Structural)]
pub enum InteractionType {
    Ping,
    ApplicationCommand,
    MessageComponent,
    ApplicationCommandAutocomplete,
    ModalSubmit,
}

impl DeepView for InteractionType {
    type V = InteractionType;

    open spec fn deep_view(&self) -> InteractionType {
        *self
    }
}

impl InteractionType {
    /// The number that stands for the variant on the wire.
    pub open spec fn spec_tag(self) -> u64 {
        match self {
            InteractionType::Ping => 1,
            InteractionType::ApplicationCommand => 2,
            InteractionType::MessageComponent => 3,
            InteractionType::ApplicationCommandAutocomplete => 4,
            InteractionType::ModalSubmit => 5,
        }
    }

    /// The variant that `tag` stands for, if any.
    pub open spec fn spec_from_tag(tag: u64) -> Option<InteractionType> {
        if tag == 1 {
            Some(InteractionType::Ping)
        } else if tag == 2 {
            Some(InteractionType::ApplicationCommand)
        } else if tag == 3 {
            Some(InteractionType::MessageComponent)
        } else if tag == 4 {
            Some(InteractionType::ApplicationCommandAutocomplete)
        } else if tag == 5 {
            Some(InteractionType::ModalSubmit)
        } else {
            None
        }
    }

    /// The number that stands for the variant on the wire.
    pub fn tag(&self) -> (r: u64)
        ensures
            r == self.spec_tag(),
    {
        match self {
            InteractionType::Ping => 1,
            InteractionType::ApplicationCommand => 2,
            InteractionType::MessageComponent => 3,
            InteractionType::ApplicationCommandAutocomplete => 4,
            InteractionType::ModalSubmit => 5,
        }
    }

    /// The variant that `tag` stands for, if any.
    pub fn from_tag(tag: u64) -> (r: Option<InteractionType>)
        ensures
            r == Self::spec_from_tag(tag),
    {
        if tag == 1 {
            Some(InteractionType::Ping)
        } else if tag == 2 {
            Some(InteractionType::ApplicationCommand)
        } else if tag == 3 {
            Some(InteractionType::MessageComponent)
        } else if tag == 4 {
            Some(InteractionType::ApplicationCommandAutocomplete)
        } else if tag == 5 {
            Some(InteractionType::ModalSubmit)
        } else {
            None
        }
    }

    /// Every variant is found again from its tag.
    pub proof fn lemma_tag_round_trip(self)
        ensures
            Self::spec_from_tag(self.spec_tag()) == Some(self),
    {
    }
}

impl FromJson for InteractionType {
    open spec fn decoding(j: JsonView) -> Result<InteractionType, DecodeError> {
        match u64::decoding(j) {
            Err(e) => Err(e),
            Ok(tag) => match InteractionType::spec_from_tag(tag) {
                Some(v) => Ok(v),
                None => Err(DecodeError::UnknownVariant("InteractionType", tag)),
            },
        }
    }

    fn from_json(j: &Json) -> (r: Result<InteractionType, DecodeError>) {
        let tag = u64::from_json(j)?;
        match InteractionType::from_tag(tag) {
            Some(v) => Ok(v),
            None => Err(DecodeError::UnknownVariant("InteractionType", tag)),
        }
    }
}

/// What an interaction carries: for a command its name and options, for a part
/// of a message its custom id and the values chosen.
#[derive(Debug, PartialEq, Eq)]
pub struct InteractionData {
    pub id: Option<Snowflake>,
    pub name: Option<String>,
    pub data_type: Option<ApplicationCommandType>,
    pub resolved: Option<ResolvedData>,
    pub options: Vec<ApplicationCommandInteractionDataOption>,
    pub custom_id: Option<String>,
    pub component_type: Option<ComponentType>,
    pub values: Vec<SelectOption>,
    pub target_id: Option<Snowflake>,
}

/// The model of [`InteractionData`].
pub struct InteractionDataView {
    pub id: Option<u64>,
    pub name: Option<Seq<char>>,
    pub data_type: Option<ApplicationCommandType>,
    pub resolved: Option<ResolvedDataView>,
    pub options: Seq<ApplicationCommandInteractionDataOptionView>,
    pub custom_id: Option<Seq<char>>,
    pub component_type: Option<ComponentType>,
    pub values: Seq<SelectOptionView>,
    pub target_id: Option<u64>,
}

impl DeepView for InteractionData {
    type V = InteractionDataView;

    open spec fn deep_view(&self) -> InteractionDataView {
        InteractionDataView {
            id: self.id.deep_view(),
            name: self.name.deep_view(),
            data_type: self.data_type.deep_view(),
            resolved: self.resolved.deep_view(),
            options: self.options.deep_view(),
            custom_id: self.custom_id.deep_view(),
            component_type: self.component_type.deep_view(),
            values: self.values.deep_view(),
            target_id: self.target_id.deep_view(),
        }
    }
}

impl FromJson for InteractionData {
    open spec fn decoding(j: JsonView) -> Result<InteractionDataView, DecodeError> {
        let id = optional::<Snowflake>(j, "id");
        let name = optional::<String>(j, "name");
        let data_type = optional::<ApplicationCommandType>(j, "type");
        let resolved = optional::<ResolvedData>(j, "resolved");
        let options = defaulted::<ApplicationCommandInteractionDataOption>(j, "options");
        let custom_id = optional::<String>(j, "custom_id");
        let component_type = optional::<ComponentType>(j, "component_type");
        let values = defaulted::<SelectOption>(j, "values");
        let target_id = optional::<Snowflake>(j, "target_id");
        if object_fault(j) is Some {
            Err(object_fault(j)->0)
        } else if id is Err {
            Err(id->Err_0)
        } else if name is Err {
            Err(name->Err_0)
        } else if data_type is Err {
            Err(data_type->Err_0)
        } else if resolved is Err {
            Err(resolved->Err_0)
        } else if options is Err {
            Err(options->Err_0)
        } else if custom_id is Err {
            Err(custom_id->Err_0)
        } else if component_type is Err {
            Err(component_type->Err_0)
        } else if values is Err {
            Err(values->Err_0)
        } else if target_id is Err {
            Err(target_id->Err_0)
        } else {
            Ok(
                InteractionDataView {
                    id: id->Ok_0,
                    name: name->Ok_0,
                    data_type: data_type->Ok_0,
                    resolved: resolved->Ok_0,
                    options: options->Ok_0,
                    custom_id: custom_id->Ok_0,
                    component_type: component_type->Ok_0,
                    values: values->Ok_0,
                    target_id: target_id->Ok_0,
                },
            )
        }
    }

    fn from_json(j: &Json) -> (r: Result<InteractionData, DecodeError>) {
        expect_object(j)?;
        let id = opt::<Snowflake>(j, "id")?;
        let name = opt::<String>(j, "name")?;
        let data_type = opt::<ApplicationCommandType>(j, "type")?;
        let resolved = opt::<ResolvedData>(j, "resolved")?;
        let options = list::<ApplicationCommandInteractionDataOption>(j, "options")?;
        let custom_id = opt::<String>(j, "custom_id")?;
        let component_type = opt::<ComponentType>(j, "component_type")?;
        let values = list::<SelectOption>(j, "values")?;
        let target_id = opt::<Snowflake>(j, "target_id")?;
        Ok(
            InteractionData {
                id,
                name,
                data_type,
                resolved,
                options,
                custom_id,
                component_type,
                values,
                target_id,
            },
        )
    }
}

/// How the command behind an interaction was invoked.
#[derive(Debug, Clone, Copy, PartialEq, Eq, Structural)]
pub enum ApplicationCommandType {
    ChatInput,
    User,
    Message,
}

impl DeepView for ApplicationCommandType {
    type V = ApplicationCommandType;

    open spec fn deep_view(&self) -> ApplicationCommandType {
        *self
    }
}

impl ApplicationCommandType {
    /// The number that stands for the variant on the wire.
    pub open spec fn spec_tag(self) -> u64 {
        match self {
            ApplicationCommandType::ChatInput => 1,
            ApplicationCommandType::User => 2,
            ApplicationCommandType::Message => 3,
        }
    }

    /// The variant that `tag` stands for, if any.
    pub open spec fn spec_from_tag(tag: u64) -> Option<ApplicationCommandType> {
        if tag == 1 {
            Some(ApplicationCommandType::ChatInput)
        } else if tag == 2 {
            Some(ApplicationCommandType::User)
        } else if tag == 3 {
            Some(ApplicationCommandType::Message)
        } else {
            None
        }
    }

    /// The number that stands for the variant on the wire.
    pub fn tag(&self) -> (r: u64)
        ensures
            r == self.spec_tag(),
    {
        match self {
            ApplicationCommandType::ChatInput => 1,
            ApplicationCommandType::User => 2,
            ApplicationCommandType::Message => 3,
        }
    }

    /// The variant that `tag` stands for, if any.
    pub fn from_tag(tag: u64) -> (r: Option<ApplicationCommandType>)
        ensures
            r == Self::spec_from_tag(tag),
    {
        if tag == 1 {
            Some(ApplicationCommandType::ChatInput)
        } else if tag == 2 {
            Some(ApplicationCommandType::User)
        } else if tag == 3 {
            Some(ApplicationCommandType::Message)
        } else {
            None
        }
    }

    /// Every variant is found again from its tag.
    pub proof fn lemma_tag_round_trip(self)
        ensures
            Self::spec_from_tag(self.spec_tag()) == Some(self),
    {
    }
}

impl FromJson for ApplicationCommandType {
    open spec fn decoding(j: JsonView) -> Result<ApplicationCommandType, DecodeError> {
        match u64::decoding(j) {
            Err(e) => Err(e),
            Ok(tag) => match ApplicationCommandType::spec_from_tag(tag) {
                Some(v) => Ok(v),
                None => Err(DecodeError::UnknownVariant("ApplicationCommandType", tag)),
            },
        }
    }

    fn from_json(j: &Json) -> (r: Result<ApplicationCommandType, DecodeError>) {
        let tag = u64::from_json(j)?;
        match ApplicationCommandType::from_tag(tag) {
            Some(v) => Ok(v),
            None => Err(DecodeError::UnknownVariant("ApplicationCommandType", tag)),
        }
    }
}

/// The records that the options of a command refer to by identifier.
#[derive(Debug, PartialEq, Eq)]
pub struct ResolvedData {
    pub users: Option<Resolved<User>>,
    pub members: Option<Resolved<GuildMember>>,
    pub roles: Option<Resolved<Role>>,
    pub channels: Option<Resolved<Channel>>,
    pub messages: Option<Resolved<Message>>,
}

/// The model of [`ResolvedData`].
pub struct ResolvedDataView {
    pub users: Option<Seq<(u64, UserView)>>,
    pub members: Option<Seq<(u64, GuildMemberView)>>,
    pub roles: Option<Seq<(u64, RoleView)>>,
    pub channels: Option<Seq<(u64, ChannelView)>>,
    pub messages: Option<Seq<(u64, MessageView)>>,
}

impl DeepView for ResolvedData {
    type V = ResolvedDataView;

    open spec fn deep_view(&self) -> ResolvedDataView {
        ResolvedDataView {
            users: self.users.deep_view(),
            members: self.members.deep_view(),
            roles: self.roles.deep_view(),
            channels: self.channels.deep_view(),
            messages: self.messages.deep_view(),
        }
    }
}

impl FromJson for ResolvedData {
    open spec fn decoding(j: JsonView) -> Result<ResolvedDataView, DecodeError> {
        let users = optional::<Resolved<User>>(j, "users");
        let members = optional::<Resolved<GuildMember>>(j, "members");
        let roles = optional::<Resolved<Role>>(j, "roles");
        let channels = optional::<Resolved<Channel>>(j, "channels");
        let messages = optional::<Resolved<Message>>(j, "messages");
        if object_fault(j) is Some {
            Err(object_fault(j)->0)
        } else if users is Err {
            Err(users->Err_0)
        } else if members is Err {
            Err(members->Err_0)
        } else if roles is Err {
            Err(roles->Err_0)
        } else if channels is Err {
            Err(channels->Err_0)
        } else if messages is Err {
            Err(messages->Err_0)
        } else {
            Ok(
                ResolvedDataView {
                    users: users->Ok_0,
                    members: members->Ok_0,
                    roles: roles->Ok_0,
                    channels: channels->Ok_0,
                    messages: messages->Ok_0,
                },
            )
        }
    }

    fn from_json(j: &Json) -> (r: Result<ResolvedData, DecodeError>) {
        expect_object(j)?;
        let users = opt::<Resolved<User>>(j, "users")?;
        let members = opt::<Resolved<GuildMember>>(j, "members")?;
        let roles = opt::<Resolved<Role>>(j, "roles")?;
        let channels = opt::<Resolved<Channel>>(j, "channels")?;
        let messages = opt::<Resolved<Message>>(j, "messages")?;
        Ok(
            ResolvedData {
                users,
                members,
                roles,
                channels,
                messages,
            },
        )
    }
}

/// What a message says of the interaction it answers.
#[derive(Debug, Clone, PartialEq, Eq)]
pub struct MessageInteraction {
    pub id: Snowflake,
    pub message_interaction_type: InteractionType,
    pub name: String,
    pub user: User,
}

/// The model of [`MessageInteraction`].
pub struct MessageInteractionView {
    pub id: u64,
    pub message_interaction_type: InteractionType,
    pub name: Seq<char>,
    pub user: UserView,
}

impl DeepView for MessageInteraction {
    type V = MessageInteractionView;

    open spec fn deep_view(&self) -> MessageInteractionView {
        MessageInteractionView {
            id: self.id.deep_view(),
            message_interaction_type: self.message_interaction_type.deep_view(),
            name: self.name.deep_view(),
            user: self.user.deep_view(),
        }
    }
}

impl FromJson for MessageInteraction {
    open spec fn decoding(j: JsonView) -> Result<MessageInteractionView, DecodeError> {
        let id = required::<Snowflake>(j, "id");
        let message_interaction_type = required::<InteractionType>(j, "type");
        let name = required::<String>(j, "name");
        let user = required::<User>(j, "user");
        if object_fault(j) is Some {
            Err(object_fault(j)->0)
        } else if id is Err {
            Err(id->Err_0)
        } else if message_interaction_type is Err {
            Err(message_interaction_type->Err_0)
        } else if name is Err {
            Err(name->Err_0)
        } else if user is Err {
            Err(user->Err_0)
        } else {
            Ok(
                MessageInteractionView {
                    id: id->Ok_0,
                    message_interaction_type: message_interaction_type->Ok_0,
                    name: name->Ok_0,
                    user: user->Ok_0,
                },
            )
        }
    }

    fn from_json(j: &Json) -> (r: Result<MessageInteraction, DecodeError>) {
        expect_object(j)?;
        let id = req::<Snowflake>(j, "id")?;
        let message_interaction_type = req::<InteractionType>(j, "type")?;
        let name = req::<String>(j, "name")?;
        let user = req::<User>(j, "user")?;
        Ok(MessageInteraction { id, message_interaction_type, name, user })
    }
}

/// An option of a command as a user filled it in. The number under `type`
/// decides the variant; a sub-command holds the options given to it.
#[derive(Debug, PartialEq, Eq)]
#[allow(inconsistent_fields)]
pub enum ApplicationCommandInteractionDataOption {
    SubCommand { name: String, options: Vec<ApplicationCommandInteractionDataOption> },
    SubCommandGroup { name: String, options: Vec<ApplicationCommandInteractionDataOption> },
    String { name: String, value: Option<String> },
    Integer { name: String, value: Option<i64> },
    Boolean { name: String, value: Option<bool> },
    User { name: String, value: Option<Snowflake> },
    Channel(Box<ChannelVariant>),
    Role { name: String, value: Option<String> },
    Number { name: String, value: Option<JsonNumber> },
}

/// An option that names a channel.
#[derive(Debug, PartialEq, Eq)]
pub struct ChannelVariant {
    pub name: String,
    pub value: Option<Channel>,
    pub options: Vec<ApplicationCommandInteractionDataOption>,
}

/// The model of [`ApplicationCommandInteractionDataOption`].
#[allow(inconsistent_fields)]
pub enum ApplicationCommandInteractionDataOptionView {
    SubCommand { name: Seq<char>, options: Seq<ApplicationCommandInteractionDataOptionView> },
    SubCommandGroup { name: Seq<char>, options: Seq<ApplicationCommandInteractionDataOptionView> },
    String { name: Seq<char>, value: Option<Seq<char>> },
    Integer { name: Seq<char>, value: Option<i64> },
    Boolean { name: Seq<char>, value: Option<bool> },
    User { name: Seq<char>, value: Option<u64> },
    Channel(Box<ChannelVariantView>),
    Role { name: Seq<char>, value: Option<Seq<char>> },
    Number { name: Seq<char>, value: Option<JsonNumber> },
}

/// The model of [`ChannelVariant`].
pub struct ChannelVariantView {
    pub name: Seq<char>,
    pub value: Option<ChannelView>,
    pub options: Seq<ApplicationCommandInteractionDataOptionView>,
}

/// The model of `x`.
pub open spec fn data_option_view(
    x: ApplicationCommandInteractionDataOption,
) -> ApplicationCommandInteractionDataOptionView
    decreases x,
{
    match x {
        ApplicationCommandInteractionDataOption::SubCommand { name, options } => {
            ApplicationCommandInteractionDataOptionView::SubCommand {
                name: name@,
                options: Seq::new(
                    options@.len(),
                    |i: int|
                        if 0 <= i < options@.len() {
                            data_option_view(options@[i])
                        } else {
                            arbitrary()
                        },
                ),
            }
        },
        ApplicationCommandInteractionDataOption::SubCommandGroup { name, options } => {
            ApplicationCommandInteractionDataOptionView::SubCommandGroup {
                name: name@,
                options: Seq::new(
                    options@.len(),
                    |i: int|
                        if 0 <= i < options@.len() {
                            data_option_view(options@[i])
                        } else {
                            arbitrary()
                        },
                ),
            }
        },
        ApplicationCommandInteractionDataOption::String { name, value } => {
            ApplicationCommandInteractionDataOptionView::String {
                name: name@,
                value: value.deep_view(),
            }
        },
        ApplicationCommandInteractionDataOption::Integer { name, value } => {
            ApplicationCommandInteractionDataOptionView::Integer { name: name@, value }
        },
        ApplicationCommandInteractionDataOption::Boolean { name, value } => {
            ApplicationCommandInteractionDataOptionView::Boolean { name: name@, value }
        },
        ApplicationCommandInteractionDataOption::User { name, value } => {
            ApplicationCommandInteractionDataOptionView::User {
                name: name@,
                value: value.deep_view(),
            }
        },
        ApplicationCommandInteractionDataOption::Channel(variant) => {
            ApplicationCommandInteractionDataOptionView::Channel(
                Box::new(
                    ChannelVariantView {
                        name: variant.name@,
                        value: variant.value.deep_view(),
                        options: Seq::new(
                            variant.options@.len(),
                            |i: int|
                                if 0 <= i < variant.options@.len() {
                                    data_option_view(variant.options@[i])
                                } else {
                                    arbitrary()
                                },
                        ),
                    },
                ),
            )
        },
        ApplicationCommandInteractionDataOption::Role { name, value } => {
            ApplicationCommandInteractionDataOptionView::Role {
                name: name@,
                value: value.deep_view(),
            }
        },
        ApplicationCommandInteractionDataOption::Number { name, value } => {
            ApplicationCommandInteractionDataOptionView::Number { name: name@, value }
        },
    }
}

impl DeepView for ApplicationCommandInteractionDataOption {
    type V = ApplicationCommandInteractionDataOptionView;

    open spec fn deep_view(&self) -> ApplicationCommandInteractionDataOptionView {
        data_option_view(*self)
    }
}

impl DeepView for ChannelVariant {
    type V = ChannelVariantView;

    open spec fn deep_view(&self) -> ChannelVariantView {
        ChannelVariantView {
            name: self.name@,
            value: self.value.deep_view(),
            options: self.options.deep_view(),
        }
    }
}

impl ApplicationCommandInteractionDataOptionView {
    /// The option's name.
    pub open spec fn name(self) -> Seq<char> {
        match self {
            ApplicationCommandInteractionDataOptionView::SubCommand { name, .. } => name,
            ApplicationCommandInteractionDataOptionView::SubCommandGroup { name, .. } => name,
            ApplicationCommandInteractionDataOptionView::String { name, .. } => name,
            ApplicationCommandInteractionDataOptionView::Integer { name, .. } => name,
            ApplicationCommandInteractionDataOptionView::Boolean { name, .. } => name,
            ApplicationCommandInteractionDataOptionView::User { name, .. } => name,
            ApplicationCommandInteractionDataOptionView::Channel(variant) => variant.name,
            ApplicationCommandInteractionDataOptionView::Role { name, .. } => name,
            ApplicationCommandInteractionDataOptionView::Number { name, .. } => name,
        }
    }

    /// The options nested directly under this one; none for a leaf.
    pub open spec fn children(self) -> Seq<ApplicationCommandInteractionDataOptionView> {
        match self {
            ApplicationCommandInteractionDataOptionView::SubCommand { options, .. } => options,
            ApplicationCommandInteractionDataOptionView::SubCommandGroup { options, .. } => options,
            ApplicationCommandInteractionDataOptionView::Channel(variant) => variant.options,
            _ => Seq::empty(),
        }
    }

    /// The number under `type` that stands for the option's variant.
    pub open spec fn tag(self) -> u64 {
        match self {
            ApplicationCommandInteractionDataOptionView::SubCommand { .. } => 1,
            ApplicationCommandInteractionDataOptionView::SubCommandGroup { .. } => 2,
            ApplicationCommandInteractionDataOptionView::String { .. } => 3,
            ApplicationCommandInteractionDataOptionView::Integer { .. } => 4,
            ApplicationCommandInteractionDataOptionView::Boolean { .. } => 5,
            ApplicationCommandInteractionDataOptionView::User { .. } => 6,
            ApplicationCommandInteractionDataOptionView::Channel(_) => 7,
            ApplicationCommandInteractionDataOptionView::Role { .. } => 8,
            ApplicationCommandInteractionDataOptionView::Number { .. } => 10,
        }
    }
}

/// An optional value as `{:?}` prints it, given the text of what it holds.
pub open spec fn option_text(inner: Option<Seq<char>>) -> Seq<char> {
    match inner {
        Some(text) => "Some("@ + text + ")"@,
        None => "None"@,
    }
}

impl ApplicationCommandInteractionDataOptionView {
    /// Whether the option is a text, a whole number or a truth value: the
    /// variants that have a short text form.
    pub open spec fn is_plain(self) -> bool {
        self is String || self is Integer || self is Boolean
    }

    /// The short text form of a plain option: its name, a hyphen, and its
    /// value as `{:?}` prints it.
    pub open spec fn text(self) -> Seq<char> {
        match self {
            ApplicationCommandInteractionDataOptionView::String { name, value } => name + "-"@
                + option_text(
                match value {
                    Some(s) => Some(quoted(s)),
                    None => None,
                },
            ),
            ApplicationCommandInteractionDataOptionView::Integer { name, value } => name + "-"@
                + option_text(
                match value {
                    Some(n) => Some(integer_text(n as int)),
                    None => None,
                },
            ),
            ApplicationCommandInteractionDataOptionView::Boolean { name, value } => name + "-"@
                + option_text(
                match value {
                    Some(b) => Some(
                        if b {
                            "true"@
                        } else {
                            "false"@
                        },
                    ),
                    None => None,
                },
            ),
            _ => Seq::empty(),
        }
    }
}

impl ApplicationCommandInteractionDataOption {
    /// The short text form of a text, a whole number or a truth value.
    pub fn to_string(&self) -> (r: String)
        requires
            self.deep_view().is_plain(),
        ensures
            r@ == self.deep_view().text(),
    {
        let mut out = String::new();
        match self {
            ApplicationCommandInteractionDataOption::String { name, value } => {
                out.append(name.as_str());
                out.append("-");
                match value {
                    Some(s) => {
                        out.append("Some(");
                        push_quoted(&mut out, s.as_str());
                        out.append(")");
                    },
                    None => {
                        out.append("None");
                    },
                }
            },
            ApplicationCommandInteractionDataOption::Integer { name, value } => {
                out.append(name.as_str());
                out.append("-");
                match value {
                    Some(n) => {
                        out.append("Some(");
                        push_integer(&mut out, *n);
                        out.append(")");
                    },
                    None => {
                        out.append("None");
                    },
                }
            },
            ApplicationCommandInteractionDataOption::Boolean { name, value } => {
                out.append(name.as_str());
                out.append("-");
                match value {
                    Some(b) => {
                        out.append("Some(");
                        if *b {
                            out.append("true");
                        } else {
                            out.append("false");
                        }
                        out.append(")");
                    },
                    None => {
                        out.append("None");
                    },
                }
            },
            _ => {},
        }
        assert(out@ =~= self.deep_view().text());
        out
    }
}

/// The lists inside the model are the models of the lists.
pub proof fn lemma_data_option_view(x: ApplicationCommandInteractionDataOption)
    ensures
        x matches ApplicationCommandInteractionDataOption::SubCommand { name, options }
            ==> x.deep_view() == (ApplicationCommandInteractionDataOptionView::SubCommand {
            name: name@,
            options: options.deep_view(),
        }),
        x matches ApplicationCommandInteractionDataOption::SubCommandGroup { name, options }
            ==> x.deep_view() == (ApplicationCommandInteractionDataOptionView::SubCommandGroup {
            name: name@,
            options: options.deep_view(),
        }),
        x matches ApplicationCommandInteractionDataOption::Channel(variant) ==> x.deep_view()
            == ApplicationCommandInteractionDataOptionView::Channel(
            Box::new(variant.deep_view()),
        ),
{
    match x {
        ApplicationCommandInteractionDataOption::SubCommand { name, options } => {
            assert(x.deep_view()->SubCommand_options =~= options.deep_view());
        },
        ApplicationCommandInteractionDataOption::SubCommandGroup { name, options } => {
            assert(x.deep_view()->SubCommandGroup_options =~= options.deep_view());
        },
        ApplicationCommandInteractionDataOption::Channel(variant) => {
            assert(x.deep_view()->Channel_0.options =~= variant.options.deep_view());
        },
        _ => {},
    }
}

/// The text of a value, if it is one; a value of another type counts as
/// not given.
pub open spec fn value_text(value: Option<JsonView>) -> Option<Seq<char>> {
    match value {
        Some(JsonView::String(s)) => Some(s),
        _ => None,
    }
}

/// The whole number of a value, if it is one that fits 64 signed bits.
pub open spec fn value_integer(value: Option<JsonView>) -> Option<i64> {
    match value {
        Some(JsonView::Number(JsonNumber::Unsigned(n))) => if n <= i64::MAX {
            Some(n as i64)
        } else {
            None
        },
        Some(JsonView::Number(JsonNumber::Negative(n))) => Some(n),
        _ => None,
    }
}

/// The truth value of a value, if it is one.
pub open spec fn value_bool(value: Option<JsonView>) -> Option<bool> {
    match value {
        Some(JsonView::Bool(b)) => Some(b),
        _ => None,
    }
}

/// The number of a value, if it is one.
pub open spec fn value_number(value: Option<JsonView>) -> Option<JsonNumber> {
    match value {
        Some(JsonView::Number(n)) => Some(n),
        _ => None,
    }
}

/// The option that the discriminant `tag` makes of a name, the nested
/// options and the member `value`.
///
/// 1 and 2 are a sub-command and a group of them, and keep the nested
/// options. 3, 4, 5, 8 and 10 are a text, a whole number, a truth value, a
/// role and a number; a value of another JSON type counts as not given. 6
/// is a user, whose value, if it is a text, must be an identifier. 7 is a
/// channel, whose value, if there is one, must be a channel. Any other
/// discriminant is a fault.
pub open spec fn data_option_of(
    tag: u64,
    name: Seq<char>,
    options: Seq<ApplicationCommandInteractionDataOptionView>,
    value: Option<JsonView>,
) -> Result<ApplicationCommandInteractionDataOptionView, DecodeError> {
    if tag == 1 {
        Ok(ApplicationCommandInteractionDataOptionView::SubCommand { name, options })
    } else if tag == 2 {
        Ok(ApplicationCommandInteractionDataOptionView::SubCommandGroup { name, options })
    } else if tag == 3 {
        Ok(ApplicationCommandInteractionDataOptionView::String { name, value: value_text(value) })
    } else if tag == 4 {
        Ok(
            ApplicationCommandInteractionDataOptionView::Integer {
                name,
                value: value_integer(value),
            },
        )
    } else if tag == 5 {
        Ok(ApplicationCommandInteractionDataOptionView::Boolean { name, value: value_bool(value) })
    } else if tag == 6 {
        match value_text(value) {
            None => Ok(ApplicationCommandInteractionDataOptionView::User { name, value: None }),
            Some(text) => match snowflake_value(encode_utf8(text)) {
                Some(id) => Ok(
                    ApplicationCommandInteractionDataOptionView::User { name, value: Some(id) },
                ),
                None => Err(DecodeError::InvalidValue("snowflake")),
            },
        }
    } else if tag == 7 {
        match value {
            None => Ok(
                ApplicationCommandInteractionDataOptionView::Channel(
                    Box::new(ChannelVariantView { name, value: None, options }),
                ),
            ),
            Some(v) => match Channel::decoding(v) {
                Ok(channel) => Ok(
                    ApplicationCommandInteractionDataOptionView::Channel(
                        Box::new(ChannelVariantView { name, value: Some(channel), options }),
                    ),
                ),
                Err(e) => Err(e),
            },
        }
    } else if tag == 8 {
        Ok(ApplicationCommandInteractionDataOptionView::Role { name, value: value_text(value) })
    } else if tag == 10 {
        Ok(
            ApplicationCommandInteractionDataOptionView::Number {
                name,
                value: value_number(value),
            },
        )
    } else {
        Err(DecodeError::UnknownVariant("ApplicationCommandInteractionDataOption", tag))
    }
}

/// What `j` decodes to as an option of a command.
///
/// The discriminant under `type` is read first and must be an unsigned
/// number; then the name under `name`, which must be a text; then the
/// nested options, if `options` is an array, each in the same way; and
/// last the discriminant decides what becomes of the member `value`.
pub open spec fn data_option_decoding(j: JsonView) -> Result<
    ApplicationCommandInteractionDataOptionView,
    DecodeError,
>
    decreases j,
{
    match j.get("type"@) {
        Some(JsonView::Number(JsonNumber::Unsigned(tag))) => match j.get("name"@) {
            Some(JsonView::String(name)) => {
                let options = match j.get("options"@) {
                    Some(JsonView::Array(items)) => {
                        proof {
                            j.lemma_get_decreases("options"@);
                        }
                        collect(data_option_outcomes(items))
                    },
                    _ => Ok(Seq::empty()),
                };
                match options {
                    Ok(nested) => data_option_of(tag, name, nested, j.get("value"@)),
                    Err(e) => Err(e),
                }
            },
            _ => Err(DecodeError::MissingField("name")),
        },
        _ => Err(DecodeError::MissingField("type")),
    }
}

/// What each of `items` decodes to as an option of a command.
pub open spec fn data_option_outcomes(items: Seq<JsonView>) -> Seq<
    Result<ApplicationCommandInteractionDataOptionView, DecodeError>,
>
    decreases items,
{
    Seq::new(
        items.len(),
        |i: int|
            if 0 <= i < items.len() {
                data_option_decoding(items[i])
            } else {
                arbitrary()
            },
    )
}

/// A discriminant other than 1 to 8 and 10 is a fault that names it,
/// whatever else the object holds.
pub proof fn lemma_unknown_discriminant(
    tag: u64,
    name: Seq<char>,
    options: Seq<ApplicationCommandInteractionDataOptionView>,
    value: Option<JsonView>,
)
    requires
        !(1 <= tag <= 8) && tag != 10,
    ensures
        data_option_of(tag, name, options, value) == Err::<
            ApplicationCommandInteractionDataOptionView,
            DecodeError,
        >(DecodeError::UnknownVariant("ApplicationCommandInteractionDataOption", tag)),
{
}

/// An object is never decoded to an option of another discriminant or
/// name than it holds: an unknown discriminant gives no option at all,
/// and an option that is given has the variant of the discriminant, the
/// name under `name`, and for a sub-command, a group and a channel the
/// nested options in their order.
pub proof fn lemma_decoded_by_discriminant(j: JsonView)
    ensures
        data_option_decoding(j) matches Ok(x) ==> {
            &&& j.get("type"@) == Some(JsonView::Number(JsonNumber::Unsigned(x.tag())))
            &&& j.get("name"@) == Some(JsonView::String(x.name()))
            &&& (x is SubCommand || x is SubCommandGroup || x is Channel) ==> match j.get(
                "options"@,
            ) {
                Some(JsonView::Array(items)) => collect(data_option_outcomes(items)) == Ok::<
                    Seq<ApplicationCommandInteractionDataOptionView>,
                    DecodeError,
                >(x.children()),
                _ => x.children() == Seq::<ApplicationCommandInteractionDataOptionView>::empty(),
            }
        },
{
}

/// Makes the option that the discriminant `tag` calls for.
pub fn make_data_option(
    tag: u64,
    name: String,
    options: Vec<ApplicationCommandInteractionDataOption>,
    value: Option<&Json>,
) -> (r: Result<ApplicationCommandInteractionDataOption, DecodeError>)
    ensures
        agrees(
            r,
            data_option_of(
                tag,
                name@,
                options.deep_view(),
                match value {
                    Some(v) => Some(v@),
                    None => None,
                },
            ),
        ),
{
    let r = if tag == 1 {
        ApplicationCommandInteractionDataOption::SubCommand { name, options }
    } else if tag == 2 {
        ApplicationCommandInteractionDataOption::SubCommandGroup { name, options }
    } else if tag == 3 {
        let value = match value {
            Some(Json::String(s)) => Some(s.clone()),
            _ => None,
        };
        ApplicationCommandInteractionDataOption::String { name, value }
    } else if tag == 4 {
        let value = match value {
            Some(Json::Number(JsonNumber::Unsigned(n))) => if *n <= i64::MAX as u64 {
                Some(*n as i64)
            } else {
                None
            },
            Some(Json::Number(JsonNumber::Negative(n))) => Some(*n),
            _ => None,
        };
        ApplicationCommandInteractionDataOption::Integer { name, value }
    } else if tag == 5 {
        let value = match value {
            Some(Json::Bool(b)) => Some(*b),
            _ => None,
        };
        ApplicationCommandInteractionDataOption::Boolean { name, value }
    } else if tag == 6 {
        let value = match value {
            Some(Json::String(s)) => match Snowflake::parse(s.as_str()) {
                Some(id) => Some(id),
                None => {
                    return Err(DecodeError::InvalidValue("snowflake"));
                },
            },
            _ => None,
        };
        ApplicationCommandInteractionDataOption::User { name, value }
    } else if tag == 7 {
        let value = match value {
            Some(v) => Some(Channel::from_json(v)?),
            None => None,
        };
        ApplicationCommandInteractionDataOption::Channel(
            Box::new(ChannelVariant { name, value, options }),
        )
    } else if tag == 8 {
        let value = match value {
            Some(Json::String(s)) => Some(s.clone()),
            _ => None,
        };
        ApplicationCommandInteractionDataOption::Role { name, value }
    } else if tag == 10 {
        let value = match value {
            Some(Json::Number(n)) => Some(*n),
            _ => None,
        };
        ApplicationCommandInteractionDataOption::Number { name, value }
    } else {
        return Err(DecodeError::UnknownVariant("ApplicationCommandInteractionDataOption", tag));
    };
    proof {
        lemma_data_option_view(r);
    }
    Ok(r)
}

/// Reads an option of a command from `j`.
pub fn decode_data_option(j: &Json) -> (r: Result<
    ApplicationCommandInteractionDataOption,
    DecodeError,
>)
    ensures
        agrees(r, data_option_decoding(j@)),
    decreases j,
{
    let tag = match j.get("type") {
        Some(Json::Number(JsonNumber::Unsigned(tag))) => *tag,
        _ => {
            return Err(DecodeError::MissingField("type"));
        },
    };
    let name = match j.get("name") {
        Some(Json::String(name)) => name.clone(),
        _ => {
            return Err(DecodeError::MissingField("name"));
        },
    };
    let options = match j.get("options") {
        Some(m) => match m {
            Json::Array(items) => {
                proof {
                    lemma_json_view(*m);
                }
                decode_data_options(items)?
            },
            _ => {
                let out: Vec<ApplicationCommandInteractionDataOption> = Vec::new();
                assert(out.deep_view() =~= Seq::<
                    ApplicationCommandInteractionDataOptionView,
                >::empty());
                out
            },
        },
        None => {
            let out: Vec<ApplicationCommandInteractionDataOption> = Vec::new();
            assert(out.deep_view() =~= Seq::<ApplicationCommandInteractionDataOptionView>::empty());
            out
        },
    };
    make_data_option(tag, name, options, j.get("value"))
}

/// Reads each of `items` as an option of a command.
pub fn decode_data_options(items: &Vec<Json>) -> (r: Result<
    Vec<ApplicationCommandInteractionDataOption>,
    DecodeError,
>)
    ensures
        agrees(r, collect(data_option_outcomes(items_view(items@)))),
    decreases items,
{
    let ghost all = items_view(items@);
    let ghost outcomes = data_option_outcomes(all);
    let mut out: Vec<ApplicationCommandInteractionDataOption> = Vec::new();
    let mut i: usize = 0;
    assert(out.deep_view() =~= Seq::<ApplicationCommandInteractionDataOptionView>::empty());
    assert(outcomes.subrange(0, 0) =~= Seq::<
        Result<ApplicationCommandInteractionDataOptionView, DecodeError>,
    >::empty());
    while i < items.len()
        invariant
            i <= items@.len(),
            all == items_view(items@),
            outcomes == data_option_outcomes(all),
            collect(outcomes.subrange(0, i as int)) == Ok::<
                Seq<ApplicationCommandInteractionDataOptionView>,
                DecodeError,
            >(out.deep_view()),
        decreases items@.len() - i,
    {
        let ghost before = out.deep_view();
        proof {
            assert(all[i as int] == items@[i as int]@);
            lemma_collect_step(outcomes, i as int);
        }
        match decode_data_option(&items[i]) {
            Ok(x) => {
                out.push(x);
                assert(out.deep_view() =~= before.push(x.deep_view()));
            },
            Err(e) => {
                return Err(e);
            },
        }
        i += 1;
    }
    assert(outcomes.subrange(0, i as int) =~= outcomes);
    Ok(out)
}

impl FromJson for ApplicationCommandInteractionDataOption {
    open spec fn decoding(j: JsonView) -> Result<
        ApplicationCommandInteractionDataOptionView,
        DecodeError,
    > {
        data_option_decoding(j)
    }

    fn from_json(j: &Json) -> (r: Result<ApplicationCommandInteractionDataOption, DecodeError>) {
        decode_data_option(j)
    }
}

} // verus!
