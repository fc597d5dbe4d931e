//! Commands that an application registers.

use crate::channel::{Attachment, Channel, ChannelType, Message};
use crate::decode::{
    agrees, collect, DecodeError, defaulted, expect_object, FromJson, lemma_collect_step, list,
    object_fault, opt, optional, req, required,
};
use crate::encode::{
    field, filled_field, Members, no_members, object, opt_field, put, put_filled, put_opt, ToJson,
};
use crate::json::{items_view, Json, JsonNumber, JsonView, lemma_json_view, member, members_view};
use crate::maps::Localizations;
use crate::permission::Role;
use crate::round_trip::{
    lemma_collect_values, lemma_concat, lemma_defaulted_back, lemma_field, lemma_filled_field,
    lemma_object, lemma_one, lemma_opt_field, lemma_optional_back, lemma_required_back, null_free,
    RoundTrip,
};
use crate::user::User;
use vstd::prelude::*;
use vstd::string::*;

verus! {

/// A command, as it is registered with the platform.
#[derive(Debug, PartialEq, Eq)]
pub struct ApplicationCommand {
    pub name: String,
    pub name_localizations: Option<Localizations>,
    pub description: String,
    pub description_localizations: Option<Localizations>,
    pub options: Vec<ApplicationCommandOption>,
    pub default_member_permissions: Option<String>,
    pub dm_permission: Option<bool>,
    pub default_permission: Option<bool>,
    pub application_command_type: Option<ApplicationCommandTypeDef>,
    pub nsfw: Option<bool>,
}

/// The model of [`ApplicationCommand`].
pub struct ApplicationCommandView {
    pub name: Seq<char>,
    pub name_localizations: Option<Seq<(Seq<char>, Seq<char>)>>,
    pub description: Seq<char>,
    pub description_localizations: Option<Seq<(Seq<char>, Seq<char>)>>,
    pub options: Seq<ApplicationCommandOptionView>,
    pub default_member_permissions: Option<Seq<char>>,
    pub dm_permission: Option<bool>,
    pub default_permission: Option<bool>,
    pub application_command_type: Option<ApplicationCommandTypeDef>,
    pub nsfw: Option<bool>,
}

impl DeepView for ApplicationCommand {
    type V = ApplicationCommandView;

    open spec fn deep_view(&self) -> ApplicationCommandView {
        ApplicationCommandView {
            name: self.name.deep_view(),
            name_localizations: self.name_localizations.deep_view(),
            description: self.description.deep_view(),
            description_localizations: self.description_localizations.deep_view(),
            options: self.options.deep_view(),
            default_member_permissions: self.default_member_permissions.deep_view(),
            dm_permission: self.dm_permission.deep_view(),
            default_permission: self.default_permission.deep_view(),
            application_command_type: self.application_command_type.deep_view(),
            nsfw: self.nsfw.deep_view(),
        }
    }
}

impl ApplicationCommandView {
    /// The record with nothing set.
    pub open spec fn empty() -> ApplicationCommandView {
        ApplicationCommandView {
            name: Seq::empty(),
            name_localizations: None,
            description: Seq::empty(),
            description_localizations: None,
            options: Seq::empty(),
            default_member_permissions: None,
            dm_permission: None,
            default_permission: None,
            application_command_type: None,
            nsfw: None,
        }
    }
}

impl Default for ApplicationCommand {
    fn default() -> (r: ApplicationCommand)
        ensures
            r.deep_view() == ApplicationCommandView::empty(),
    {
        let r = ApplicationCommand {
            name: String::new(),
            name_localizations: None,
            description: String::new(),
            description_localizations: None,
            options: Vec::new(),
            default_member_permissions: None,
            dm_permission: None,
            default_permission: None,
            application_command_type: None,
            nsfw: None,
        };
        assert(r.options.deep_view() =~= Seq::empty());
        r
    }
}

impl ApplicationCommand {
    /// A command with the given name and nothing else set.
    pub fn new(name: &str) -> (r: ApplicationCommand)
        ensures
            r.deep_view() == (ApplicationCommandView {
                name: name@,
                ..ApplicationCommandView::empty()
            }),
    {
        let mut r = ApplicationCommand::default();
        r.name = name.to_owned();
        r
    }

    /// Sets the name.
    pub fn name(self, value: &str) -> (r: ApplicationCommand)
        ensures
            r.deep_view() == (ApplicationCommandView { name: value@, ..self.deep_view() }),
    {
        let mut r = self;
        r.name = value.to_owned();
        r
    }

    /// Sets the description.
    pub fn description(self, value: &str) -> (r: ApplicationCommand)
        ensures
            r.deep_view() == (ApplicationCommandView { description: value@, ..self.deep_view() }),
    {
        let mut r = self;
        r.description = value.to_owned();
        r
    }

    /// Sets the description in other languages.
    pub fn description_localizations(self, value: Localizations) -> (r: ApplicationCommand)
        ensures
            r.deep_view() == (ApplicationCommandView {
                description_localizations: Some(value.deep_view()),
                ..self.deep_view()
            }),
    {
        let mut r = self;
        r.description_localizations = Some(value);
        r
    }

    /// Adds an option after those already present.
    pub fn option(self, value: ApplicationCommandOption) -> (r: ApplicationCommand)
        ensures
            r.deep_view() == (ApplicationCommandView {
                options: self.deep_view().options.push(value.deep_view()),
                ..self.deep_view()
            }),
    {
        let ghost before = self.deep_view();
        let mut r = self;
        r.options.push(value);
        assert(r.options.deep_view() =~= before.options.push(value.deep_view()));
        r
    }

    /// Sets the permissions a member needs by default.
    pub fn default_member_permissions(self, value: &str) -> (r: ApplicationCommand)
        ensures
            r.deep_view() == (ApplicationCommandView {
                default_member_permissions: Some(value@),
                ..self.deep_view()
            }),
    {
        let mut r = self;
        r.default_member_permissions = Some(value.to_owned());
        r
    }

    /// Sets whether the command can be used in direct messages.
    pub fn dm_permission(self, value: bool) -> (r: ApplicationCommand)
        ensures
            r.deep_view() == (ApplicationCommandView {
                dm_permission: Some(value.deep_view()),
                ..self.deep_view()
            }),
    {
        let mut r = self;
        r.dm_permission = Some(value);
        r
    }

    /// Sets whether the command is enabled by default.
    pub fn default_permission(self, value: bool) -> (r: ApplicationCommand)
        ensures
            r.deep_view() == (ApplicationCommandView {
                default_permission: Some(value.deep_view()),
                ..self.deep_view()
            }),
    {
        let mut r = self;
        r.default_permission = Some(value);
        r
    }

    /// Sets the kind of the command.
    pub fn application_command_type(
        self,
        value: ApplicationCommandTypeDef,
    ) -> (r: ApplicationCommand)
        ensures
            r.deep_view() == (ApplicationCommandView {
                application_command_type: Some(value.deep_view()),
                ..self.deep_view()
            }),
    {
        let mut r = self;
        r.application_command_type = Some(value);
        r
    }

    /// Sets whether the command is age-restricted.
    pub fn nsfw(self, value: bool) -> (r: ApplicationCommand)
        ensures
            r.deep_view() == (ApplicationCommandView {
                nsfw: Some(value.deep_view()),
                ..self.deep_view()
            }),
    {
        let mut r = self;
        r.nsfw = Some(value);
        r
    }
}

impl FromJson for ApplicationCommand {
    open spec fn decoding(j: JsonView) -> Result<ApplicationCommandView, DecodeError> {
        let name = required::<String>(j, "name");
        let name_localizations = optional::<Localizations>(j, "name_localizations");
        let description = required::<String>(j, "description");
        let description_localizations = optional::<Localizations>(j, "description_localizations");
        let options = defaulted::<ApplicationCommandOption>(j, "options");
        let default_member_permissions = optional::<String>(j, "default_member_permissions");
        let dm_permission = optional::<bool>(j, "dm_permission");
        let default_permission = optional::<bool>(j, "default_permission");
        let application_command_type = optional::<ApplicationCommandTypeDef>(j, "type");
        let nsfw = optional::<bool>(j, "nsfw");
        if object_fault(j) is Some {
            Err(object_fault(j)->0)
        } else if name is Err {
            Err(name->Err_0)
        } else if name_localizations is Err {
            Err(name_localizations->Err_0)
        } else if description is Err {
            Err(description->Err_0)
        } else if description_localizations is Err {
            Err(description_localizations->Err_0)
        } else if options is Err {
            Err(options->Err_0)
        } else if default_member_permissions is Err {
            Err(default_member_permissions->Err_0)
        } else if dm_permission is Err {
            Err(dm_permission->Err_0)
        } else if default_permission is Err {
            Err(default_permission->Err_0)
        } else if application_command_type is Err {
            Err(application_command_type->Err_0)
        } else if nsfw is Err {
            Err(nsfw->Err_0)
        } else {
            Ok(
                ApplicationCommandView {
                    name: name->Ok_0,
                    name_localizations: name_localizations->Ok_0,
                    description: description->Ok_0,
                    description_localizations: description_localizations->Ok_0,
                    options: options->Ok_0,
                    default_member_permissions: default_member_permissions->Ok_0,
                    dm_permission: dm_permission->Ok_0,
                    default_permission: default_permission->Ok_0,
                    application_command_type: application_command_type->Ok_0,
                    nsfw: nsfw->Ok_0,
                },
            )
        }
    }

    fn from_json(j: &Json) -> (r: Result<ApplicationCommand, DecodeError>) {
        expect_object(j)?;
        let name = req::<String>(j, "name")?;
        let name_localizations = opt::<Localizations>(j, "name_localizations")?;
        let description = req::<String>(j, "description")?;
        let description_localizations = opt::<Localizations>(j, "description_localizations")?;
        let options = list::<ApplicationCommandOption>(j, "options")?;
        let default_member_permissions = opt::<String>(j, "default_member_permissions")?;
        let dm_permission = opt::<bool>(j, "dm_permission")?;
        let default_permission = opt::<bool>(j, "default_permission")?;
        let application_command_type = opt::<ApplicationCommandTypeDef>(j, "type")?;
        let nsfw = opt::<bool>(j, "nsfw")?;
        Ok(
            ApplicationCommand {
                name,
                name_localizations,
                description,
                description_localizations,
                options,
                default_member_permissions,
                dm_permission,
                default_permission,
                application_command_type,
                nsfw,
            },
        )
    }
}

impl ToJson for ApplicationCommand {
    open spec fn encoding(m: ApplicationCommandView) -> JsonView {
        JsonView::Object(
            Seq::empty()
                + field::<String>("name", m.name)
                + opt_field::<Localizations>("name_localizations", m.name_localizations)
                + field::<String>("description", m.description)
                + opt_field::<Localizations>(
                    "description_localizations",
                    m.description_localizations,
                )
                + filled_field::<ApplicationCommandOption>("options", m.options)
                + opt_field::<String>("default_member_permissions", m.default_member_permissions)
                + opt_field::<bool>("dm_permission", m.dm_permission)
                + opt_field::<bool>("default_permission", m.default_permission)
                + opt_field::<ApplicationCommandTypeDef>("type", m.application_command_type)
                + opt_field::<bool>("nsfw", m.nsfw),
        )
    }

    fn to_json(&self) -> (j: Json) {
        let mut members = no_members();
        put(&mut members, "name", &self.name);
        put_opt(&mut members, "name_localizations", &self.name_localizations);
        put(&mut members, "description", &self.description);
        put_opt(&mut members, "description_localizations", &self.description_localizations);
        put_filled(&mut members, "options", &self.options);
        put_opt(&mut members, "default_member_permissions", &self.default_member_permissions);
        put_opt(&mut members, "dm_permission", &self.dm_permission);
        put_opt(&mut members, "default_permission", &self.default_permission);
        put_opt(&mut members, "type", &self.application_command_type);
        put_opt(&mut members, "nsfw", &self.nsfw);
        object(members)
    }
}

impl RoundTrip for ApplicationCommand {
    open spec fn faithful(m: ApplicationCommandView) -> bool {
        &&& Vec::<ApplicationCommandOption>::faithful(m.options)
    }

    proof fn lemma_round_trip(m: ApplicationCommandView) {
        // No two keys are the same.
        reveal_strlit("name");
        reveal_strlit("name_localizations");
        reveal_strlit("description");
        reveal_strlit("description_localizations");
        reveal_strlit("options");
        reveal_strlit("default_member_permissions");
        reveal_strlit("dm_permission");
        reveal_strlit("default_permission");
        reveal_strlit("type");
        reveal_strlit("nsfw");
        assert("name"@.len() == 4 && "name"@[0] == 'n' && "name"@[1] == 'a');
        assert("name_localizations"@.len() == 18 && "name_localizations"@[0] == 'n');
        assert("description"@.len() == 11);
        assert("description_localizations"@.len() == 25);
        assert("options"@.len() == 7);
        assert("default_member_permissions"@.len() == 26);
        assert("dm_permission"@.len() == 13);
        assert("default_permission"@.len() == 18 && "default_permission"@[0] == 'd');
        assert("type"@.len() == 4 && "type"@[0] == 't');
        assert("nsfw"@.len() == 4 && "nsfw"@[0] == 'n' && "nsfw"@[1] == 's');
        // What the object holds, member by member.
        let s0: Members = Seq::empty();
        String::lemma_round_trip(m.name);
        lemma_field::<String>("name", m.name);
        let s1 = s0 + field::<String>("name", m.name);
        lemma_concat(s0, field::<String>("name", m.name));
        if m.name_localizations is Some {
            Localizations::lemma_round_trip(m.name_localizations->0);
        }
        lemma_opt_field::<Localizations>("name_localizations", m.name_localizations);
        let s2 = s1 + opt_field::<Localizations>("name_localizations", m.name_localizations);
        lemma_concat(s1, opt_field::<Localizations>("name_localizations", m.name_localizations));
        String::lemma_round_trip(m.description);
        lemma_field::<String>("description", m.description);
        let s3 = s2 + field::<String>("description", m.description);
        lemma_concat(s2, field::<String>("description", m.description));
        if m.description_localizations is Some {
            Localizations::lemma_round_trip(m.description_localizations->0);
        }
        lemma_opt_field::<Localizations>("description_localizations", m.description_localizations);
        let s4 = s3 + opt_field::<Localizations>(
            "description_localizations",
            m.description_localizations,
        );
        lemma_concat(s3, opt_field::<Localizations>(
            "description_localizations",
            m.description_localizations,
        ));
        Vec::<ApplicationCommandOption>::lemma_round_trip(m.options);
        if m.options.len() == 0 {
            assert(m.options =~= Seq::empty());
        }
        lemma_filled_field::<ApplicationCommandOption>("options", m.options);
        let s5 = s4 + filled_field::<ApplicationCommandOption>("options", m.options);
        lemma_concat(s4, filled_field::<ApplicationCommandOption>("options", m.options));
        if m.default_member_permissions is Some {
            String::lemma_round_trip(m.default_member_permissions->0);
        }
        lemma_opt_field::<String>("default_member_permissions", m.default_member_permissions);
        let s6 = s5 + opt_field::<String>(
            "default_member_permissions",
            m.default_member_permissions,
        );
        lemma_concat(s5, opt_field::<String>(
            "default_member_permissions",
            m.default_member_permissions,
        ));
        if m.dm_permission is Some {
            bool::lemma_round_trip(m.dm_permission->0);
        }
        lemma_opt_field::<bool>("dm_permission", m.dm_permission);
        let s7 = s6 + opt_field::<bool>("dm_permission", m.dm_permission);
        lemma_concat(s6, opt_field::<bool>("dm_permission", m.dm_permission));
        if m.default_permission is Some {
            bool::lemma_round_trip(m.default_permission->0);
        }
        lemma_opt_field::<bool>("default_permission", m.default_permission);
        let s8 = s7 + opt_field::<bool>("default_permission", m.default_permission);
        lemma_concat(s7, opt_field::<bool>("default_permission", m.default_permission));
        if m.application_command_type is Some {
            ApplicationCommandTypeDef::lemma_round_trip(m.application_command_type->0);
        }
        lemma_opt_field::<ApplicationCommandTypeDef>("type", m.application_command_type);
        let s9 = s8 + opt_field::<ApplicationCommandTypeDef>("type", m.application_command_type);
        lemma_concat(s8, opt_field::<ApplicationCommandTypeDef>(
            "type",
            m.application_command_type,
        ));
        if m.nsfw is Some {
            bool::lemma_round_trip(m.nsfw->0);
        }
        lemma_opt_field::<bool>("nsfw", m.nsfw);
        let s10 = s9 + opt_field::<bool>("nsfw", m.nsfw);
        lemma_concat(s9, opt_field::<bool>("nsfw", m.nsfw));
        lemma_object(s10);
        // What each member decodes to.
        let j = JsonView::Object(s10);
        lemma_required_back::<String>(j, "name", m.name);
        lemma_optional_back::<Localizations>(j, "name_localizations", m.name_localizations);
        lemma_required_back::<String>(j, "description", m.description);
        lemma_optional_back::<Localizations>(
            j,
            "description_localizations",
            m.description_localizations,
        );
        lemma_defaulted_back::<ApplicationCommandOption>(j, "options", m.options);
        lemma_optional_back::<String>(
            j,
            "default_member_permissions",
            m.default_member_permissions,
        );
        lemma_optional_back::<bool>(j, "dm_permission", m.dm_permission);
        lemma_optional_back::<bool>(j, "default_permission", m.default_permission);
        lemma_optional_back::<ApplicationCommandTypeDef>(j, "type", m.application_command_type);
        lemma_optional_back::<bool>(j, "nsfw", m.nsfw);
    }
}

/// How a command is invoked.
#[derive(Debug, Clone, Copy, PartialEq, Eq, Structural)]
pub enum ApplicationCommandTypeDef {
    ChatInput,
    User,
    Message,
}

impl DeepView for ApplicationCommandTypeDef {
    type V = ApplicationCommandTypeDef;

    open spec fn deep_view(&self) -> ApplicationCommandTypeDef {
        *self
    }
}

impl ApplicationCommandTypeDef {
    /// The number that stands for the variant on the wire.
    pub open spec fn spec_tag(self) -> u64 {
        match self {
            ApplicationCommandTypeDef::ChatInput => 1,
            ApplicationCommandTypeDef::User => 2,
            ApplicationCommandTypeDef::Message => 3,
        }
    }

    /// The variant that `tag` stands for, if any.
    pub open spec fn spec_from_tag(tag: u64) -> Option<ApplicationCommandTypeDef> {
        if tag == 1 {
            Some(ApplicationCommandTypeDef::ChatInput)
        } else if tag == 2 {
            Some(ApplicationCommandTypeDef::User)
        } else if tag == 3 {
            Some(ApplicationCommandTypeDef::Message)
        } else {
            None
        }
    }

    /// The variant that stands where none is given.
    pub open spec fn spec_default() -> ApplicationCommandTypeDef {
        ApplicationCommandTypeDef::ChatInput
    }

    /// The number that stands for the variant on the wire.
    pub fn tag(&self) -> (r: u64)
        ensures
            r == self.spec_tag(),
    {
        match self {
            ApplicationCommandTypeDef::ChatInput => 1,
            ApplicationCommandTypeDef::User => 2,
            ApplicationCommandTypeDef::Message => 3,
        }
    }

    /// The variant that `tag` stands for, if any.
    pub fn from_tag(tag: u64) -> (r: Option<ApplicationCommandTypeDef>)
        ensures
            r == Self::spec_from_tag(tag),
    {
        if tag == 1 {
            Some(ApplicationCommandTypeDef::ChatInput)
        } else if tag == 2 {
            Some(ApplicationCommandTypeDef::User)
        } else if tag == 3 {
            Some(ApplicationCommandTypeDef::Message)
        } else {
            None
        }
    }

    /// Every variant is found again from its tag.
    pub proof fn lemma_tag_round_trip(self)
        ensures
            Self::spec_from_tag(self.spec_tag()) == Some(self),
    {
    }
}

impl Default for ApplicationCommandTypeDef {
    fn default() -> (r: ApplicationCommandTypeDef)
        ensures
            r == ApplicationCommandTypeDef::spec_default(),
    {
        ApplicationCommandTypeDef::ChatInput
    }
}

impl FromJson for ApplicationCommandTypeDef {
    open spec fn decoding(j: JsonView) -> Result<ApplicationCommandTypeDef, DecodeError> {
        match u64::decoding(j) {
            Err(e) => Err(e),
            Ok(tag) => match ApplicationCommandTypeDef::spec_from_tag(tag) {
                Some(v) => Ok(v),
                None => Err(DecodeError::UnknownVariant("ApplicationCommandTypeDef", tag)),
            },
        }
    }

    fn from_json(j: &Json) -> (r: Result<ApplicationCommandTypeDef, DecodeError>) {
        let tag = u64::from_json(j)?;
        match ApplicationCommandTypeDef::from_tag(tag) {
            Some(v) => Ok(v),
            None => Err(DecodeError::UnknownVariant("ApplicationCommandTypeDef", tag)),
        }
    }
}

impl ToJson for ApplicationCommandTypeDef {
    open spec fn encoding(m: ApplicationCommandTypeDef) -> JsonView {
        JsonView::Number(JsonNumber::Unsigned(m.spec_tag()))
    }

    fn to_json(&self) -> (j: Json) {
        Json::Number(JsonNumber::Unsigned(self.tag()))
    }
}

impl RoundTrip for ApplicationCommandTypeDef {
    open spec fn faithful(m: ApplicationCommandTypeDef) -> bool {
        true
    }

    proof fn lemma_round_trip(m: ApplicationCommandTypeDef) {
        m.lemma_tag_round_trip();
    }
}

/// A parameter of a command. A sub-command holds parameters of its own.
#[derive(Debug, PartialEq, Eq)]
pub struct ApplicationCommandOption {
    pub application_command_option_type: ApplicationCommandOptionType,
    pub name: String,
    pub name_localizations: Option<Localizations>,
    pub description: String,
    pub description_localizations: Option<Localizations>,
    pub required: Option<bool>,
    pub choices: Vec<ApplicationCommandOptionChoice>,
    pub options: Vec<ApplicationCommandOption>,
    pub channel_types: Vec<ChannelType>,
    pub min_value: Option<MinMaxValue>,
    pub max_value: Option<MinMaxValue>,
    pub min_length: Option<i64>,
    pub max_length: Option<i64>,
    pub autocomplete: Option<bool>,
}

/// The model of [`ApplicationCommandOption`].
pub struct ApplicationCommandOptionView {
    pub application_command_option_type: ApplicationCommandOptionType,
    pub name: Seq<char>,
    pub name_localizations: Option<Seq<(Seq<char>, Seq<char>)>>,
    pub description: Seq<char>,
    pub description_localizations: Option<Seq<(Seq<char>, Seq<char>)>>,
    pub required: Option<bool>,
    pub choices: Seq<ApplicationCommandOptionChoiceView>,
    pub options: Seq<ApplicationCommandOptionView>,
    pub channel_types: Seq<ChannelType>,
    pub min_value: Option<MinMaxValue>,
    pub max_value: Option<MinMaxValue>,
    pub min_length: Option<i64>,
    pub max_length: Option<i64>,
    pub autocomplete: Option<bool>,
}

/// The model of `x`.
pub open spec fn command_option_view(x: ApplicationCommandOption) -> ApplicationCommandOptionView
    decreases x,
{
    ApplicationCommandOptionView {
        application_command_option_type: x.application_command_option_type.deep_view(),
        name: x.name.deep_view(),
        name_localizations: x.name_localizations.deep_view(),
        description: x.description.deep_view(),
        description_localizations: x.description_localizations.deep_view(),
        required: x.required.deep_view(),
        choices: x.choices.deep_view(),
        options: Seq::new(
            x.options@.len(),
            |i: int|
                if 0 <= i < x.options@.len() {
                    command_option_view(x.options@[i])
                } else {
                    arbitrary()
                },
        ),
        channel_types: x.channel_types.deep_view(),
        min_value: x.min_value.deep_view(),
        max_value: x.max_value.deep_view(),
        min_length: x.min_length.deep_view(),
        max_length: x.max_length.deep_view(),
        autocomplete: x.autocomplete.deep_view(),
    }
}

impl DeepView for ApplicationCommandOption {
    type V = ApplicationCommandOptionView;

    open spec fn deep_view(&self) -> ApplicationCommandOptionView {
        command_option_view(*self)
    }
}

/// The lists inside the model are the models of the lists.
pub proof fn lemma_command_option_view(x: ApplicationCommandOption)
    ensures
        x.deep_view().options == x.options.deep_view(),
{
    assert(x.deep_view().options =~= x.options.deep_view());
}

impl ApplicationCommandOptionView {
    /// The record with nothing set.
    pub open spec fn empty() -> ApplicationCommandOptionView {
        ApplicationCommandOptionView {
            application_command_option_type: ApplicationCommandOptionType::spec_default(),
            name: Seq::empty(),
            name_localizations: None,
            description: Seq::empty(),
            description_localizations: None,
            required: None,
            choices: Seq::empty(),
            options: Seq::empty(),
            channel_types: Seq::empty(),
            min_value: None,
            max_value: None,
            min_length: None,
            max_length: None,
            autocomplete: None,
        }
    }
}

impl Default for ApplicationCommandOption {
    fn default() -> (r: ApplicationCommandOption)
        ensures
            r.deep_view() == ApplicationCommandOptionView::empty(),
    {
        let r = ApplicationCommandOption {
            application_command_option_type: ApplicationCommandOptionType::default(),
            name: String::new(),
            name_localizations: None,
            description: String::new(),
            description_localizations: None,
            required: None,
            choices: Vec::new(),
            options: Vec::new(),
            channel_types: Vec::new(),
            min_value: None,
            max_value: None,
            min_length: None,
            max_length: None,
            autocomplete: None,
        };
        assert(r.choices.deep_view() =~= Seq::empty());
        assert(r.options.deep_view() =~= Seq::empty());
        assert(r.deep_view().options =~= Seq::empty());
        assert(r.channel_types.deep_view() =~= Seq::empty());
        r
    }
}

impl ApplicationCommandOption {
    /// An option with the given name and nothing else set.
    pub fn new(name: &str) -> (r: ApplicationCommandOption)
        ensures
            r.deep_view() == (ApplicationCommandOptionView {
                name: name@,
                ..ApplicationCommandOptionView::empty()
            }),
    {
        let mut r = ApplicationCommandOption::default();
        proof {
            lemma_command_option_view(r);
        }
        r.name = name.to_owned();
        proof {
            lemma_command_option_view(r);
        }
        r
    }

    /// Sets the kind of value the option takes.
    pub fn application_command_option_type(
        self,
        value: ApplicationCommandOptionType,
    ) -> (r: ApplicationCommandOption)
        ensures
            r.deep_view() == (ApplicationCommandOptionView {
                application_command_option_type: value.deep_view(),
                ..self.deep_view()
            }),
    {
        let mut r = self;
        r.application_command_option_type = value;
        proof {
            lemma_command_option_view(self);
            lemma_command_option_view(r);
        }
        r
    }

    /// Sets the name.
    pub fn name(self, value: &str) -> (r: ApplicationCommandOption)
        ensures
            r.deep_view() == (ApplicationCommandOptionView { name: value@, ..self.deep_view() }),
    {
        let mut r = self;
        r.name = value.to_owned();
        proof {
            lemma_command_option_view(self);
            lemma_command_option_view(r);
        }
        r
    }

    /// Sets the name in other languages.
    pub fn name_localizations(self, value: Localizations) -> (r: ApplicationCommandOption)
        ensures
            r.deep_view() == (ApplicationCommandOptionView {
                name_localizations: Some(value.deep_view()),
                ..self.deep_view()
            }),
    {
        let mut r = self;
        r.name_localizations = Some(value);
        proof {
            lemma_command_option_view(self);
            lemma_command_option_view(r);
        }
        r
    }

    /// Sets the description.
    pub fn description(self, value: &str) -> (r: ApplicationCommandOption)
        ensures
            r.deep_view() == (ApplicationCommandOptionView {
                description: value@,
                ..self.deep_view()
            }),
    {
        let mut r = self;
        r.description = value.to_owned();
        proof {
            lemma_command_option_view(self);
            lemma_command_option_view(r);
        }
        r
    }

    /// Sets the description in other languages.
    pub fn description_localizations(self, value: Localizations) -> (r: ApplicationCommandOption)
        ensures
            r.deep_view() == (ApplicationCommandOptionView {
                description_localizations: Some(value.deep_view()),
                ..self.deep_view()
            }),
    {
        let mut r = self;
        r.description_localizations = Some(value);
        proof {
            lemma_command_option_view(self);
            lemma_command_option_view(r);
        }
        r
    }

    /// Sets whether the option must be given.
    pub fn required(self, value: bool) -> (r: ApplicationCommandOption)
        ensures
            r.deep_view() == (ApplicationCommandOptionView {
                required: Some(value.deep_view()),
                ..self.deep_view()
            }),
    {
        let mut r = self;
        r.required = Some(value);
        proof {
            lemma_command_option_view(self);
            lemma_command_option_view(r);
        }
        r
    }

    /// Adds a choice after those already present.
    pub fn choice(self, value: ApplicationCommandOptionChoice) -> (r: ApplicationCommandOption)
        ensures
            r.deep_view() == (ApplicationCommandOptionView {
                choices: self.deep_view().choices.push(value.deep_view()),
                ..self.deep_view()
            }),
    {
        let ghost before = self.deep_view();
        let mut r = self;
        r.choices.push(value);
        assert(r.choices.deep_view() =~= before.choices.push(value.deep_view()));
        r
    }

    /// Adds a nested option after those already present.
    pub fn option(self, value: ApplicationCommandOption) -> (r: ApplicationCommandOption)
        ensures
            r.deep_view() == (ApplicationCommandOptionView {
                options: self.deep_view().options.push(value.deep_view()),
                ..self.deep_view()
            }),
    {
        let ghost before = self.deep_view();
        proof {
            lemma_command_option_view(self);
        }
        let mut r = self;
        r.options.push(value);
        assert(r.options.deep_view() =~= before.options.push(value.deep_view()));
        proof {
            lemma_command_option_view(r);
        }
        r
    }

    /// Adds a kind of channel that may be chosen.
    pub fn channel_type(self, value: ChannelType) -> (r: ApplicationCommandOption)
        ensures
            r.deep_view() == (ApplicationCommandOptionView {
                channel_types: self.deep_view().channel_types.push(value.deep_view()),
                ..self.deep_view()
            }),
    {
        let ghost before = self.deep_view();
        let mut r = self;
        r.channel_types.push(value);
        assert(r.channel_types.deep_view() =~= before.channel_types.push(value.deep_view()));
        r
    }

    /// Sets the least value allowed.
    pub fn min_value(self, value: MinMaxValue) -> (r: ApplicationCommandOption)
        ensures
            r.deep_view() == (ApplicationCommandOptionView {
                min_value: Some(value.deep_view()),
                ..self.deep_view()
            }),
    {
        let mut r = self;
        r.min_value = Some(value);
        proof {
            lemma_command_option_view(self);
            lemma_command_option_view(r);
        }
        r
    }

    /// Sets the greatest value allowed.
    pub fn max_value(self, value: MinMaxValue) -> (r: ApplicationCommandOption)
        ensures
            r.deep_view() == (ApplicationCommandOptionView {
                max_value: Some(value.deep_view()),
                ..self.deep_view()
            }),
    {
        let mut r = self;
        r.max_value = Some(value);
        proof {
            lemma_command_option_view(self);
            lemma_command_option_view(r);
        }
        r
    }

    /// Sets the least length allowed.
    pub fn min_length(self, value: i64) -> (r: ApplicationCommandOption)
        ensures
            r.deep_view() == (ApplicationCommandOptionView {
                min_length: Some(value.deep_view()),
                ..self.deep_view()
            }),
    {
        let mut r = self;
        r.min_length = Some(value);
        proof {
            lemma_command_option_view(self);
            lemma_command_option_view(r);
        }
        r
    }

    /// Sets the greatest length allowed.
    pub fn max_length(self, value: i64) -> (r: ApplicationCommandOption)
        ensures
            r.deep_view() == (ApplicationCommandOptionView {
                max_length: Some(value.deep_view()),
                ..self.deep_view()
            }),
    {
        let mut r = self;
        r.max_length = Some(value);
        proof {
            lemma_command_option_view(self);
            lemma_command_option_view(r);
        }
        r
    }

    /// Sets whether the platform asks for suggestions while the user types.
    pub fn autocomplete(self, value: bool) -> (r: ApplicationCommandOption)
        ensures
            r.deep_view() == (ApplicationCommandOptionView {
                autocomplete: Some(value.deep_view()),
                ..self.deep_view()
            }),
    {
        let mut r = self;
        r.autocomplete = Some(value);
        proof {
            lemma_command_option_view(self);
            lemma_command_option_view(r);
        }
        r
    }
}

/// What `j` decodes to as an application command option.
pub open spec fn command_option_decoding(
    j: JsonView,
) -> Result<ApplicationCommandOptionView, DecodeError>
    decreases j,
{
    let application_command_option_type = required::<ApplicationCommandOptionType>(j, "type");
    let name = required::<String>(j, "name");
    let name_localizations = optional::<Localizations>(j, "name_localizations");
    let description = required::<String>(j, "description");
    let description_localizations = optional::<Localizations>(j, "description_localizations");
    let required = optional::<bool>(j, "required");
    let choices = defaulted::<ApplicationCommandOptionChoice>(j, "choices");
    let options = match j.get("options"@) {
        None => Ok(Seq::empty()),
        Some(JsonView::Array(items)) => {
            proof {
                j.lemma_get_decreases("options"@);
            }
            collect(command_option_outcomes(items))
        },
        Some(_) => Err(DecodeError::InvalidType("array")),
    };
    let channel_types = defaulted::<ChannelType>(j, "channel_types");
    let min_value = optional::<MinMaxValue>(j, "min_value");
    let max_value = optional::<MinMaxValue>(j, "max_value");
    let min_length = optional::<i64>(j, "min_length");
    let max_length = optional::<i64>(j, "max_length");
    let autocomplete = optional::<bool>(j, "autocomplete");
    if object_fault(j) is Some {
        Err(object_fault(j)->0)
    } else if application_command_option_type is Err {
        Err(application_command_option_type->Err_0)
    } else if name is Err {
        Err(name->Err_0)
    } else if name_localizations is Err {
        Err(name_localizations->Err_0)
    } else if description is Err {
        Err(description->Err_0)
    } else if description_localizations is Err {
        Err(description_localizations->Err_0)
    } else if required is Err {
        Err(required->Err_0)
    } else if choices is Err {
        Err(choices->Err_0)
    } else if options is Err {
        Err(options->Err_0)
    } else if channel_types is Err {
        Err(channel_types->Err_0)
    } else if min_value is Err {
        Err(min_value->Err_0)
    } else if max_value is Err {
        Err(max_value->Err_0)
    } else if min_length is Err {
        Err(min_length->Err_0)
    } else if max_length is Err {
        Err(max_length->Err_0)
    } else if autocomplete is Err {
        Err(autocomplete->Err_0)
    } else {
        Ok(
            ApplicationCommandOptionView {
                application_command_option_type: application_command_option_type->Ok_0,
                name: name->Ok_0,
                name_localizations: name_localizations->Ok_0,
                description: description->Ok_0,
                description_localizations: description_localizations->Ok_0,
                required: required->Ok_0,
                choices: choices->Ok_0,
                options: options->Ok_0,
                channel_types: channel_types->Ok_0,
                min_value: min_value->Ok_0,
                max_value: max_value->Ok_0,
                min_length: min_length->Ok_0,
                max_length: max_length->Ok_0,
                autocomplete: autocomplete->Ok_0,
            },
        )
    }
}

/// What each of `items` decodes to as an application command option.
pub open spec fn command_option_outcomes(
    items: Seq<JsonView>,
) -> Seq<Result<ApplicationCommandOptionView, DecodeError>>
    decreases items,
{
    Seq::new(
        items.len(),
        |i: int|
            if 0 <= i < items.len() {
                command_option_decoding(items[i])
            } else {
                arbitrary()
            },
    )
}

/// Reads an application command option from `j`.
pub fn decode_command_option(j: &Json) -> (r: Result<ApplicationCommandOption, DecodeError>)
    ensures
        agrees(r, command_option_decoding(j@)),
    decreases j,
{
    expect_object(j)?;
    let application_command_option_type = req::<ApplicationCommandOptionType>(j, "type")?;
    let name = req::<String>(j, "name")?;
    let name_localizations = opt::<Localizations>(j, "name_localizations")?;
    let description = req::<String>(j, "description")?;
    let description_localizations = opt::<Localizations>(j, "description_localizations")?;
    let required = opt::<bool>(j, "required")?;
    let choices = list::<ApplicationCommandOptionChoice>(j, "choices")?;
    let options = match j.get("options") {
        None => {
            let out: Vec<ApplicationCommandOption> = Vec::new();
            assert(out.deep_view() =~= Seq::<ApplicationCommandOptionView>::empty());
            out
        },
        Some(m) => match m {
            Json::Array(items) => {
                proof {
                    lemma_json_view(*m);
                }
                decode_command_options(items)?
            },
            _ => {
                return Err(DecodeError::InvalidType("array"));
            },
        },
    };
    let channel_types = list::<ChannelType>(j, "channel_types")?;
    let min_value = opt::<MinMaxValue>(j, "min_value")?;
    let max_value = opt::<MinMaxValue>(j, "max_value")?;
    let min_length = opt::<i64>(j, "min_length")?;
    let max_length = opt::<i64>(j, "max_length")?;
    let autocomplete = opt::<bool>(j, "autocomplete")?;
    let r = ApplicationCommandOption {
        application_command_option_type,
        name,
        name_localizations,
        description,
        description_localizations,
        required,
        choices,
        options,
        channel_types,
        min_value,
        max_value,
        min_length,
        max_length,
        autocomplete,
    };
    proof {
        lemma_command_option_view(r);
    }
    Ok(r)
}

/// Reads each of `items` as an application command option.
pub fn decode_command_options(
    items: &Vec<Json>,
) -> (r: Result<Vec<ApplicationCommandOption>, DecodeError>)
    ensures
        agrees(r, collect(command_option_outcomes(items_view(items@)))),
    decreases items,
{
    let ghost all = items_view(items@);
    let ghost outcomes = command_option_outcomes(all);
    let mut out: Vec<ApplicationCommandOption> = Vec::new();
    let mut i: usize = 0;
    assert(out.deep_view() =~= Seq::<ApplicationCommandOptionView>::empty());
    assert(outcomes.subrange(0, 0) =~= Seq::<Result<ApplicationCommandOptionView, DecodeError>>::empty());
    while i < items.len()
        invariant
            i <= items@.len(),
            all == items_view(items@),
            outcomes == command_option_outcomes(all),
            collect(outcomes.subrange(0, i as int)) == Ok::<Seq<ApplicationCommandOptionView>, DecodeError>(
                out.deep_view(),
            ),
        decreases items@.len() - i,
    {
        let ghost before = out.deep_view();
        proof {
            assert(all[i as int] == items@[i as int]@);
            lemma_collect_step(outcomes, i as int);
        }
        match decode_command_option(&items[i]) {
            Ok(x) => {
                out.push(x);
                assert(out.deep_view() =~= before.push(x.deep_view()));
            },
            Err(e) => {
                return Err(e);
            },
        }
        i += 1;
    }
    assert(outcomes.subrange(0, i as int) =~= outcomes);
    Ok(out)
}

impl FromJson for ApplicationCommandOption {
    open spec fn decoding(j: JsonView) -> Result<ApplicationCommandOptionView, DecodeError> {
        command_option_decoding(j)
    }

    fn from_json(j: &Json) -> (r: Result<ApplicationCommandOption, DecodeError>) {
        decode_command_option(j)
    }
}

/// The tree that stands for an application command option with the model `m`.
pub open spec fn command_option_encoding(m: ApplicationCommandOptionView) -> JsonView
    decreases m,
{
    JsonView::Object(
        Seq::empty()
            + field::<ApplicationCommandOptionType>("type", m.application_command_option_type)
            + field::<String>("name", m.name)
            + opt_field::<Localizations>("name_localizations", m.name_localizations)
            + field::<String>("description", m.description)
            + opt_field::<Localizations>("description_localizations", m.description_localizations)
            + opt_field::<bool>("required", m.required)
            + filled_field::<ApplicationCommandOptionChoice>("choices", m.choices)
            + (if m.options.len() == 0 {
                Seq::empty()
            } else {
                seq![("options"@, JsonView::Array(command_option_encodings(m.options)))]
            })
            + filled_field::<ChannelType>("channel_types", m.channel_types)
            + opt_field::<MinMaxValue>("min_value", m.min_value)
            + opt_field::<MinMaxValue>("max_value", m.max_value)
            + opt_field::<i64>("min_length", m.min_length)
            + opt_field::<i64>("max_length", m.max_length)
            + opt_field::<bool>("autocomplete", m.autocomplete),
    )
}

/// The trees that stand for the models `ms`, one by one.
pub open spec fn command_option_encodings(ms: Seq<ApplicationCommandOptionView>) -> Seq<JsonView>
    decreases ms,
{
    Seq::new(
        ms.len(),
        |i: int|
            if 0 <= i < ms.len() {
                command_option_encoding(ms[i])
            } else {
                arbitrary()
            },
    )
}

/// Writes `x` as a JSON tree.
pub fn encode_command_option(x: &ApplicationCommandOption) -> (j: Json)
    ensures
        j@ == command_option_encoding(x.deep_view()),
    decreases x,
{
    proof {
        lemma_command_option_view(*x);
    }
    let mut members = no_members();
    put(&mut members, "type", &x.application_command_option_type);
    put(&mut members, "name", &x.name);
    put_opt(&mut members, "name_localizations", &x.name_localizations);
    put(&mut members, "description", &x.description);
    put_opt(&mut members, "description_localizations", &x.description_localizations);
    put_opt(&mut members, "required", &x.required);
    put_filled(&mut members, "choices", &x.choices);
    if x.options.len() > 0 {
        let ghost before = members_view(members@);
        let items = encode_command_options(&x.options);
        let array = Json::Array(items);
        proof {
            lemma_json_view(array);
        }
        members.push(("options".to_owned(), array));
        assert(members_view(members@) =~= before + seq![
            ("options"@, JsonView::Array(command_option_encodings(x.deep_view().options))),
        ]);
    } else {
        assert(members_view(members@) =~= members_view(members@) + Seq::empty());
    }
    put_filled(&mut members, "channel_types", &x.channel_types);
    put_opt(&mut members, "min_value", &x.min_value);
    put_opt(&mut members, "max_value", &x.max_value);
    put_opt(&mut members, "min_length", &x.min_length);
    put_opt(&mut members, "max_length", &x.max_length);
    put_opt(&mut members, "autocomplete", &x.autocomplete);
    object(members)
}

/// Writes each of `xs` as a JSON tree.
pub fn encode_command_options(xs: &Vec<ApplicationCommandOption>) -> (items: Vec<Json>)
    ensures
        items_view(items@) == command_option_encodings(xs.deep_view()),
    decreases xs,
{
    let mut items: Vec<Json> = Vec::new();
    let mut i: usize = 0;
    while i < xs.len()
        invariant
            i <= xs@.len(),
            items@.len() == i,
            forall|k: int| 0 <= k < i ==> (#[trigger] items@[k])@ == command_option_encoding(
                xs@[k].deep_view(),
            ),
        decreases xs@.len() - i,
    {
        items.push(encode_command_option(&xs[i]));
        i += 1;
    }
    assert(items_view(items@) =~= command_option_encodings(xs.deep_view()));
    items
}

impl ToJson for ApplicationCommandOption {
    open spec fn encoding(m: ApplicationCommandOptionView) -> JsonView {
        command_option_encoding(m)
    }

    fn to_json(&self) -> (j: Json) {
        encode_command_option(self)
    }
}

/// Whether `m` comes back from its tree.
pub open spec fn command_option_faithful(m: ApplicationCommandOptionView) -> bool
    decreases m,
{
    &&& Vec::<ApplicationCommandOptionChoice>::faithful(m.choices)
    &&& forall|i: int| 0 <= i < m.options.len() ==> command_option_faithful(#[trigger] m.options[i])
}

/// A tree whose members decode to the fields of `m` decodes to `m`.
proof fn lemma_command_option_assembled(j: JsonView, m: ApplicationCommandOptionView)
    requires
        j is Object,
        required::<ApplicationCommandOptionType>(j, "type") == Ok::<ApplicationCommandOptionType, DecodeError>(
            m.application_command_option_type,
        ),
        required::<String>(j, "name") == Ok::<Seq<char>, DecodeError>(m.name),
        optional::<Localizations>(j, "name_localizations") == Ok::<Option<Seq<(Seq<char>, Seq<char>)>>, DecodeError>(
            m.name_localizations,
        ),
        required::<String>(j, "description") == Ok::<Seq<char>, DecodeError>(m.description),
        optional::<Localizations>(j, "description_localizations") == Ok::<Option<Seq<(Seq<char>, Seq<char>)>>, DecodeError>(
            m.description_localizations,
        ),
        optional::<bool>(j, "required") == Ok::<Option<bool>, DecodeError>(m.required),
        defaulted::<ApplicationCommandOptionChoice>(j, "choices") == Ok::<Seq<ApplicationCommandOptionChoiceView>, DecodeError>(
            m.choices,
        ),
        (match j.get("options"@) {
            None => Ok(Seq::empty()),
            Some(JsonView::Array(items)) => collect(command_option_outcomes(items)),
            Some(_) => Err(DecodeError::InvalidType("array")),
        }) == Ok::<Seq<ApplicationCommandOptionView>, DecodeError>(m.options),
        defaulted::<ChannelType>(j, "channel_types") == Ok::<Seq<ChannelType>, DecodeError>(
            m.channel_types,
        ),
        optional::<MinMaxValue>(j, "min_value") == Ok::<Option<MinMaxValue>, DecodeError>(
            m.min_value,
        ),
        optional::<MinMaxValue>(j, "max_value") == Ok::<Option<MinMaxValue>, DecodeError>(
            m.max_value,
        ),
        optional::<i64>(j, "min_length") == Ok::<Option<i64>, DecodeError>(m.min_length),
        optional::<i64>(j, "max_length") == Ok::<Option<i64>, DecodeError>(m.max_length),
        optional::<bool>(j, "autocomplete") == Ok::<Option<bool>, DecodeError>(m.autocomplete),
    ensures
        command_option_decoding(j) == Ok::<ApplicationCommandOptionView, DecodeError>(m),
{
}

/// A faithful model is decoded from its own tree, which holds no `null`.
pub proof fn lemma_command_option_round_trip(m: ApplicationCommandOptionView)
    requires
        command_option_faithful(m),
    ensures
        command_option_decoding(command_option_encoding(m)) == Ok::<ApplicationCommandOptionView, DecodeError>(
            m,
        ),
        null_free(command_option_encoding(m)),
    decreases m,
{
    // No two keys are the same.
    reveal_strlit("type");
    reveal_strlit("name");
    reveal_strlit("name_localizations");
    reveal_strlit("description");
    reveal_strlit("description_localizations");
    reveal_strlit("required");
    reveal_strlit("choices");
    reveal_strlit("options");
    reveal_strlit("channel_types");
    reveal_strlit("min_value");
    reveal_strlit("max_value");
    reveal_strlit("min_length");
    reveal_strlit("max_length");
    reveal_strlit("autocomplete");
    assert("type"@.len() == 4 && "type"@[0] == 't');
    assert("name"@.len() == 4 && "name"@[0] == 'n');
    assert("name_localizations"@.len() == 18);
    assert("description"@.len() == 11);
    assert("description_localizations"@.len() == 25);
    assert("required"@.len() == 8);
    assert("choices"@.len() == 7 && "choices"@[0] == 'c');
    assert("options"@.len() == 7 && "options"@[0] == 'o');
    assert("channel_types"@.len() == 13);
    assert("min_value"@.len() == 9 && "min_value"@[1] == 'i');
    assert("max_value"@.len() == 9 && "max_value"@[1] == 'a');
    assert("min_length"@.len() == 10 && "min_length"@[1] == 'i');
    assert("max_length"@.len() == 10 && "max_length"@[1] == 'a');
    assert("autocomplete"@.len() == 12);
    // What the object holds, member by member.
    let s0: Members = Seq::empty();
    ApplicationCommandOptionType::lemma_round_trip(m.application_command_option_type);
    lemma_field::<ApplicationCommandOptionType>("type", m.application_command_option_type);
    let s1 = s0 + field::<ApplicationCommandOptionType>("type", m.application_command_option_type);
    lemma_concat(s0, field::<ApplicationCommandOptionType>(
        "type",
        m.application_command_option_type,
    ));
    String::lemma_round_trip(m.name);
    lemma_field::<String>("name", m.name);
    let s2 = s1 + field::<String>("name", m.name);
    lemma_concat(s1, field::<String>("name", m.name));
    if m.name_localizations is Some {
        Localizations::lemma_round_trip(m.name_localizations->0);
    }
    lemma_opt_field::<Localizations>("name_localizations", m.name_localizations);
    let s3 = s2 + opt_field::<Localizations>("name_localizations", m.name_localizations);
    lemma_concat(s2, opt_field::<Localizations>("name_localizations", m.name_localizations));
    String::lemma_round_trip(m.description);
    lemma_field::<String>("description", m.description);
    let s4 = s3 + field::<String>("description", m.description);
    lemma_concat(s3, field::<String>("description", m.description));
    if m.description_localizations is Some {
        Localizations::lemma_round_trip(m.description_localizations->0);
    }
    lemma_opt_field::<Localizations>("description_localizations", m.description_localizations);
    let s5 = s4 + opt_field::<Localizations>(
        "description_localizations",
        m.description_localizations,
    );
    lemma_concat(s4, opt_field::<Localizations>(
        "description_localizations",
        m.description_localizations,
    ));
    if m.required is Some {
        bool::lemma_round_trip(m.required->0);
    }
    lemma_opt_field::<bool>("required", m.required);
    let s6 = s5 + opt_field::<bool>("required", m.required);
    lemma_concat(s5, opt_field::<bool>("required", m.required));
    Vec::<ApplicationCommandOptionChoice>::lemma_round_trip(m.choices);
    if m.choices.len() == 0 {
        assert(m.choices =~= Seq::empty());
    }
    lemma_filled_field::<ApplicationCommandOptionChoice>("choices", m.choices);
    let s7 = s6 + filled_field::<ApplicationCommandOptionChoice>("choices", m.choices);
    lemma_concat(s6, filled_field::<ApplicationCommandOptionChoice>("choices", m.choices));
    lemma_command_options_round_trip(m.options);
    let piece: Members = if m.options.len() == 0 {
        Seq::empty()
    } else {
        seq![("options"@, JsonView::Array(command_option_encodings(m.options)))]
    };
    if m.options.len() > 0 {
        lemma_one("options"@, JsonView::Array(command_option_encodings(m.options)));
    } else {
        lemma_object(piece);
    }
    if m.options.len() == 0 {
        assert(m.options =~= Seq::empty());
    }
    let s8 = s7 + piece;
    lemma_concat(s7, piece);
    Vec::<ChannelType>::lemma_round_trip(m.channel_types);
    if m.channel_types.len() == 0 {
        assert(m.channel_types =~= Seq::empty());
    }
    lemma_filled_field::<ChannelType>("channel_types", m.channel_types);
    let s9 = s8 + filled_field::<ChannelType>("channel_types", m.channel_types);
    lemma_concat(s8, filled_field::<ChannelType>("channel_types", m.channel_types));
    if m.min_value is Some {
        MinMaxValue::lemma_round_trip(m.min_value->0);
    }
    lemma_opt_field::<MinMaxValue>("min_value", m.min_value);
    let s10 = s9 + opt_field::<MinMaxValue>("min_value", m.min_value);
    lemma_concat(s9, opt_field::<MinMaxValue>("min_value", m.min_value));
    if m.max_value is Some {
        MinMaxValue::lemma_round_trip(m.max_value->0);
    }
    lemma_opt_field::<MinMaxValue>("max_value", m.max_value);
    let s11 = s10 + opt_field::<MinMaxValue>("max_value", m.max_value);
    lemma_concat(s10, opt_field::<MinMaxValue>("max_value", m.max_value));
    if m.min_length is Some {
        i64::lemma_round_trip(m.min_length->0);
    }
    lemma_opt_field::<i64>("min_length", m.min_length);
    let s12 = s11 + opt_field::<i64>("min_length", m.min_length);
    lemma_concat(s11, opt_field::<i64>("min_length", m.min_length));
    if m.max_length is Some {
        i64::lemma_round_trip(m.max_length->0);
    }
    lemma_opt_field::<i64>("max_length", m.max_length);
    let s13 = s12 + opt_field::<i64>("max_length", m.max_length);
    lemma_concat(s12, opt_field::<i64>("max_length", m.max_length));
    if m.autocomplete is Some {
        bool::lemma_round_trip(m.autocomplete->0);
    }
    lemma_opt_field::<bool>("autocomplete", m.autocomplete);
    let s14 = s13 + opt_field::<bool>("autocomplete", m.autocomplete);
    lemma_concat(s13, opt_field::<bool>("autocomplete", m.autocomplete));
    lemma_object(s14);
    // What each member decodes to.
    let j = JsonView::Object(s14);
    lemma_required_back::<ApplicationCommandOptionType>(
        j,
        "type",
        m.application_command_option_type,
    );
    lemma_required_back::<String>(j, "name", m.name);
    lemma_optional_back::<Localizations>(j, "name_localizations", m.name_localizations);
    lemma_required_back::<String>(j, "description", m.description);
    lemma_optional_back::<Localizations>(
        j,
        "description_localizations",
        m.description_localizations,
    );
    lemma_optional_back::<bool>(j, "required", m.required);
    lemma_defaulted_back::<ApplicationCommandOptionChoice>(j, "choices", m.choices);
    lemma_defaulted_back::<ChannelType>(j, "channel_types", m.channel_types);
    lemma_optional_back::<MinMaxValue>(j, "min_value", m.min_value);
    lemma_optional_back::<MinMaxValue>(j, "max_value", m.max_value);
    lemma_optional_back::<i64>(j, "min_length", m.min_length);
    lemma_optional_back::<i64>(j, "max_length", m.max_length);
    lemma_optional_back::<bool>(j, "autocomplete", m.autocomplete);
    lemma_command_option_assembled(j, m);
}

/// Faithful models are decoded from their own trees, which hold no `null`.
pub proof fn lemma_command_options_round_trip(ms: Seq<ApplicationCommandOptionView>)
    requires
        forall|i: int| 0 <= i < ms.len() ==> command_option_faithful(#[trigger] ms[i]),
    ensures
        collect(command_option_outcomes(command_option_encodings(ms))) == Ok::<Seq<ApplicationCommandOptionView>, DecodeError>(
            ms,
        ),
        null_free(JsonView::Array(command_option_encodings(ms))),
    decreases ms,
{
    let trees = command_option_encodings(ms);
    assert forall|i: int| 0 <= i < ms.len() implies command_option_decoding(#[trigger] trees[i]) == Ok::<
        ApplicationCommandOptionView,
        DecodeError,
    >(ms[i]) && null_free(trees[i]) by {
        lemma_command_option_round_trip(ms[i]);
    }
    lemma_collect_values(command_option_outcomes(trees), ms);
}

impl RoundTrip for ApplicationCommandOption {
    open spec fn faithful(m: ApplicationCommandOptionView) -> bool {
        command_option_faithful(m)
    }

    proof fn lemma_round_trip(m: ApplicationCommandOptionView) {
        lemma_command_option_round_trip(m);
    }
}

/// The kind of value an option takes.
#[derive(Debug, Clone, Copy, PartialEq, Eq, Structural)]
pub enum ApplicationCommandOptionType {
    SubCommand,
    SubCommandGroup,
    String,
    Integer,
    Boolean,
    User,
    Channel,
    Role,
    Mentionable,
    Number,
    Attachment,
}

impl DeepView for ApplicationCommandOptionType {
    type V = ApplicationCommandOptionType;

    open spec fn deep_view(&self) -> ApplicationCommandOptionType {
        *self
    }
}

impl ApplicationCommandOptionType {
    /// The number that stands for the variant on the wire.
    pub open spec fn spec_tag(self) -> u64 {
        match self {
            ApplicationCommandOptionType::SubCommand => 1,
            ApplicationCommandOptionType::SubCommandGroup => 2,
            ApplicationCommandOptionType::String => 3,
            ApplicationCommandOptionType::Integer => 4,
            ApplicationCommandOptionType::Boolean => 5,
            ApplicationCommandOptionType::User => 6,
            ApplicationCommandOptionType::Channel => 7,
            ApplicationCommandOptionType::Role => 8,
            ApplicationCommandOptionType::Mentionable => 9,
            ApplicationCommandOptionType::Number => 10,
            ApplicationCommandOptionType::Attachment => 11,
        }
    }

    /// The variant that `tag` stands for, if any.
    pub open spec fn spec_from_tag(tag: u64) -> Option<ApplicationCommandOptionType> {
        if tag == 1 {
            Some(ApplicationCommandOptionType::SubCommand)
        } else if tag == 2 {
            Some(ApplicationCommandOptionType::SubCommandGroup)
        } else if tag == 3 {
            Some(ApplicationCommandOptionType::String)
        } else if tag == 4 {
            Some(ApplicationCommandOptionType::Integer)
        } else if tag == 5 {
            Some(ApplicationCommandOptionType::Boolean)
        } else if tag == 6 {
            Some(ApplicationCommandOptionType::User)
        } else if tag == 7 {
            Some(ApplicationCommandOptionType::Channel)
        } else if tag == 8 {
            Some(ApplicationCommandOptionType::Role)
        } else if tag == 9 {
            Some(ApplicationCommandOptionType::Mentionable)
        } else if tag == 10 {
            Some(ApplicationCommandOptionType::Number)
        } else if tag == 11 {
            Some(ApplicationCommandOptionType::Attachment)
        } else {
            None
        }
    }

    /// The variant that stands where none is given.
    pub open spec fn spec_default() -> ApplicationCommandOptionType {
        ApplicationCommandOptionType::SubCommand
    }

    /// The number that stands for the variant on the wire.
    pub fn tag(&self) -> (r: u64)
        ensures
            r == self.spec_tag(),
    {
        match self {
            ApplicationCommandOptionType::SubCommand => 1,
            ApplicationCommandOptionType::SubCommandGroup => 2,
            ApplicationCommandOptionType::String => 3,
            ApplicationCommandOptionType::Integer => 4,
            ApplicationCommandOptionType::Boolean => 5,
            ApplicationCommandOptionType::User => 6,
            ApplicationCommandOptionType::Channel => 7,
            ApplicationCommandOptionType::Role => 8,
            ApplicationCommandOptionType::Mentionable => 9,
            ApplicationCommandOptionType::Number => 10,
            ApplicationCommandOptionType::Attachment => 11,
        }
    }

    /// The variant that `tag` stands for, if any.
    pub fn from_tag(tag: u64) -> (r: Option<ApplicationCommandOptionType>)
        ensures
            r == Self::spec_from_tag(tag),
    {
        if tag == 1 {
            Some(ApplicationCommandOptionType::SubCommand)
        } else if tag == 2 {
            Some(ApplicationCommandOptionType::SubCommandGroup)
        } else if tag == 3 {
            Some(ApplicationCommandOptionType::String)
        } else if tag == 4 {
            Some(ApplicationCommandOptionType::Integer)
        } else if tag == 5 {
            Some(ApplicationCommandOptionType::Boolean)
        } else if tag == 6 {
            Some(ApplicationCommandOptionType::User)
        } else if tag == 7 {
            Some(ApplicationCommandOptionType::Channel)
        } else if tag == 8 {
            Some(ApplicationCommandOptionType::Role)
        } else if tag == 9 {
            Some(ApplicationCommandOptionType::Mentionable)
        } else if tag == 10 {
            Some(ApplicationCommandOptionType::Number)
        } else if tag == 11 {
            Some(ApplicationCommandOptionType::Attachment)
        } else {
            None
        }
    }

    /// Every variant is found again from its tag.
    pub proof fn lemma_tag_round_trip(self)
        ensures
            Self::spec_from_tag(self.spec_tag()) == Some(self),
    {
    }
}

impl Default for ApplicationCommandOptionType {
    fn default() -> (r: ApplicationCommandOptionType)
        ensures
            r == ApplicationCommandOptionType::spec_default(),
    {
        ApplicationCommandOptionType::SubCommand
    }
}

impl FromJson for ApplicationCommandOptionType {
    open spec fn decoding(j: JsonView) -> Result<ApplicationCommandOptionType, DecodeError> {
        match u64::decoding(j) {
            Err(e) => Err(e),
            Ok(tag) => match ApplicationCommandOptionType::spec_from_tag(tag) {
                Some(v) => Ok(v),
                None => Err(DecodeError::UnknownVariant("ApplicationCommandOptionType", tag)),
            },
        }
    }

    fn from_json(j: &Json) -> (r: Result<ApplicationCommandOptionType, DecodeError>) {
        let tag = u64::from_json(j)?;
        match ApplicationCommandOptionType::from_tag(tag) {
            Some(v) => Ok(v),
            None => Err(DecodeError::UnknownVariant("ApplicationCommandOptionType", tag)),
        }
    }
}

impl ToJson for ApplicationCommandOptionType {
    open spec fn encoding(m: ApplicationCommandOptionType) -> JsonView {
        JsonView::Number(JsonNumber::Unsigned(m.spec_tag()))
    }

    fn to_json(&self) -> (j: Json) {
        Json::Number(JsonNumber::Unsigned(self.tag()))
    }
}

impl RoundTrip for ApplicationCommandOptionType {
    open spec fn faithful(m: ApplicationCommandOptionType) -> bool {
        true
    }

    proof fn lemma_round_trip(m: ApplicationCommandOptionType) {
        m.lemma_tag_round_trip();
    }
}

/// A value offered for an option, with the name shown for it.
#[derive(Debug, Clone, PartialEq, Eq)]
pub struct ApplicationCommandOptionChoice {
    pub name: String,
    pub value: ApplicationCommandOptionChoiceValue,
}

/// The model of [`ApplicationCommandOptionChoice`].
pub struct ApplicationCommandOptionChoiceView {
    pub name: Seq<char>,
    pub value: ApplicationCommandOptionChoiceValueView,
}

impl DeepView for ApplicationCommandOptionChoice {
    type V = ApplicationCommandOptionChoiceView;

    open spec fn deep_view(&self) -> ApplicationCommandOptionChoiceView {
        ApplicationCommandOptionChoiceView {
            name: self.name.deep_view(),
            value: self.value.deep_view(),
        }
    }
}

impl FromJson for ApplicationCommandOptionChoice {
    open spec fn decoding(j: JsonView) -> Result<ApplicationCommandOptionChoiceView, DecodeError> {
        let name = required::<String>(j, "name");
        let value = required::<ApplicationCommandOptionChoiceValue>(j, "value");
        if object_fault(j) is Some {
            Err(object_fault(j)->0)
        } else if name is Err {
            Err(name->Err_0)
        } else if value is Err {
            Err(value->Err_0)
        } else {
            Ok(
                ApplicationCommandOptionChoiceView {
                    name: name->Ok_0,
                    value: value->Ok_0,
                },
            )
        }
    }

    fn from_json(j: &Json) -> (r: Result<ApplicationCommandOptionChoice, DecodeError>) {
        expect_object(j)?;
        let name = req::<String>(j, "name")?;
        let value = req::<ApplicationCommandOptionChoiceValue>(j, "value")?;
        Ok(ApplicationCommandOptionChoice { name, value })
    }
}

impl ToJson for ApplicationCommandOptionChoice {
    open spec fn encoding(m: ApplicationCommandOptionChoiceView) -> JsonView {
        JsonView::Object(
            Seq::empty()
                + field::<String>("name", m.name)
                + field::<ApplicationCommandOptionChoiceValue>("value", m.value),
        )
    }

    fn to_json(&self) -> (j: Json) {
        let mut members = no_members();
        put(&mut members, "name", &self.name);
        put(&mut members, "value", &self.value);
        object(members)
    }
}

impl RoundTrip for ApplicationCommandOptionChoice {
    open spec fn faithful(m: ApplicationCommandOptionChoiceView) -> bool {
        &&& ApplicationCommandOptionChoiceValue::faithful(m.value)
    }

    proof fn lemma_round_trip(m: ApplicationCommandOptionChoiceView) {
        // No two keys are the same.
        reveal_strlit("name");
        reveal_strlit("value");
        assert("name"@.len() == 4);
        assert("value"@.len() == 5);
        // What the object holds, member by member.
        let s0: Members = Seq::empty();
        String::lemma_round_trip(m.name);
        lemma_field::<String>("name", m.name);
        let s1 = s0 + field::<String>("name", m.name);
        lemma_concat(s0, field::<String>("name", m.name));
        ApplicationCommandOptionChoiceValue::lemma_round_trip(m.value);
        lemma_field::<ApplicationCommandOptionChoiceValue>("value", m.value);
        let s2 = s1 + field::<ApplicationCommandOptionChoiceValue>("value", m.value);
        lemma_concat(s1, field::<ApplicationCommandOptionChoiceValue>("value", m.value));
        lemma_object(s2);
        // What each member decodes to.
        let j = JsonView::Object(s2);
        lemma_required_back::<String>(j, "name", m.name);
        lemma_required_back::<ApplicationCommandOptionChoiceValue>(j, "value", m.value);
    }
}

/// A value that a user may pick for an option: a text, a whole number, or
/// any other number.
#[derive(Debug, Clone, PartialEq, Eq)]
pub enum ApplicationCommandOptionChoiceValue {
    String(String),
    Integer(i64),
    Double(JsonNumber),
}

/// The model of [`ApplicationCommandOptionChoiceValue`].
pub enum ApplicationCommandOptionChoiceValueView {
    String(Seq<char>),
    Integer(i64),
    Double(JsonNumber),
}

impl DeepView for ApplicationCommandOptionChoiceValue {
    type V = ApplicationCommandOptionChoiceValueView;

    open spec fn deep_view(&self) -> ApplicationCommandOptionChoiceValueView {
        match self {
            ApplicationCommandOptionChoiceValue::String(s) => {
                ApplicationCommandOptionChoiceValueView::String(s@)
            },
            ApplicationCommandOptionChoiceValue::Integer(n) => {
                ApplicationCommandOptionChoiceValueView::Integer(*n)
            },
            ApplicationCommandOptionChoiceValue::Double(n) => {
                ApplicationCommandOptionChoiceValueView::Double(*n)
            },
        }
    }
}

impl FromJson for ApplicationCommandOptionChoiceValue {
    /// A text is a text; a number that fits 64 signed bits is a whole
    /// number; any other number is kept as it is written.
    open spec fn decoding(j: JsonView) -> Result<
        ApplicationCommandOptionChoiceValueView,
        DecodeError,
    > {
        match j {
            JsonView::String(s) => Ok(ApplicationCommandOptionChoiceValueView::String(s)),
            JsonView::Number(n) => match i64::decoding(j) {
                Ok(i) => Ok(ApplicationCommandOptionChoiceValueView::Integer(i)),
                Err(_) => Ok(ApplicationCommandOptionChoiceValueView::Double(n)),
            },
            _ => Err(DecodeError::InvalidType("string or number")),
        }
    }

    fn from_json(j: &Json) -> (r: Result<ApplicationCommandOptionChoiceValue, DecodeError>) {
        match j {
            Json::String(s) => Ok(ApplicationCommandOptionChoiceValue::String(s.clone())),
            Json::Number(n) => match i64::from_json(j) {
                Ok(i) => Ok(ApplicationCommandOptionChoiceValue::Integer(i)),
                Err(_) => Ok(ApplicationCommandOptionChoiceValue::Double(*n)),
            },
            _ => Err(DecodeError::InvalidType("string or number")),
        }
    }
}

impl ToJson for ApplicationCommandOptionChoiceValue {
    open spec fn encoding(m: ApplicationCommandOptionChoiceValueView) -> JsonView {
        match m {
            ApplicationCommandOptionChoiceValueView::String(s) => JsonView::String(s),
            ApplicationCommandOptionChoiceValueView::Integer(n) => i64::encoding(n),
            ApplicationCommandOptionChoiceValueView::Double(n) => JsonView::Number(n),
        }
    }

    fn to_json(&self) -> (j: Json) {
        match self {
            ApplicationCommandOptionChoiceValue::String(s) => Json::String(s.clone()),
            ApplicationCommandOptionChoiceValue::Integer(n) => n.to_json(),
            ApplicationCommandOptionChoiceValue::Double(n) => Json::Number(*n),
        }
    }
}

impl RoundTrip for ApplicationCommandOptionChoiceValue {
    /// A number kept as it is written comes back only if it is no whole
    /// number that fits 64 signed bits: such a one is read as `Integer`.
    open spec fn faithful(m: ApplicationCommandOptionChoiceValueView) -> bool {
        m matches ApplicationCommandOptionChoiceValueView::Double(n) ==> i64::decoding(
            JsonView::Number(n),
        ) is Err
    }

    proof fn lemma_round_trip(m: ApplicationCommandOptionChoiceValueView) {
    }
}

/// A bound on what a user may enter for a numeric option. On the wire it
/// is an object with the one member `Integer` or `Number`.
#[derive(Debug, Clone, Copy, PartialEq, Eq, Structural)]
pub enum MinMaxValue {
    Integer(i64),
    Number(JsonNumber),
}

impl DeepView for MinMaxValue {
    type V = MinMaxValue;

    open spec fn deep_view(&self) -> MinMaxValue {
        *self
    }
}

impl FromJson for MinMaxValue {
    open spec fn decoding(j: JsonView) -> Result<MinMaxValue, DecodeError> {
        match j.get("Integer"@) {
            Some(m) => match i64::decoding(m) {
                Ok(n) => Ok(MinMaxValue::Integer(n)),
                Err(e) => Err(e),
            },
            None => match j.get("Number"@) {
                Some(m) => match JsonNumber::decoding(m) {
                    Ok(n) => Ok(MinMaxValue::Number(n)),
                    Err(e) => Err(e),
                },
                None => Err(DecodeError::InvalidValue("MinMaxValue")),
            },
        }
    }

    fn from_json(j: &Json) -> (r: Result<MinMaxValue, DecodeError>) {
        match j.get("Integer") {
            Some(m) => match i64::from_json(m) {
                Ok(n) => Ok(MinMaxValue::Integer(n)),
                Err(e) => Err(e),
            },
            None => match j.get("Number") {
                Some(m) => match JsonNumber::from_json(m) {
                    Ok(n) => Ok(MinMaxValue::Number(n)),
                    Err(e) => Err(e),
                },
                None => Err(DecodeError::InvalidValue("MinMaxValue")),
            },
        }
    }
}

impl ToJson for MinMaxValue {
    open spec fn encoding(m: MinMaxValue) -> JsonView {
        match m {
            MinMaxValue::Integer(n) => JsonView::Object(field::<i64>("Integer", n)),
            MinMaxValue::Number(n) => JsonView::Object(field::<JsonNumber>("Number", n)),
        }
    }

    fn to_json(&self) -> (j: Json) {
        let mut members = no_members();
        match self {
            MinMaxValue::Integer(n) => {
                put(&mut members, "Integer", n);
            },
            MinMaxValue::Number(n) => {
                put(&mut members, "Number", n);
            },
        }
        let j = object(members);
        assert(j@->Object_0 =~= Self::encoding(self.deep_view())->Object_0);
        j
    }
}

impl RoundTrip for MinMaxValue {
    open spec fn faithful(m: MinMaxValue) -> bool {
        true
    }

    proof fn lemma_round_trip(m: MinMaxValue) {
        reveal_strlit("Integer");
        reveal_strlit("Number");
        assert("Integer"@.len() == 7);
        assert("Number"@.len() == 6);
        match m {
            MinMaxValue::Integer(n) => {
                lemma_field::<i64>("Integer", n);
                lemma_object(field::<i64>("Integer", n));
            },
            MinMaxValue::Number(n) => {
                lemma_field::<JsonNumber>("Number", n);
                lemma_object(field::<JsonNumber>("Number", n));
            },
        }
    }
}

} // verus!
