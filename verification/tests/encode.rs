use discordant::application_command::{
    ApplicationCommand, ApplicationCommandOption, ApplicationCommandOptionChoice,
    ApplicationCommandOptionChoiceValue, ApplicationCommandOptionType, ApplicationCommandTypeDef,
    MinMaxValue,
};
use discordant::channel::{
    AllowedMentions, Attachment, ChannelType, Embed, EmbedField, EmbedFooter, EmbedType,
};
use discordant::component::{ButtonStyle, Component, ComponentType, SelectOption};
use discordant::decode::FromJson;
use discordant::emoji::Emoji;
use discordant::encode::ToJson;
use discordant::handler::pong;
use discordant::interaction_response::{
    InteractionCallbackData, InteractionCallbackDataFlags, InteractionCallbackType,
    InteractionResponse,
};
use discordant::json::{Json, JsonNumber};
use discordant::maps::Localizations;
use discordant::permission::{Role, RoleTags};
use discordant::snowflake::Snowflake;
use discordant::user::User;

fn tree(text: &str) -> Json {
    Json::parse(text).unwrap()
}

fn member(key: &str, value: Json) -> (String, Json) {
    (String::from(key), value)
}

fn text(s: &str) -> Json {
    Json::String(String::from(s))
}

fn number(n: u64) -> Json {
    Json::Number(JsonNumber::Unsigned(n))
}

fn has_null(j: &Json) -> bool {
    match j {
        Json::Null => true,
        Json::Array(items) => items.iter().any(has_null),
        Json::Object(members) => members.iter().any(|(_, v)| has_null(v)),
        _ => false,
    }
}

#[test]
fn a_pong_is_only_its_kind() {
    assert_eq!(pong().to_json(), Json::Object(vec![member("type", number(1))]));
}

#[test]
fn a_new_response_is_a_message_without_data() {
    let response = InteractionResponse::new();
    assert_eq!(response.response_type, InteractionCallbackType::ChannelMessageWithSource);
    assert!(response.data.is_none());
    assert_eq!(response.to_json(), Json::Object(vec![member("type", number(4))]));
    assert_eq!(InteractionResponse::default(), response);
}

#[test]
fn fields_that_are_not_set_are_left_out() {
    let response = InteractionResponse::new().data(InteractionCallbackData::new());
    assert_eq!(
        response.to_json(),
        Json::Object(vec![member("type", number(4)), member("data", Json::Object(vec![]))])
    );
    let response = InteractionResponse::new()
        .response_type(InteractionCallbackType::UpdateMessage)
        .data(InteractionCallbackData::new().content("hi").flags(InteractionCallbackDataFlags::Ephemeral));
    assert_eq!(
        response.to_json(),
        Json::Object(vec![
            member("type", number(7)),
            member(
                "data",
                Json::Object(vec![member("content", text("hi")), member("flags", number(64))])
            ),
        ])
    );
}

#[test]
fn a_full_response_has_every_member_in_order() {
    let response = InteractionResponse::new().data(
        InteractionCallbackData::new()
            .tts(false)
            .content("text")
            .embed(Embed { title: Some(String::from("t")), ..Embed::default() })
            .allowed_mentions(AllowedMentions {
                parse: vec![String::from("users")],
                roles: vec![],
                users: vec![Snowflake::new(7)],
                replied_user: true,
            })
            .flags(InteractionCallbackDataFlags::SuppressEmbeds)
            .component(
                Component::new().component(
                    Component::new()
                        .component_type(ComponentType::Button)
                        .style(ButtonStyle::Primary)
                        .label("Go")
                        .custom_id("go"),
                ),
            )
            .attachments(Attachment {
                id: Snowflake::new(9),
                filename: String::from("a.png"),
                description: None,
                content_type: None,
                size: 3,
                url: String::from("u"),
                proxy_url: String::from("p"),
                height: None,
                width: Some(2),
                ephemeral: None,
            }),
    );
    let expected = tree(
        "{\"type\": 4, \"data\": {
            \"tts\": false,
            \"content\": \"text\",
            \"embeds\": [{\"title\": \"t\"}],
            \"allowed_mentions\": {\"parse\": [\"users\"], \"roles\": [], \"users\": [\"7\"], \"replied_user\": true},
            \"flags\": 4,
            \"components\": [{\"type\": 1, \"components\": [
                {\"type\": 2, \"custom_id\": \"go\", \"style\": 1, \"label\": \"Go\"}]}],
            \"attachments\": [{\"id\": \"9\", \"filename\": \"a.png\", \"size\": 3, \"url\": \"u\",
                               \"proxy_url\": \"p\", \"width\": 2}]
        }}",
    );
    let encoded = response.to_json();
    assert!(!has_null(&encoded));
    // The parser hands members out sorted by key; compare member by member.
    let data = encoded.get("data").unwrap();
    let expected_data = expected.get("data").unwrap();
    for key in ["tts", "content", "embeds", "flags"] {
        assert_eq!(data.get(key), expected_data.get(key), "{}", key);
    }
    assert_eq!(
        data.get("allowed_mentions").unwrap().get("users"),
        Some(&Json::Array(vec![text("7")]))
    );
    assert_eq!(data.get("allowed_mentions").unwrap().get("roles"), Some(&Json::Array(vec![])));
    match &encoded {
        Json::Object(members) => {
            assert_eq!(members.len(), 2);
            assert_eq!(members[0].0, "type");
            assert_eq!(members[1].0, "data");
            match &members[1].1 {
                Json::Object(inner) => {
                    let keys: Vec<&str> = inner.iter().map(|(k, _)| k.as_str()).collect();
                    assert_eq!(
                        keys,
                        vec![
                            "tts",
                            "content",
                            "embeds",
                            "allowed_mentions",
                            "flags",
                            "components",
                            "attachments"
                        ]
                    );
                }
                other => panic!("{:?}", other),
            }
        }
        other => panic!("{:?}", other),
    }
}

#[test]
fn a_component_comes_back_as_it_went_out() {
    let row = Component::new()
        .component(
            Component::new()
                .component_type(ComponentType::Button)
                .custom_id("stop")
                .disabled(true)
                .style(ButtonStyle::Danger)
                .label("Stop")
                .emoji(Emoji { name: Some(String::from("x")), ..Emoji::default() })
                .url("https://example.test"),
        )
        .component(
            Component::new()
                .component_type(ComponentType::SelectMenu)
                .custom_id("pick")
                .placeholder("Pick")
                .min_values(1)
                .max_values(-2)
                .option(SelectOption {
                    label: String::from("A"),
                    value: String::from("a"),
                    description: Some(String::from("first")),
                    emoji: None,
                    default: Some(true),
                })
                .option(SelectOption {
                    label: String::from("B"),
                    value: String::from("b"),
                    description: None,
                    emoji: None,
                    default: None,
                }),
        );
    let encoded = row.to_json();
    assert!(!has_null(&encoded));
    assert_eq!(Component::from_json(&encoded), Ok(row));
    assert_eq!(Component::from_json(&Component::new().to_json()), Ok(Component::new()));
    assert_eq!(Component::new().to_json(), Json::Object(vec![member("type", number(1))]));
}

#[test]
fn shared_records_come_back_as_they_went_out() {
    let user = User {
        id: Snowflake::new(u64::MAX),
        username: String::from("n"),
        discriminator: String::from("0001"),
        global_name: None,
        avatar: Some(String::from("a")),
        bot: Some(false),
        system: None,
        mfa_enabled: None,
        banner: None,
        accent_color: Some(0),
        locale: None,
        verified: None,
        email: None,
        flags: None,
        premium_type: None,
        public_flags: Some(u64::MAX),
        avatar_decoration: None,
    };
    assert_eq!(User::from_json(&user.to_json()).as_ref(), Ok(&user));
    let role = Role {
        id: Snowflake::new(1),
        name: String::from("r"),
        color: 255,
        hoist: true,
        position: 2,
        permissions: String::from("8"),
        managed: false,
        mentionable: true,
        tags: Some(RoleTags { bot_id: Some(Snowflake::new(3)), integration_id: None, premium_subscriber: None }),
    };
    assert_eq!(Role::from_json(&role.to_json()).as_ref(), Ok(&role));
    let emoji = Emoji {
        id: Some(Snowflake::new(4)),
        name: Some(String::from("e")),
        roles: vec![role.clone()],
        user: Some(user.clone()),
        require_colons: None,
        managed: None,
        animated: Some(true),
        available: None,
    };
    assert!(!has_null(&emoji.to_json()));
    assert_eq!(Emoji::from_json(&emoji.to_json()), Ok(emoji));
    let embed = Embed {
        title: Some(String::from("t")),
        embed_type: Some(EmbedType::Article),
        color: Some(0xff00ff),
        footer: Some(EmbedFooter { text: String::from("f"), icon_url: None, proxy_icon_url: None }),
        fields: vec![EmbedField { name: String::from("n"), value: String::from("v"), inline: Some(true) }],
        ..Embed::default()
    };
    assert_eq!(
        embed.to_json().get("type"),
        Some(&text("article"))
    );
    assert_eq!(Embed::from_json(&embed.to_json()), Ok(embed));
    assert_eq!(Embed::default().to_json(), Json::Object(vec![]));
    assert_eq!(Embed::from_json(&tree("{}")), Ok(Embed::default()));
}

#[test]
fn a_role_without_tags_has_no_member_for_them() {
    let role = Role {
        id: Snowflake::new(1),
        name: String::from("r"),
        color: 0,
        hoist: false,
        position: 0,
        permissions: String::from("0"),
        managed: false,
        mentionable: false,
        tags: None,
    };
    assert_eq!(role.to_json().get("tags"), None);
    assert!(!has_null(&role.to_json()));
}

#[test]
fn a_command_is_written_for_registration() {
    let command = ApplicationCommand::new("roll")
        .description("Rolls a die")
        .description_localizations(Localizations::new().insert("de", "Würfelt"))
        .application_command_type(ApplicationCommandTypeDef::ChatInput)
        .dm_permission(false)
        .default_permission(true)
        .default_member_permissions("8")
        .nsfw(false)
        .option(
            ApplicationCommandOption::new("sides")
                .application_command_option_type(ApplicationCommandOptionType::Integer)
                .description("How many sides")
                .required(true)
                .min_value(MinMaxValue::Integer(2))
                .max_value(MinMaxValue::Number(JsonNumber::Float(100.5f64.to_bits())))
                .min_length(1)
                .max_length(3)
                .autocomplete(false)
                .channel_type(ChannelType::GuildText)
                .name_localizations(Localizations::new().insert("de", "seiten"))
                .description_localizations(Localizations::new())
                .choice(ApplicationCommandOptionChoice {
                    name: String::from("six"),
                    value: ApplicationCommandOptionChoiceValue::Integer(6),
                })
                .choice(ApplicationCommandOptionChoice {
                    name: String::from("many"),
                    value: ApplicationCommandOptionChoiceValue::String(String::from("many")),
                })
                .option(ApplicationCommandOption::new("inner").name("renamed")),
        );
    let encoded = command.to_json();
    assert_eq!(encoded.get("name"), Some(&text("roll")));
    assert_eq!(encoded.get("type"), Some(&number(1)));
    assert_eq!(
        encoded.get("description_localizations"),
        Some(&Json::Object(vec![member("de", text("Würfelt"))]))
    );
    assert_eq!(encoded.get("name_localizations"), None);
    assert!(!has_null(&encoded));
    match encoded.get("options") {
        Some(Json::Array(options)) => {
            assert_eq!(options.len(), 1);
            assert_eq!(options[0].get("type"), Some(&number(4)));
            assert_eq!(
                options[0].get("min_value"),
                Some(&Json::Object(vec![member("Integer", number(2))]))
            );
            assert_eq!(
                options[0].get("choices"),
                Some(&Json::Array(vec![
                    Json::Object(vec![member("name", text("six")), member("value", number(6))]),
                    Json::Object(vec![member("name", text("many")), member("value", text("many"))]),
                ]))
            );
            assert_eq!(options[0].get("channel_types"), Some(&Json::Array(vec![number(0)])));
            match options[0].get("options") {
                Some(Json::Array(inner)) => assert_eq!(inner[0].get("name"), Some(&text("renamed"))),
                other => panic!("{:?}", other),
            }
        }
        other => panic!("{:?}", other),
    }
    assert_eq!(ApplicationCommand::from_json(&encoded), Ok(command));
    let bare = ApplicationCommand::new("x");
    assert_eq!(
        bare.to_json(),
        Json::Object(vec![member("name", text("x")), member("description", text(""))])
    );
    assert_eq!(ApplicationCommand::new("x").name("y").name, "y");
}

#[test]
fn numbers_keep_their_sign() {
    assert_eq!(5i64.to_json(), number(5));
    assert_eq!((-5i64).to_json(), Json::Number(JsonNumber::Negative(-5)));
    assert_eq!(0i64.to_json(), number(0));
    assert_eq!(Snowflake::new(12).to_json(), text("12"));
    assert_eq!(true.to_json(), Json::Bool(true));
    assert_eq!(vec![1u64, 2].to_json(), Json::Array(vec![number(1), number(2)]));
    assert_eq!(i64::from_json(&(-5i64).to_json()), Ok(-5));
    assert_eq!(i64::from_json(&i64::MAX.to_json()), Ok(i64::MAX));
}

#[test]
fn each_flag_is_its_bit() {
    let flags = [
        (InteractionCallbackDataFlags::Crossposted, 1),
        (InteractionCallbackDataFlags::IsCrosspost, 2),
        (InteractionCallbackDataFlags::SuppressEmbeds, 4),
        (InteractionCallbackDataFlags::SourceMessageDeleted, 8),
        (InteractionCallbackDataFlags::Urgent, 16),
        (InteractionCallbackDataFlags::HasThread, 32),
        (InteractionCallbackDataFlags::Ephemeral, 64),
        (InteractionCallbackDataFlags::Loading, 128),
        (InteractionCallbackDataFlags::FailedToMentionSomeRolesInThread, 256),
    ];
    for (flag, bit) in flags {
        assert_eq!(flag.tag(), bit);
        assert_eq!(flag.to_json(), number(bit));
        assert_eq!(InteractionCallbackDataFlags::from_tag(bit), Some(flag));
    }
    assert_eq!(InteractionCallbackDataFlags::from_tag(3), None);
    assert_eq!(ChannelType::from_tag(10), Some(ChannelType::GuildNewsThread));
    assert_eq!(ChannelType::from_tag(7), None);
    assert_eq!(ChannelType::GuildStageVoice.tag(), 13);
    assert_eq!(EmbedType::from_name("gifv"), Some(EmbedType::Gifv));
    assert_eq!(EmbedType::from_name("Gifv"), None);
    assert_eq!(EmbedType::Link.name(), "link");
}
