use discordant::channel::ChannelType;
use discordant::component::{ButtonStyle, Component, ComponentType};
use discordant::decode::{DecodeError, FromJson};
use discordant::interaction::{
    decode_data_option, ApplicationCommandInteractionDataOption, Interaction, InteractionType,
};
use discordant::json::{Json, JsonNumber};
use discordant::snowflake::Snowflake;
use discordant::user::User;

fn parse(text: &str) -> Json {
    Json::parse(text).unwrap()
}

fn depth(option: &ApplicationCommandInteractionDataOption) -> usize {
    let children = match option {
        ApplicationCommandInteractionDataOption::SubCommand { options, .. } => options.as_slice(),
        ApplicationCommandInteractionDataOption::SubCommandGroup { options, .. } => {
            options.as_slice()
        }
        ApplicationCommandInteractionDataOption::Channel(variant) => variant.options.as_slice(),
        _ => &[],
    };
    1 + children.iter().map(depth).max().unwrap_or(0)
}

#[test]
fn json_text_becomes_a_tree() {
    assert_eq!(parse("null"), Json::Null);
    assert_eq!(parse("true"), Json::Bool(true));
    assert_eq!(parse("17"), Json::Number(JsonNumber::Unsigned(17)));
    assert_eq!(parse("-17"), Json::Number(JsonNumber::Negative(-17)));
    assert_eq!(parse("1.5"), Json::Number(JsonNumber::Float(1.5f64.to_bits())));
    assert_eq!(parse("18446744073709551615"), Json::Number(JsonNumber::Unsigned(u64::MAX)));
    assert_eq!(parse("\"a\\nb\""), Json::String(String::from("a\nb")));
    assert_eq!(
        parse("[1, \"x\", []]"),
        Json::Array(vec![
            Json::Number(JsonNumber::Unsigned(1)),
            Json::String(String::from("x")),
            Json::Array(vec![]),
        ])
    );
    assert_eq!(
        parse("{\"a\": {\"b\": false}}"),
        Json::Object(vec![(
            String::from("a"),
            Json::Object(vec![(String::from("b"), Json::Bool(false))])
        )])
    );
}

#[test]
fn text_that_is_no_json_has_no_tree() {
    assert_eq!(Json::parse(""), None);
    assert_eq!(Json::parse("{"), None);
    assert_eq!(Json::parse("{\"a\":}"), None);
    assert_eq!(Json::parse("nul"), None);
    assert_eq!(Json::parse("1 2"), None);
}

#[test]
fn members_are_found_by_key() {
    let j = parse("{\"type\": 2, \"name\": \"x\", \"Type\": 3}");
    assert_eq!(j.get("type"), Some(&Json::Number(JsonNumber::Unsigned(2))));
    assert_eq!(j.get("Type"), Some(&Json::Number(JsonNumber::Unsigned(3))));
    assert_eq!(j.get("name"), Some(&Json::String(String::from("x"))));
    assert_eq!(j.get("nam"), None);
    assert_eq!(parse("[1]").get("type"), None);
    let twice = Json::Object(vec![
        (String::from("k"), Json::Bool(true)),
        (String::from("k"), Json::Bool(false)),
    ]);
    assert_eq!(twice.get("k"), Some(&Json::Bool(true)));
}

#[test]
fn a_sub_command_with_two_leaves_is_a_tree_of_depth_two() {
    let j = parse(
        "{\"type\": 1, \"name\": \"set\", \"options\": [
            {\"type\": 3, \"name\": \"key\", \"value\": \"colour\"},
            {\"type\": 4, \"name\": \"amount\", \"value\": 42}
        ]}",
    );
    let option = decode_data_option(&j).unwrap();
    assert_eq!(depth(&option), 2);
    assert_eq!(
        option,
        ApplicationCommandInteractionDataOption::SubCommand {
            name: String::from("set"),
            options: vec![
                ApplicationCommandInteractionDataOption::String {
                    name: String::from("key"),
                    value: Some(String::from("colour")),
                },
                ApplicationCommandInteractionDataOption::Integer {
                    name: String::from("amount"),
                    value: Some(42),
                },
            ],
        }
    );
    assert_eq!(ApplicationCommandInteractionDataOption::from_json(&j).unwrap(), option);
}

#[test]
fn sub_commands_nest_to_any_depth() {
    let j = parse(
        "{\"type\": 2, \"name\": \"a\", \"options\": [
            {\"type\": 1, \"name\": \"b\", \"options\": [
                {\"type\": 5, \"name\": \"c\", \"value\": true}
            ]}
        ]}",
    );
    let option = decode_data_option(&j).unwrap();
    assert_eq!(depth(&option), 3);
    assert_eq!(
        option,
        ApplicationCommandInteractionDataOption::SubCommandGroup {
            name: String::from("a"),
            options: vec![ApplicationCommandInteractionDataOption::SubCommand {
                name: String::from("b"),
                options: vec![ApplicationCommandInteractionDataOption::Boolean {
                    name: String::from("c"),
                    value: Some(true),
                }],
            }],
        }
    );
}

#[test]
fn an_unknown_discriminant_is_a_decode_error() {
    let j = parse("{\"type\": 99, \"name\": \"x\"}");
    assert_eq!(
        decode_data_option(&j),
        Err(DecodeError::UnknownVariant("ApplicationCommandInteractionDataOption", 99))
    );
    for tag in [0u64, 9, 11, 12, u64::MAX] {
        let j = Json::Object(vec![
            (String::from("type"), Json::Number(JsonNumber::Unsigned(tag))),
            (String::from("name"), Json::String(String::from("x"))),
        ]);
        assert_eq!(
            decode_data_option(&j),
            Err(DecodeError::UnknownVariant("ApplicationCommandInteractionDataOption", tag))
        );
    }
    let nested = parse(
        "{\"type\": 1, \"name\": \"x\", \"options\": [{\"type\": 99, \"name\": \"y\"}]}",
    );
    assert_eq!(
        decode_data_option(&nested),
        Err(DecodeError::UnknownVariant("ApplicationCommandInteractionDataOption", 99))
    );
}

#[test]
fn an_option_needs_its_discriminant_and_its_name() {
    assert_eq!(
        decode_data_option(&parse("{\"name\": \"x\"}")),
        Err(DecodeError::MissingField("type"))
    );
    assert_eq!(
        decode_data_option(&parse("{\"type\": \"3\", \"name\": \"x\"}")),
        Err(DecodeError::MissingField("type"))
    );
    assert_eq!(
        decode_data_option(&parse("{\"type\": -1, \"name\": \"x\"}")),
        Err(DecodeError::MissingField("type"))
    );
    assert_eq!(decode_data_option(&parse("{\"type\": 3}")), Err(DecodeError::MissingField("name")));
    assert_eq!(
        decode_data_option(&parse("{\"type\": 3, \"name\": 5}")),
        Err(DecodeError::MissingField("name"))
    );
    // The discriminant is read first.
    assert_eq!(decode_data_option(&parse("{}")), Err(DecodeError::MissingField("type")));
    assert_eq!(decode_data_option(&parse("[]")), Err(DecodeError::MissingField("type")));
}

#[test]
fn each_discriminant_has_its_variant() {
    let of = |text: &str| decode_data_option(&parse(text)).unwrap();
    let name = || String::from("n");
    assert_eq!(
        of("{\"type\": 1, \"name\": \"n\"}"),
        ApplicationCommandInteractionDataOption::SubCommand { name: name(), options: vec![] }
    );
    assert_eq!(
        of("{\"type\": 2, \"name\": \"n\"}"),
        ApplicationCommandInteractionDataOption::SubCommandGroup { name: name(), options: vec![] }
    );
    assert_eq!(
        of("{\"type\": 3, \"name\": \"n\", \"value\": \"v\"}"),
        ApplicationCommandInteractionDataOption::String {
            name: name(),
            value: Some(String::from("v"))
        }
    );
    assert_eq!(
        of("{\"type\": 4, \"name\": \"n\", \"value\": -7}"),
        ApplicationCommandInteractionDataOption::Integer { name: name(), value: Some(-7) }
    );
    assert_eq!(
        of("{\"type\": 5, \"name\": \"n\", \"value\": false}"),
        ApplicationCommandInteractionDataOption::Boolean { name: name(), value: Some(false) }
    );
    assert_eq!(
        of("{\"type\": 6, \"name\": \"n\", \"value\": \"123\"}"),
        ApplicationCommandInteractionDataOption::User {
            name: name(),
            value: Some(Snowflake::new(123))
        }
    );
    assert_eq!(
        of("{\"type\": 8, \"name\": \"n\", \"value\": \"456\"}"),
        ApplicationCommandInteractionDataOption::Role {
            name: name(),
            value: Some(String::from("456"))
        }
    );
    assert_eq!(
        of("{\"type\": 10, \"name\": \"n\", \"value\": 2.5}"),
        ApplicationCommandInteractionDataOption::Number {
            name: name(),
            value: Some(JsonNumber::Float(2.5f64.to_bits()))
        }
    );
    assert_eq!(
        of("{\"type\": 10, \"name\": \"n\", \"value\": 3}"),
        ApplicationCommandInteractionDataOption::Number {
            name: name(),
            value: Some(JsonNumber::Unsigned(3))
        }
    );
}

#[test]
fn a_value_of_another_type_counts_as_not_given() {
    let of = |text: &str| decode_data_option(&parse(text)).unwrap();
    let name = || String::from("n");
    assert_eq!(
        of("{\"type\": 3, \"name\": \"n\", \"value\": 5}"),
        ApplicationCommandInteractionDataOption::String { name: name(), value: None }
    );
    assert_eq!(
        of("{\"type\": 3, \"name\": \"n\"}"),
        ApplicationCommandInteractionDataOption::String { name: name(), value: None }
    );
    assert_eq!(
        of("{\"type\": 4, \"name\": \"n\", \"value\": \"5\"}"),
        ApplicationCommandInteractionDataOption::Integer { name: name(), value: None }
    );
    assert_eq!(
        of("{\"type\": 4, \"name\": \"n\", \"value\": 18446744073709551615}"),
        ApplicationCommandInteractionDataOption::Integer { name: name(), value: None }
    );
    assert_eq!(
        of("{\"type\": 4, \"name\": \"n\", \"value\": 1.5}"),
        ApplicationCommandInteractionDataOption::Integer { name: name(), value: None }
    );
    assert_eq!(
        of("{\"type\": 5, \"name\": \"n\", \"value\": 1}"),
        ApplicationCommandInteractionDataOption::Boolean { name: name(), value: None }
    );
    assert_eq!(
        of("{\"type\": 6, \"name\": \"n\", \"value\": 7}"),
        ApplicationCommandInteractionDataOption::User { name: name(), value: None }
    );
    assert_eq!(
        of("{\"type\": 1, \"name\": \"n\", \"options\": 7}"),
        ApplicationCommandInteractionDataOption::SubCommand { name: name(), options: vec![] }
    );
}

#[test]
fn a_user_option_that_is_no_identifier_is_a_decode_error() {
    assert_eq!(
        decode_data_option(&parse("{\"type\": 6, \"name\": \"n\", \"value\": \"abc\"}")),
        Err(DecodeError::InvalidValue("snowflake"))
    );
}

#[test]
fn a_channel_option_carries_the_channel() {
    let option = decode_data_option(&parse(
        "{\"type\": 7, \"name\": \"where\", \"value\": {\"id\": \"5\", \"type\": 0, \"name\": \"general\"},
          \"options\": [{\"type\": 5, \"name\": \"deep\", \"value\": true}]}",
    ))
    .unwrap();
    match option {
        ApplicationCommandInteractionDataOption::Channel(variant) => {
            assert_eq!(variant.name, "where");
            let channel = variant.value.unwrap();
            assert_eq!(channel.id, Snowflake::new(5));
            assert_eq!(channel.channel_type, ChannelType::GuildText);
            assert_eq!(channel.name, Some(String::from("general")));
            assert_eq!(channel.recipients.len(), 0);
            assert_eq!(variant.options.len(), 1);
        }
        other => panic!("not a channel: {:?}", other),
    }
    let bare = decode_data_option(&parse("{\"type\": 7, \"name\": \"where\"}")).unwrap();
    match bare {
        ApplicationCommandInteractionDataOption::Channel(variant) => {
            assert!(variant.value.is_none());
        }
        other => panic!("not a channel: {:?}", other),
    }
    assert_eq!(
        decode_data_option(&parse("{\"type\": 7, \"name\": \"where\", \"value\": {\"id\": \"5\"}}")),
        Err(DecodeError::MissingField("type"))
    );
    assert_eq!(
        decode_data_option(&parse("{\"type\": 7, \"name\": \"where\", \"value\": null}")),
        Err(DecodeError::InvalidType("object"))
    );
}

#[test]
fn plain_options_have_a_short_text() {
    let text = ApplicationCommandInteractionDataOption::String {
        name: String::from("key"),
        value: Some(String::from("a \"b\"\n")),
    };
    assert_eq!(text.to_string(), "key-Some(\"a \\\"b\\\"\\n\")");
    let none = ApplicationCommandInteractionDataOption::String {
        name: String::from("key"),
        value: None,
    };
    assert_eq!(none.to_string(), "key-None");
    let integer = |value| ApplicationCommandInteractionDataOption::Integer {
        name: String::from("n"),
        value,
    };
    assert_eq!(integer(Some(42)).to_string(), "n-Some(42)");
    assert_eq!(integer(Some(0)).to_string(), "n-Some(0)");
    assert_eq!(integer(Some(-7)).to_string(), "n-Some(-7)");
    assert_eq!(integer(Some(i64::MIN)).to_string(), "n-Some(-9223372036854775808)");
    assert_eq!(integer(Some(i64::MAX)).to_string(), "n-Some(9223372036854775807)");
    assert_eq!(integer(None).to_string(), "n-None");
    let boolean = |value| ApplicationCommandInteractionDataOption::Boolean {
        name: String::from("b"),
        value,
    };
    assert_eq!(boolean(Some(true)).to_string(), "b-Some(true)");
    assert_eq!(boolean(Some(false)).to_string(), "b-Some(false)");
    assert_eq!(boolean(None).to_string(), "b-None");
}

#[test]
fn snowflakes_are_decimal_texts() {
    assert_eq!(Snowflake::parse("0"), Some(Snowflake::new(0)));
    assert_eq!(Snowflake::parse("175928847299117063"), Some(Snowflake::new(175928847299117063)));
    assert_eq!(Snowflake::parse("+12"), Some(Snowflake::new(12)));
    assert_eq!(Snowflake::parse("007"), Some(Snowflake::new(7)));
    assert_eq!(Snowflake::parse("18446744073709551615"), Some(Snowflake::new(u64::MAX)));
    assert_eq!(Snowflake::parse("18446744073709551616"), None);
    assert_eq!(Snowflake::parse("99999999999999999999999"), None);
    assert_eq!(Snowflake::parse(""), None);
    assert_eq!(Snowflake::parse("+"), None);
    assert_eq!(Snowflake::parse("-1"), None);
    assert_eq!(Snowflake::parse("12a"), None);
    assert_eq!(Snowflake::parse(" 12"), None);
    assert_eq!(Snowflake::parse("1+2"), None);
    assert_eq!(Snowflake::from_json(&parse("\"42\"")), Ok(Snowflake::new(42)));
    assert_eq!(Snowflake::from_json(&parse("42")), Err(DecodeError::InvalidType("string")));
    assert_eq!(Snowflake::from_json(&parse("\"x\"")), Err(DecodeError::InvalidValue("snowflake")));
}

#[test]
fn snowflakes_tell_their_time_and_bytes() {
    assert_eq!(Snowflake::new(0).timestamp(), 1420070400000);
    assert_eq!(Snowflake::new(175928847299117063).timestamp(), 1462015105796);
    assert_eq!(Snowflake::new(1 << 22).timestamp(), 1420070400001);
    assert_eq!(Snowflake::new(u64::MAX).timestamp(), 1420070400000 - 1);
    assert_eq!(Snowflake::new(1 << 63).timestamp(), 1420070400000 - (1i64 << 41));
    for v in [0u64, 1, 255, 256, 175928847299117063, u64::MAX, 1 << 63] {
        assert_eq!(Snowflake::new(v).timestamp(), ((v as i64) >> 22) + 1420070400000);
        assert_eq!(Snowflake::new(v).bytes(), v.to_le_bytes());
        assert_eq!(Snowflake::new(v).to_string(), v.to_string());
    }
    assert_eq!(Snowflake::new(0x0102030405060708).bytes(), [8, 7, 6, 5, 4, 3, 2, 1]);
}

#[test]
fn a_user_is_read_from_its_object() {
    let user = User::from_json(&parse(
        "{\"id\": \"80351110224678912\", \"username\": \"Nelly\", \"discriminator\": \"1337\",
          \"avatar\": null, \"bot\": true, \"public_flags\": 64, \"unknown\": [1, 2]}",
    ))
    .unwrap();
    assert_eq!(user.id, Snowflake::new(80351110224678912));
    assert_eq!(user.username, "Nelly");
    assert_eq!(user.discriminator, "1337");
    assert_eq!(user.avatar, None);
    assert_eq!(user.bot, Some(true));
    assert_eq!(user.public_flags, Some(64));
    assert_eq!(user.email, None);
}

#[test]
fn each_fault_of_a_record_has_its_error() {
    assert_eq!(User::from_json(&parse("[]")), Err(DecodeError::InvalidType("object")));
    assert_eq!(User::from_json(&parse("{}")), Err(DecodeError::MissingField("id")));
    assert_eq!(
        User::from_json(&parse("{\"id\": \"1\", \"discriminator\": \"0\"}")),
        Err(DecodeError::MissingField("username"))
    );
    assert_eq!(
        User::from_json(&parse("{\"id\": 1, \"username\": \"a\", \"discriminator\": \"0\"}")),
        Err(DecodeError::InvalidType("string"))
    );
    assert_eq!(
        User::from_json(&parse(
            "{\"id\": \"1\", \"username\": \"a\", \"discriminator\": \"0\", \"bot\": 1}"
        )),
        Err(DecodeError::InvalidType("boolean"))
    );
    assert_eq!(
        User::from_json(&parse(
            "{\"id\": \"1\", \"username\": \"a\", \"discriminator\": \"0\", \"flags\": -1}"
        )),
        Err(DecodeError::InvalidValue("unsigned integer"))
    );
    assert_eq!(
        User::from_json(&parse(
            "{\"id\": \"1\", \"username\": \"a\", \"discriminator\": \"0\", \"flags\": \"1\"}"
        )),
        Err(DecodeError::InvalidType("unsigned integer"))
    );
    // The first fault in the order of the fields is reported.
    assert_eq!(
        User::from_json(&parse("{\"username\": 1, \"bot\": 1}")),
        Err(DecodeError::MissingField("id"))
    );
    assert_eq!(
        InteractionType::from_json(&parse("6")),
        Err(DecodeError::UnknownVariant("InteractionType", 6))
    );
    assert_eq!(InteractionType::from_json(&parse("3")), Ok(InteractionType::MessageComponent));
    assert_eq!(Vec::<u64>::from_json(&parse("{}")), Err(DecodeError::InvalidType("array")));
    assert_eq!(Vec::<u64>::from_json(&parse("[1, 2]")), Ok(vec![1, 2]));
    assert_eq!(
        Vec::<u64>::from_json(&parse("[1, \"a\", -1]")),
        Err(DecodeError::InvalidType("unsigned integer"))
    );
    assert_eq!(i64::from_json(&parse("9223372036854775808")), Err(DecodeError::InvalidValue("integer")));
    assert_eq!(i64::from_json(&parse("-9223372036854775808")), Ok(i64::MIN));
}

#[test]
fn a_component_tree_is_read() {
    let row = Component::from_json(&parse(
        "{\"type\": 1, \"components\": [
            {\"type\": 2, \"style\": 4, \"label\": \"Stop\", \"custom_id\": \"stop\"},
            {\"type\": 3, \"custom_id\": \"pick\", \"options\": [{\"label\": \"A\", \"value\": \"a\"}]}
        ]}",
    ))
    .unwrap();
    assert_eq!(row.component_type, ComponentType::ActionRow);
    assert_eq!(row.components.len(), 2);
    assert_eq!(row.components[0].style, Some(ButtonStyle::Danger));
    assert_eq!(row.components[0].label, Some(String::from("Stop")));
    assert_eq!(row.components[1].options.len(), 1);
    assert_eq!(row.components[1].options[0].value, "a");
    assert_eq!(
        Component::from_json(&parse("{\"type\": 1, \"components\": {}}")),
        Err(DecodeError::InvalidType("array"))
    );
    assert_eq!(
        Component::from_json(&parse("{\"type\": 1, \"components\": [{\"type\": 2}, {}]}")),
        Err(DecodeError::MissingField("type"))
    );
}

#[test]
fn an_interaction_is_read_with_its_data() {
    let interaction = Interaction::from_json(&parse(
        "{\"id\": \"1\", \"application_id\": \"2\", \"type\": 2, \"token\": \"tok\", \"version\": 1,
          \"guild_id\": \"3\",
          \"member\": {\"roles\": [\"10\", \"11\"], \"joined_at\": \"2020\",
                       \"user\": {\"id\": \"4\", \"username\": \"u\", \"discriminator\": \"0\"}},
          \"data\": {\"id\": \"5\", \"name\": \"roll\", \"type\": 1,
                     \"options\": [{\"type\": 4, \"name\": \"sides\", \"value\": 6}],
                     \"resolved\": {\"users\": {\"4\": {\"id\": \"4\", \"username\": \"u\", \"discriminator\": \"0\"}}}}}",
    ))
    .unwrap();
    assert_eq!(interaction.interaction_type, InteractionType::ApplicationCommand);
    assert_eq!(interaction.token, "tok");
    assert_eq!(interaction.guild_id, Some(Snowflake::new(3)));
    let member = interaction.member.unwrap();
    assert_eq!(member.roles, vec![Snowflake::new(10), Snowflake::new(11)]);
    let data = interaction.data.unwrap();
    assert_eq!(data.name, Some(String::from("roll")));
    assert_eq!(
        data.options,
        vec![ApplicationCommandInteractionDataOption::Integer {
            name: String::from("sides"),
            value: Some(6)
        }]
    );
    let users = data.resolved.unwrap().users.unwrap();
    assert_eq!(users.get(Snowflake::new(4)).unwrap().username, "u");
    assert!(users.get(Snowflake::new(5)).is_none());
    assert!(interaction.message.is_none());
}

#[test]
fn an_interaction_that_lacks_a_field_is_refused() {
    assert_eq!(
        Interaction::from_json(&parse("{\"type\": 1}")),
        Err(DecodeError::MissingField("id"))
    );
    assert_eq!(
        Interaction::from_json(&parse(
            "{\"id\": \"1\", \"application_id\": \"2\", \"type\": 9, \"token\": \"t\", \"version\": 1}"
        )),
        Err(DecodeError::UnknownVariant("InteractionType", 9))
    );
    assert_eq!(
        Interaction::from_json(&parse(
            "{\"id\": \"1\", \"application_id\": \"2\", \"type\": 2, \"token\": \"t\", \"version\": 1,
              \"data\": {\"options\": [{\"type\": 99, \"name\": \"x\"}]}}"
        )),
        Err(DecodeError::UnknownVariant("ApplicationCommandInteractionDataOption", 99))
    );
}
