use discordant::{
    ApplicationCommand, ApplicationCommandOptionChoiceValue, Channel, ChannelType, CommandHandler,
    Component, ComponentHandler, ComponentType, DecodeError, DiscordHandler, DiscordVerify, Embed,
    Emoji, FromJson, GuildMember, GuildMemberUpdate, Interaction, InteractionCallbackData,
    InteractionResponse, Json, JsonNumber, Localizations, Message, MessageType, MinMaxValue,
    Nonce, Resolved, Role, RoleTags, Snowflake, Status, Step, ToJson, User,
};

fn read(text: &str) -> Json {
    Json::parse(text).unwrap()
}

fn never(_state: (), _interaction: Interaction) -> Result<InteractionResponse, Status> {
    Err(Status::NotImplemented)
}

type Plain = fn((), Interaction) -> Result<InteractionResponse, Status>;

#[test]
fn a_plan_names_the_handler_without_calling_it() {
    let handlers: DiscordHandler<Plain> = DiscordHandler::new()
        .command(CommandHandler::new(ApplicationCommand::new("roll"), never as Plain))
        .component(("stop", ComponentHandler::new(never as Plain)));
    let body = read(
        "{\"id\": \"1\", \"application_id\": \"2\", \"type\": 2, \"token\": \"t\", \"version\": 1, \
          \"data\": {\"name\": \"roll\"}}",
    );
    match handlers.plan(DiscordVerify::Valid, Some(body)) {
        Step::Call(handler, interaction) => {
            assert_eq!(interaction.token, "t");
            assert_eq!(handler((), interaction), Err(Status::NotImplemented));
        }
        _ => panic!("no call"),
    }
    let part = read(
        "{\"id\": \"1\", \"application_id\": \"2\", \"type\": 3, \"token\": \"u\", \"version\": 1, \
          \"data\": {\"custom_id\": \"stop\"}}",
    );
    match handlers.plan_interaction(Interaction::from_json(&part).unwrap()) {
        Step::Call(_, interaction) => assert_eq!(interaction.token, "u"),
        _ => panic!("no call"),
    }
    assert!(matches!(
        handlers.plan(DiscordVerify::Invalid, Some(part)),
        Step::Fail(Status::Unauthorized)
    ));
    assert!(matches!(handlers.plan(DiscordVerify::Valid, None), Step::Fail(Status::BadRequest)));
    assert!(matches!(
        handlers.plan(DiscordVerify::Valid, Some(read("{\"type\": 7}"))),
        Step::Fail(Status::BadRequest)
    ));
    match handlers.plan(DiscordVerify::Valid, Some(read("{\"type\": 1}"))) {
        Step::Respond(response) => assert_eq!(response, discordant::pong()),
        _ => panic!("no pong"),
    }
    let unknown = read(
        "{\"id\": \"1\", \"application_id\": \"2\", \"type\": 2, \"token\": \"t\", \"version\": 1, \
          \"data\": {\"name\": \"flip\"}}",
    );
    assert!(matches!(
        handlers.plan(DiscordVerify::Valid, Some(unknown)),
        Step::Fail(Status::InternalError)
    ));
}

#[test]
fn texts_in_several_languages_keep_their_order() {
    let texts = Localizations::from_json(&read("{\"fr\": \"oui\", \"de\": \"ja\"}")).unwrap();
    // The parser hands members out sorted by key.
    assert_eq!(
        texts.entries,
        vec![(String::from("de"), String::from("ja")), (String::from("fr"), String::from("oui"))]
    );
    assert_eq!(Localizations::from_json(&texts.to_json()), Ok(texts));
    assert_eq!(
        Localizations::from_json(&read("{\"fr\": 1}")),
        Err(DecodeError::InvalidType("string"))
    );
    assert_eq!(Localizations::from_json(&read("[]")), Err(DecodeError::InvalidType("object")));
    let built = Localizations::new().insert("b", "2").insert("a", "1");
    assert_eq!(
        built.to_json(),
        Json::Object(vec![
            (String::from("b"), Json::String(String::from("2"))),
            (String::from("a"), Json::String(String::from("1"))),
        ])
    );
}

#[test]
fn resolved_records_are_found_by_identifier() {
    let roles = Resolved::<Role>::from_json(&read(
        "{\"7\": {\"id\": \"7\", \"name\": \"a\", \"color\": 1, \"hoist\": false, \"position\": 2,
                  \"permissions\": \"0\", \"managed\": false, \"mentionable\": true},
          \"+7\": {\"id\": \"7\", \"name\": \"b\", \"color\": 1, \"hoist\": false, \"position\": 2,
                  \"permissions\": \"0\", \"managed\": false, \"mentionable\": true, \"tags\": {}}}",
    ))
    .unwrap();
    assert_eq!(roles.entries.len(), 2);
    // Of two entries with one identifier the last counts.
    let last = &roles.entries[1].1;
    assert_eq!(roles.get(Snowflake::new(7)), Some(last));
    assert_eq!(roles.get(Snowflake::new(8)), None);
    assert_eq!(
        Resolved::<Role>::from_json(&read("{\"x\": {}}")),
        Err(DecodeError::InvalidValue("snowflake"))
    );
    assert_eq!(
        Resolved::<Role>::from_json(&read("{\"7\": {}}")),
        Err(DecodeError::MissingField("id"))
    );
    assert_eq!(Resolved::<Role>::from_json(&read("7")), Err(DecodeError::InvalidType("object")));
}

#[test]
fn a_message_is_read_with_the_message_it_answers() {
    let message = Message::from_json(&read(
        "{\"id\": \"2\", \"channel_id\": \"9\", \"content\": \"re\", \"timestamp\": \"t2\",
          \"author\": {\"id\": \"4\", \"username\": \"u\", \"discriminator\": \"0\"},
          \"tts\": false, \"mention_everyone\": false, \"mentions\": [], \"mention_roles\": [],
          \"attachments\": [], \"embeds\": [{\"title\": \"e\"}], \"pinned\": true, \"type\": 19,
          \"nonce\": \"abc\",
          \"components\": [{\"type\": 1}],
          \"referenced_message\": {
              \"id\": \"1\", \"channel_id\": \"9\", \"content\": \"first\", \"timestamp\": \"t1\",
              \"author\": {\"id\": \"5\", \"username\": \"v\", \"discriminator\": \"0\"},
              \"tts\": false, \"mention_everyone\": false, \"mentions\": [], \"mention_roles\": [],
              \"attachments\": [], \"embeds\": [], \"pinned\": false, \"type\": 0, \"nonce\": 17,
              \"referenced_message\": null}}",
    ))
    .unwrap();
    assert_eq!(message.message_type, MessageType::Reply);
    assert_eq!(message.nonce, Some(Nonce::String(String::from("abc"))));
    assert_eq!(message.embeds[0].title, Some(String::from("e")));
    assert_eq!(message.components[0].component_type, ComponentType::ActionRow);
    let first = message.referenced_message.unwrap();
    assert_eq!(first.content, "first");
    assert_eq!(first.nonce, Some(Nonce::Integer(17)));
    assert_eq!(first.message_type, MessageType::Default);
    assert!(first.referenced_message.is_none());
    assert_eq!(
        Message::from_json(&read("{\"id\": \"2\", \"channel_id\": \"9\"}")),
        Err(DecodeError::MissingField("author"))
    );
    assert_eq!(
        Nonce::from_json(&read("1.5")),
        Err(DecodeError::InvalidType("unsigned integer or string"))
    );
}

#[test]
fn a_channel_is_read_with_its_kind() {
    let channel = Channel::from_json(&read(
        "{\"id\": \"1\", \"type\": 11, \"name\": \"thread\",
          \"thread_metadata\": {\"archived\": false, \"auto_archive_duration\": 60,
                                \"archive_timestamp\": \"t\", \"locked\": true},
          \"permission_overwrites\": [{\"id\": \"2\", \"type\": 1, \"allow\": \"1\", \"deny\": \"0\"}]}",
    ))
    .unwrap();
    assert_eq!(channel.channel_type, ChannelType::GuildPublicThread);
    assert!(channel.thread_metadata.unwrap().locked);
    assert_eq!(channel.permission_overwrites.len(), 1);
    assert_eq!(
        Channel::from_json(&read("{\"id\": \"1\", \"type\": 7}")),
        Err(DecodeError::UnknownVariant("ChannelType", 7))
    );
}

#[test]
fn what_is_new_has_nothing_set() {
    assert_eq!(Component::new(), Component::default());
    assert_eq!(Component::new().component_type, ComponentType::ActionRow);
    assert!(Component::new().components.is_empty());
    assert!(InteractionCallbackData::new().content.is_none());
    assert!(InteractionCallbackData::new().embeds.is_empty());
    assert_eq!(InteractionCallbackData::new(), InteractionCallbackData::default());
    assert_eq!(ApplicationCommand::new("x").description, "");
    assert_eq!(ApplicationCommand::default().name, "");
    assert_eq!(Embed::default().fields.len(), 0);
    assert_eq!(Emoji::default().name, None);
    assert_eq!(GuildMember::default().joined_at, "");
    assert_eq!(GuildMemberUpdate::default().roles.len(), 0);
}

#[test]
fn an_update_without_roles_does_not_come_back() {
    let update = GuildMemberUpdate {
        nick: Some(String::from("n")),
        roles: vec![Snowflake::new(1)],
        ..GuildMemberUpdate::default()
    };
    assert_eq!(GuildMemberUpdate::from_json(&update.to_json()), Ok(update));
    let bare = GuildMemberUpdate::default();
    assert_eq!(bare.to_json(), Json::Object(vec![]));
    assert_eq!(
        GuildMemberUpdate::from_json(&bare.to_json()),
        Err(DecodeError::MissingField("roles"))
    );
}

#[test]
fn a_unit_that_is_set_is_written_as_null_and_read_as_not_set() {
    let tags = RoleTags { bot_id: None, integration_id: None, premium_subscriber: Some(()) };
    assert_eq!(
        tags.to_json(),
        Json::Object(vec![(String::from("premium_subscriber"), Json::Null)])
    );
    assert_eq!(
        RoleTags::from_json(&tags.to_json()),
        Ok(RoleTags { bot_id: None, integration_id: None, premium_subscriber: None })
    );
    assert_eq!(
        RoleTags::from_json(&read("{\"premium_subscriber\": true}")),
        Err(DecodeError::InvalidType("null"))
    );
}

#[test]
fn a_value_is_read_from_its_text() {
    assert_eq!(discordant::from_text::<u64>("17"), Ok(17));
    assert_eq!(discordant::from_text::<u64>("17 18"), Err(DecodeError::Syntax));
    assert_eq!(discordant::from_text::<u64>(""), Err(DecodeError::Syntax));
    assert_eq!(
        discordant::from_text::<u64>("\"17\""),
        Err(DecodeError::InvalidType("unsigned integer"))
    );
    let user = discordant::from_text::<User>(
        "{\"id\": \"3\", \"username\": \"u\", \"discriminator\": \"0\"}",
    )
    .unwrap();
    assert_eq!(user.id, Snowflake::new(3));
    assert_eq!(discordant::from_text::<User>("{\"id\": \"3\""), Err(DecodeError::Syntax));
}

#[test]
fn a_choice_that_is_a_whole_number_is_read_as_one() {
    let kept = ApplicationCommandOptionChoiceValue::Double(JsonNumber::Float(1.5f64.to_bits()));
    assert_eq!(ApplicationCommandOptionChoiceValue::from_json(&kept.to_json()), Ok(kept));
    let large = ApplicationCommandOptionChoiceValue::Double(JsonNumber::Unsigned(u64::MAX));
    assert_eq!(ApplicationCommandOptionChoiceValue::from_json(&large.to_json()), Ok(large));
    let whole = ApplicationCommandOptionChoiceValue::Double(JsonNumber::Unsigned(5));
    assert_eq!(
        ApplicationCommandOptionChoiceValue::from_json(&whole.to_json()),
        Ok(ApplicationCommandOptionChoiceValue::Integer(5))
    );
    assert_eq!(
        ApplicationCommandOptionChoiceValue::from_json(&read("true")),
        Err(DecodeError::InvalidType("string or number"))
    );
}

#[test]
fn bounds_are_objects_with_one_member() {
    assert_eq!(MinMaxValue::from_json(&read("{\"Integer\": -3}")), Ok(MinMaxValue::Integer(-3)));
    assert_eq!(
        MinMaxValue::from_json(&read("{\"Number\": 7}")),
        Ok(MinMaxValue::Number(JsonNumber::Unsigned(7)))
    );
    assert_eq!(
        MinMaxValue::from_json(&read("{\"Other\": 7}")),
        Err(DecodeError::InvalidValue("MinMaxValue"))
    );
    assert_eq!(
        MinMaxValue::from_json(&read("{\"Integer\": 1.5}")),
        Err(DecodeError::InvalidValue("integer"))
    );
    assert_eq!(
        MinMaxValue::from_json(&read("{\"Number\": \"7\"}")),
        Err(DecodeError::InvalidType("number"))
    );
    let bound = MinMaxValue::Number(JsonNumber::Float(0.5f64.to_bits()));
    assert_eq!(MinMaxValue::from_json(&bound.to_json()), Ok(bound));
}

#[test]
fn a_user_is_written_with_its_identifier_as_text() {
    let user = User::from_json(&read(
        "{\"id\": \"0012\", \"username\": \"u\", \"discriminator\": \"0\"}",
    ))
    .unwrap();
    assert_eq!(user.id, Snowflake::new(12));
    assert_eq!(user.to_json().get("id"), Some(&Json::String(String::from("12"))));
}
