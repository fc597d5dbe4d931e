use discordant::application_command::ApplicationCommand;
use discordant::decode::FromJson;
use discordant::handler::{
    pong, route, CommandHandler, ComponentHandler, DiscordHandler, Route, Status,
};
use discordant::interaction::Interaction;
use discordant::interaction_response::{
    InteractionCallbackData, InteractionCallbackType, InteractionResponse,
};
use discordant::json::Json;
use discordant::signature::{DiscordVerify, State};
use ed25519_dalek::{Keypair, PublicKey, SecretKey, Signer};
use http::header::{HeaderName, HeaderValue};
use http::HeaderMap;
use std::cell::Cell;
use std::rc::Rc;

type Handler = Box<dyn Fn(State, Interaction) -> Result<InteractionResponse, Status>>;

fn to_hex(bytes: &[u8]) -> String {
    let mut out = String::new();
    for b in bytes {
        out.push_str(&format!("{:02x}", b));
    }
    out
}

fn platform_key() -> Keypair {
    let secret = SecretKey::from_bytes(&[42u8; 32]).unwrap();
    let public = PublicKey::from(&secret);
    Keypair { secret, public }
}

fn state() -> State {
    State { public_key: to_hex(platform_key().public.as_bytes()), application_id: String::from("1") }
}

fn signed(timestamp: &str, body: &str) -> HeaderMap {
    let message = format!("{}{}", timestamp, body);
    let signature = platform_key().sign(message.as_bytes()).to_bytes();
    let mut map = HeaderMap::new();
    map.insert(
        HeaderName::from_static("x-signature-ed25519"),
        HeaderValue::from_str(&to_hex(&signature)).unwrap(),
    );
    map.insert(
        HeaderName::from_static("x-signature-timestamp"),
        HeaderValue::from_str(timestamp).unwrap(),
    );
    map
}

fn says(text: &'static str) -> Handler {
    Box::new(move |_state, _interaction| {
        Ok(InteractionResponse::new().data(InteractionCallbackData::new().content(text)))
    })
}

fn counting(count: Rc<Cell<u32>>, text: &'static str) -> Handler {
    Box::new(move |_state, _interaction| {
        count.set(count.get() + 1);
        Ok(InteractionResponse::new().data(InteractionCallbackData::new().content(text)))
    })
}

fn content(response: &InteractionResponse) -> &str {
    response.data.as_ref().unwrap().content.as_ref().unwrap()
}

fn command_body(name: &str) -> String {
    format!(
        "{{\"id\": \"1\", \"application_id\": \"2\", \"type\": 2, \"token\": \"t\", \"version\": 1, \
         \"data\": {{\"id\": \"3\", \"name\": \"{}\"}}}}",
        name
    )
}

fn component_body(custom_id: &str) -> String {
    format!(
        "{{\"id\": \"1\", \"application_id\": \"2\", \"type\": 3, \"token\": \"t\", \"version\": 1, \
         \"data\": {{\"custom_id\": \"{}\", \"component_type\": 2}}}}",
        custom_id
    )
}

fn interaction(body: &str) -> Interaction {
    Interaction::from_json(&Json::parse(body).unwrap()).unwrap()
}

#[test]
fn a_signed_ping_is_answered_with_a_pong() {
    let body = "{\"type\":1}";
    let empty: DiscordHandler<Handler> = DiscordHandler::new();
    let answer = empty.handle_request(state(), String::from(body), signed("1700000000", body));
    assert_eq!(answer, Ok(pong()));
    let answer = answer.unwrap();
    assert_eq!(answer.response_type, InteractionCallbackType::Pong);
    assert!(answer.data.is_none());
}

#[test]
fn a_ping_never_reaches_a_handler() {
    let count = Rc::new(Cell::new(0));
    let full: DiscordHandler<Handler> = DiscordHandler::new()
        .command(CommandHandler::new(ApplicationCommand::new("ping"), counting(count.clone(), "a")))
        .command(CommandHandler::new(ApplicationCommand::new(""), counting(count.clone(), "b")))
        .component(("ping", ComponentHandler::new(counting(count.clone(), "c"))));
    let body = "{\"type\":1}";
    assert_eq!(
        full.handle_request(state(), String::from(body), signed("1700000000", body)),
        Ok(pong())
    );
    let whole = "{\"id\": \"1\", \"application_id\": \"2\", \"type\": 1, \"token\": \"t\", \"version\": 1, \
                 \"data\": {\"name\": \"ping\", \"custom_id\": \"ping\"}}";
    assert_eq!(full.handle_request(state(), String::from(whole), signed("5", whole)), Ok(pong()));
    assert_eq!(full.dispatch(state(), interaction(whole)), Ok(pong()));
    assert_eq!(full.answer(state(), DiscordVerify::Valid, Json::parse(body)), Ok(pong()));
    assert_eq!(count.get(), 0);
}

#[test]
fn an_unsigned_request_is_unauthorized() {
    let count = Rc::new(Cell::new(0));
    let handlers: DiscordHandler<Handler> = DiscordHandler::new()
        .command(CommandHandler::new(ApplicationCommand::new("roll"), counting(count.clone(), "a")));
    let body = command_body("roll");
    assert_eq!(
        handlers.handle_request(state(), body.clone(), HeaderMap::new()),
        Err(Status::Unauthorized)
    );
    assert_eq!(
        handlers.handle_request(state(), body.clone(), signed("1", "{\"type\":1}")),
        Err(Status::Unauthorized)
    );
    assert_eq!(
        handlers.handle_request(state(), String::from("{\"type\":1}"), signed("1", &body)),
        Err(Status::Unauthorized)
    );
    // The signature is checked before the body is looked at.
    assert_eq!(
        handlers.handle_request(state(), String::from("not json"), HeaderMap::new()),
        Err(Status::Unauthorized)
    );
    assert_eq!(
        handlers.answer(state(), DiscordVerify::Invalid, Json::parse(&body)),
        Err(Status::Unauthorized)
    );
    assert_eq!(count.get(), 0);
}

#[test]
fn a_body_that_is_no_interaction_is_a_bad_request() {
    let handlers: DiscordHandler<Handler> = DiscordHandler::new();
    for body in [
        "not json",
        "",
        "[]",
        "{}",
        "{\"type\": 9}",
        "{\"type\": \"1\"}",
        "{\"type\": 2}",
        "{\"id\": \"1\", \"application_id\": \"2\", \"type\": 2, \"token\": \"t\"}",
        "{\"id\": 1, \"application_id\": \"2\", \"type\": 2, \"token\": \"t\", \"version\": 1}",
        "{\"id\": \"1\", \"application_id\": \"2\", \"type\": 2, \"token\": \"t\", \"version\": 1, \
          \"data\": {\"name\": \"x\", \"options\": [{\"type\": 99, \"name\": \"y\"}]}}",
    ] {
        assert_eq!(
            handlers.handle_request(state(), String::from(body), signed("1", body)),
            Err(Status::BadRequest),
            "{}",
            body
        );
    }
    assert_eq!(handlers.answer(state(), DiscordVerify::Valid, None), Err(Status::BadRequest));
}

#[test]
fn a_command_goes_to_the_handler_of_its_name() {
    let rolls = Rc::new(Cell::new(0));
    let flips = Rc::new(Cell::new(0));
    let handlers: DiscordHandler<Handler> = DiscordHandler::new()
        .command(CommandHandler::new(ApplicationCommand::new("roll"), counting(rolls.clone(), "rolled")))
        .command(CommandHandler::new(ApplicationCommand::new("flip"), counting(flips.clone(), "flipped")));
    let body = command_body("flip");
    let answer = handlers.handle_request(state(), body.clone(), signed("7", &body)).unwrap();
    assert_eq!(content(&answer), "flipped");
    assert_eq!((rolls.get(), flips.get()), (0, 1));
    let body = command_body("roll");
    let answer = handlers.handle_request(state(), body.clone(), signed("8", &body)).unwrap();
    assert_eq!(content(&answer), "rolled");
    assert_eq!((rolls.get(), flips.get()), (1, 1));
    let answer = handlers.application_command(state(), interaction(&body)).unwrap();
    assert_eq!(content(&answer), "rolled");
    assert_eq!((rolls.get(), flips.get()), (2, 1));
}

#[test]
fn a_command_without_a_handler_is_an_internal_error() {
    let count = Rc::new(Cell::new(0));
    let handlers: DiscordHandler<Handler> = DiscordHandler::new()
        .command(CommandHandler::new(ApplicationCommand::new("roll"), counting(count.clone(), "a")))
        .component(("flip", ComponentHandler::new(counting(count.clone(), "b"))));
    for name in ["flip", "rol", "rolls", "Roll", ""] {
        let body = command_body(name);
        assert_eq!(
            handlers.handle_request(state(), body.clone(), signed("7", &body)),
            Err(Status::InternalError),
            "{}",
            name
        );
    }
    let empty: DiscordHandler<Handler> = DiscordHandler::new();
    let body = command_body("roll");
    assert_eq!(
        empty.handle_request(state(), body.clone(), signed("7", &body)),
        Err(Status::InternalError)
    );
    assert_eq!(count.get(), 0);
}

#[test]
fn a_command_without_data_or_name_is_an_internal_error() {
    let handlers: DiscordHandler<Handler> =
        DiscordHandler::new().command(CommandHandler::new(ApplicationCommand::new("roll"), says("a")));
    let bare = "{\"id\": \"1\", \"application_id\": \"2\", \"type\": 2, \"token\": \"t\", \"version\": 1}";
    assert_eq!(
        handlers.handle_request(state(), String::from(bare), signed("7", bare)),
        Err(Status::InternalError)
    );
    assert_eq!(handlers.application_command(state(), interaction(bare)), Err(Status::InternalError));
    let nameless = "{\"id\": \"1\", \"application_id\": \"2\", \"type\": 2, \"token\": \"t\", \"version\": 1, \
                    \"data\": {\"id\": \"3\"}}";
    assert_eq!(
        handlers.handle_request(state(), String::from(nameless), signed("7", nameless)),
        Err(Status::InternalError)
    );
    assert_eq!(
        handlers.application_command(state(), interaction(nameless)),
        Err(Status::InternalError)
    );
    assert_eq!(handlers.message_component(state(), interaction(bare)), Err(Status::InternalError));
}

#[test]
fn a_part_of_a_message_goes_to_the_handler_of_its_custom_id() {
    let count = Rc::new(Cell::new(0));
    let handlers: DiscordHandler<Handler> = DiscordHandler::new()
        .command(CommandHandler::new(ApplicationCommand::new("stop"), says("command")))
        .component(("stop", ComponentHandler::new(counting(count.clone(), "pressed"))));
    let body = component_body("stop");
    let answer = handlers.handle_request(state(), body.clone(), signed("7", &body)).unwrap();
    assert_eq!(content(&answer), "pressed");
    assert_eq!(count.get(), 1);
    let body = component_body("go");
    assert_eq!(
        handlers.handle_request(state(), body.clone(), signed("7", &body)),
        Err(Status::InternalError)
    );
    assert_eq!(count.get(), 1);
}

#[test]
fn the_other_kinds_are_not_implemented() {
    let handlers: DiscordHandler<Handler> = DiscordHandler::new()
        .command(CommandHandler::new(ApplicationCommand::new("roll"), says("a")));
    for kind in [4, 5] {
        let body = format!(
            "{{\"id\": \"1\", \"application_id\": \"2\", \"type\": {}, \"token\": \"t\", \"version\": 1, \
             \"data\": {{\"name\": \"roll\", \"custom_id\": \"roll\"}}}}",
            kind
        );
        assert_eq!(
            handlers.handle_request(state(), body.clone(), signed("7", &body)),
            Err(Status::NotImplemented)
        );
        assert_eq!(route(&interaction(&body)), Route::Fail(Status::NotImplemented));
    }
}

#[test]
fn what_a_handler_returns_is_passed_on() {
    let fails: Handler = Box::new(|_state, _interaction| Err(Status::NotImplemented));
    let refuses: Handler = Box::new(|_state, _interaction| Err(Status::Unauthorized));
    let echoes: Handler = Box::new(|state, interaction| {
        let text = format!("{}:{}", state.application_id, interaction.token);
        Ok(InteractionResponse::new().data(InteractionCallbackData::new().content(&text)))
    });
    let handlers: DiscordHandler<Handler> = DiscordHandler::new()
        .command(CommandHandler::new(ApplicationCommand::new("fails"), fails))
        .command(CommandHandler::new(ApplicationCommand::new("refuses"), refuses))
        .command(CommandHandler::new(ApplicationCommand::new("echoes"), echoes));
    let body = command_body("fails");
    assert_eq!(
        handlers.handle_request(state(), body.clone(), signed("7", &body)),
        Err(Status::NotImplemented)
    );
    let body = command_body("refuses");
    assert_eq!(
        handlers.handle_request(state(), body.clone(), signed("7", &body)),
        Err(Status::Unauthorized)
    );
    let body = command_body("echoes");
    let answer = handlers.handle_request(state(), body.clone(), signed("7", &body)).unwrap();
    assert_eq!(content(&answer), "1:t");
}

#[test]
fn a_later_registration_replaces_an_earlier_one() {
    let handlers: DiscordHandler<Handler> = DiscordHandler::new()
        .command(CommandHandler::new(ApplicationCommand::new("a").description("first"), says("1")))
        .command(CommandHandler::new(ApplicationCommand::new("b").description("second"), says("2")))
        .command(CommandHandler::new(ApplicationCommand::new("a").description("third"), says("3")))
        .component(("x", ComponentHandler::new(says("4"))))
        .component(("x", ComponentHandler::new(says("5"))));
    let list = handlers.command_list();
    assert_eq!(list.len(), 2);
    assert_eq!(list[0].name, "a");
    assert_eq!(list[0].description, "third");
    assert_eq!(list[1].name, "b");
    assert_eq!(list[1].description, "second");
    assert_eq!(handlers.command_handler("a").unwrap().command.description, "third");
    assert!(handlers.command_handler("c").is_none());
    assert!(handlers.component_handler("x").is_some());
    assert!(handlers.component_handler("a").is_none());
    let body = command_body("a");
    let answer = handlers.handle_request(state(), body.clone(), signed("7", &body)).unwrap();
    assert_eq!(content(&answer), "3");
    let body = command_body("b");
    let answer = handlers.handle_request(state(), body.clone(), signed("7", &body)).unwrap();
    assert_eq!(content(&answer), "2");
    let body = component_body("x");
    let answer = handlers.handle_request(state(), body.clone(), signed("7", &body)).unwrap();
    assert_eq!(content(&answer), "5");
    let empty: DiscordHandler<Handler> = DiscordHandler::new();
    assert_eq!(empty.command_list().len(), 0);
}

#[test]
fn an_interaction_is_classified_by_its_kind() {
    assert_eq!(route(&interaction(&command_body("roll"))), Route::Command(String::from("roll")));
    assert_eq!(route(&interaction(&command_body(""))), Route::Fail(Status::InternalError));
    assert_eq!(route(&interaction(&component_body("stop"))), Route::Component(String::from("stop")));
    assert_eq!(route(&interaction(&component_body(""))), Route::Fail(Status::InternalError));
    let ping = "{\"id\": \"1\", \"application_id\": \"2\", \"type\": 1, \"token\": \"t\", \"version\": 1}";
    assert_eq!(route(&interaction(ping)), Route::Pong);
    let named_component = "{\"id\": \"1\", \"application_id\": \"2\", \"type\": 3, \"token\": \"t\", \
                           \"version\": 1, \"data\": {\"name\": \"roll\"}}";
    assert_eq!(route(&interaction(named_component)), Route::Fail(Status::InternalError));
}
