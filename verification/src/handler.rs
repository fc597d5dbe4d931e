//! Routing of interactions to the handlers that an application registers.
//!
//! A request is answered in four steps: its signature is checked, its body
//! is decoded, the interaction is classified by its kind, and the handler
//! registered for it is called. Each step either goes on or ends the
//! request with one [`Status`].

use crate::application_command::ApplicationCommand;
use crate::decode::{DecodeError, FromJson, req, required};
use crate::interaction::{Interaction, InteractionType, InteractionView};
use crate::interaction_response::{
    InteractionCallbackType, InteractionResponse, InteractionResponseView,
};
use crate::json::{Json, JsonView, parsed_json};
use crate::signature::{
    DiscordState, DiscordVerify, discord_verify, signature_check, signature_headers, verdict,
};
use crate::text::str_eq;
use vstd::prelude::*;
use vstd::string::*;

verus! {

/// How a request ends when it is not answered.
#[derive(Debug, Clone, Copy, PartialEq, Eq, Structural)]
pub enum Status {
    /// The request was not signed by the platform.
    Unauthorized,
    /// The body is not an interaction.
    BadRequest,
    /// No handler is registered for the interaction, or the interaction
    /// lacks the name or id by which one is found.
    InternalError,
    /// The kind of interaction is known but not served.
    NotImplemented,
}

/// A command together with the handler that serves it.
pub struct CommandHandler<H> {
    pub command: ApplicationCommand,
    pub handler: H,
}

impl<H> CommandHandler<H> {
    /// Pairs a command with its handler.
    pub fn new(command: ApplicationCommand, handler: H) -> (r: CommandHandler<H>)
        ensures
            r.command == command,
            r.handler == handler,
    {
        CommandHandler { command, handler }
    }
}

/// The handler that serves the parts of messages with one custom id.
pub struct ComponentHandler<H>(pub H);

impl<H> ComponentHandler<H> {
    /// Wraps a handler.
    pub fn new(handler: H) -> (r: ComponentHandler<H>)
        ensures
            r.0 == handler,
    {
        ComponentHandler(handler)
    }
}

/// The handler registered under `name`: that of the first command with
/// that name.
pub open spec fn find_command<H>(commands: Seq<CommandHandler<H>>, name: Seq<char>) -> Option<
    CommandHandler<H>,
>
    decreases commands.len(),
{
    if commands.len() == 0 {
        None
    } else if commands[0].command.name@ == name {
        Some(commands[0])
    } else {
        find_command(commands.drop_first(), name)
    }
}

/// The handler registered under the custom id `key`: that of the first
/// entry with that id.
pub open spec fn find_component<H>(
    components: Seq<(String, ComponentHandler<H>)>,
    key: Seq<char>,
) -> Option<ComponentHandler<H>>
    decreases components.len(),
{
    if components.len() == 0 {
        None
    } else if components[0].0@ == key {
        Some(components[0].1)
    } else {
        find_component(components.drop_first(), key)
    }
}

/// The commands after `value` is registered: it takes the place of the
/// first command with its name, or comes last if there is none.
pub open spec fn with_command<H>(commands: Seq<CommandHandler<H>>, value: CommandHandler<H>) -> Seq<
    CommandHandler<H>,
>
    decreases commands.len(),
{
    if commands.len() == 0 {
        seq![value]
    } else if commands[0].command.name@ == value.command.name@ {
        commands.update(0, value)
    } else {
        seq![commands[0]] + with_command(commands.drop_first(), value)
    }
}

/// The component handlers after `value` is registered under `key`: it
/// takes the place of the first entry with that id, or comes last if there
/// is none. An entry that is replaced keeps its key.
pub open spec fn with_component<H>(
    components: Seq<(String, ComponentHandler<H>)>,
    key: Seq<char>,
    value: ComponentHandler<H>,
) -> Seq<(Seq<char>, ComponentHandler<H>)>
    decreases components.len(),
{
    if components.len() == 0 {
        seq![(key, value)]
    } else if components[0].0@ == key {
        seq![(key, value)] + keyed(components.drop_first())
    } else {
        seq![(components[0].0@, components[0].1)] + with_component(
            components.drop_first(),
            key,
            value,
        )
    }
}

/// The entries with their keys as texts.
pub open spec fn keyed<H>(components: Seq<(String, ComponentHandler<H>)>) -> Seq<
    (Seq<char>, ComponentHandler<H>),
> {
    Seq::new(components.len(), |i: int| (components[i].0@, components[i].1))
}

/// Whether no two of the commands have one name.
pub open spec fn distinct_commands<H>(commands: Seq<CommandHandler<H>>) -> bool {
    forall|i: int, j: int|
        0 <= i < j < commands.len() ==> commands[i].command.name@ != commands[j].command.name@
}

/// Whether no two of the entries have one key.
pub open spec fn distinct_components<H>(components: Seq<(String, ComponentHandler<H>)>) -> bool {
    forall|i: int, j: int| 0 <= i < j < components.len() ==> components[i].0@ != components[j].0@
}

/// Where an interaction goes.
#[derive(Debug, Clone, PartialEq, Eq)]
pub enum Route {
    /// It is the platform's probe and is answered at once.
    Pong,
    /// To the handler of the command of this name.
    Command(String),
    /// To the handler of the parts with this custom id.
    Component(String),
    /// Nowhere: the request ends with this status.
    Fail(Status),
}

/// The model of [`Route`].
pub enum RouteView {
    Pong,
    Command(Seq<char>),
    Component(Seq<char>),
    Fail(Status),
}

impl DeepView for Route {
    type V = RouteView;

    open spec fn deep_view(&self) -> RouteView {
        match self {
            Route::Pong => RouteView::Pong,
            Route::Command(name) => RouteView::Command(name@),
            Route::Component(key) => RouteView::Component(key@),
            Route::Fail(status) => RouteView::Fail(*status),
        }
    }
}

/// Where the interaction `m` goes.
///
/// A ping is answered at once. A command goes by the name in its data, a
/// part of a message by the custom id in its data; without data, without
/// that name or id, or with an empty one, the request ends as an internal
/// error. The other kinds are not served.
pub open spec fn route_of(m: InteractionView) -> RouteView {
    match m.interaction_type {
        InteractionType::Ping => RouteView::Pong,
        InteractionType::ApplicationCommand => match m.data {
            Some(data) => match data.name {
                Some(name) => if name.len() > 0 {
                    RouteView::Command(name)
                } else {
                    RouteView::Fail(Status::InternalError)
                },
                None => RouteView::Fail(Status::InternalError),
            },
            None => RouteView::Fail(Status::InternalError),
        },
        InteractionType::MessageComponent => match m.data {
            Some(data) => match data.custom_id {
                Some(key) => if key.len() > 0 {
                    RouteView::Component(key)
                } else {
                    RouteView::Fail(Status::InternalError)
                },
                None => RouteView::Fail(Status::InternalError),
            },
            None => RouteView::Fail(Status::InternalError),
        },
        InteractionType::ApplicationCommandAutocomplete => RouteView::Fail(Status::NotImplemented),
        InteractionType::ModalSubmit => RouteView::Fail(Status::NotImplemented),
    }
}

/// Classifies an interaction by its kind.
pub fn route(interaction: &Interaction) -> (r: Route)
    ensures
        r.deep_view() == route_of(interaction.deep_view()),
{
    match interaction.interaction_type {
        InteractionType::Ping => Route::Pong,
        InteractionType::ApplicationCommand => match &interaction.data {
            Some(data) => match &data.name {
                Some(name) => if name.as_str().unicode_len() > 0 {
                    Route::Command(name.clone())
                } else {
                    Route::Fail(Status::InternalError)
                },
                None => Route::Fail(Status::InternalError),
            },
            None => Route::Fail(Status::InternalError),
        },
        InteractionType::MessageComponent => match &interaction.data {
            Some(data) => match &data.custom_id {
                Some(key) => if key.as_str().unicode_len() > 0 {
                    Route::Component(key.clone())
                } else {
                    Route::Fail(Status::InternalError)
                },
                None => Route::Fail(Status::InternalError),
            },
            None => Route::Fail(Status::InternalError),
        },
        InteractionType::ApplicationCommandAutocomplete => Route::Fail(Status::NotImplemented),
        InteractionType::ModalSubmit => Route::Fail(Status::NotImplemented),
    }
}

/// What is to be done with a request.
pub enum Step<'a, H> {
    /// Answer with this response.
    Respond(InteractionResponse),
    /// End the request with this status.
    Fail(Status),
    /// Call this handler with this interaction, and answer with what it
    /// returns.
    Call(&'a H, Interaction),
}

/// The model of the answer to a ping.
pub open spec fn pong_view() -> InteractionResponseView {
    InteractionResponseView { response_type: InteractionCallbackType::Pong, data: None }
}

/// The answer to a ping.
pub fn pong() -> (r: InteractionResponse)
    ensures
        r.deep_view() == pong_view(),
{
    InteractionResponse { response_type: InteractionCallbackType::Pong, data: None }
}

/// The handlers of an application: one for each command, by the command's
/// name, and one for each custom id of a part of a message. Registering
/// under a name or id that is taken replaces the earlier handler.
pub struct DiscordHandler<H> {
    commands: Vec<CommandHandler<H>>,
    components: Vec<(String, ComponentHandler<H>)>,
}

impl<H> DiscordHandler<H> {
    /// The registered commands, in the order in which their names were
    /// first registered.
    pub closed spec fn commands(&self) -> Seq<CommandHandler<H>> {
        self.commands@
    }

    /// The registered component handlers with their custom ids, in the
    /// order in which the ids were first registered.
    pub closed spec fn components(&self) -> Seq<(String, ComponentHandler<H>)> {
        self.components@
    }

    /// Whether every name and every custom id is registered once.
    pub open spec fn wf(&self) -> bool {
        &&& distinct_commands(self.commands())
        &&& distinct_components(self.components())
    }

    /// Whether every registered handler may be called with `state` and any
    /// interaction.
    pub open spec fn accepts<S>(&self, state: S) -> bool where
        H: Fn(S, Interaction) -> Result<InteractionResponse, Status>,
    {
        &&& forall|k: int, i: Interaction|
            0 <= k < self.commands().len() ==> #[trigger] call_requires(
                self.commands()[k].handler,
                (state, i),
            )
        &&& forall|k: int, i: Interaction|
            0 <= k < self.components().len() ==> #[trigger] call_requires(
                self.components()[k].1.0,
                (state, i),
            )
    }

    /// How a request ends whose interaction is `m`: `r` is the answer to a
    /// ping, or the status that the route names, or what the handler found
    /// for the route returned for `state` and an interaction with that
    /// model; without a handler it is an internal error.
    pub open spec fn dispatches<S>(
        &self,
        state: S,
        m: InteractionView,
        r: Result<InteractionResponse, Status>,
    ) -> bool where H: Fn(S, Interaction) -> Result<InteractionResponse, Status> {
        match route_of(m) {
            RouteView::Pong => r matches Ok(x) && x.deep_view() == pong_view(),
            RouteView::Fail(status) => r == Err::<InteractionResponse, Status>(status),
            RouteView::Command(name) => match find_command(self.commands(), name) {
                None => r == Err::<InteractionResponse, Status>(Status::InternalError),
                Some(entry) => exists|i: Interaction|
                    i.deep_view() == m && call_ensures(entry.handler, (state, i), r),
            },
            RouteView::Component(key) => match find_component(self.components(), key) {
                None => r == Err::<InteractionResponse, Status>(Status::InternalError),
                Some(entry) => exists|i: Interaction|
                    i.deep_view() == m && call_ensures(entry.0, (state, i), r),
            },
        }
    }

    /// How a request ends, given the verdict on its signature and the tree
    /// that its body spells: unauthorized unless the verdict is valid, and
    /// a bad request unless the body is JSON with a known kind under
    /// `type`. A ping is answered on its kind alone. Any other kind is a
    /// bad request unless the whole tree decodes to an interaction, which
    /// then is dispatched.
    pub open spec fn answers<S>(
        &self,
        state: S,
        verdict: DiscordVerify,
        tree: Option<JsonView>,
        r: Result<InteractionResponse, Status>,
    ) -> bool where H: Fn(S, Interaction) -> Result<InteractionResponse, Status> {
        match verdict {
            DiscordVerify::Invalid => r == Err::<InteractionResponse, Status>(Status::Unauthorized),
            DiscordVerify::Valid => match tree {
                None => r == Err::<InteractionResponse, Status>(Status::BadRequest),
                Some(j) => match required::<InteractionType>(j, "type") {
                    Err(_) => r == Err::<InteractionResponse, Status>(Status::BadRequest),
                    Ok(InteractionType::Ping) => r matches Ok(x) && x.deep_view() == pong_view(),
                    Ok(_) => match Interaction::decoding(j) {
                        Err(_) => r == Err::<InteractionResponse, Status>(Status::BadRequest),
                        Ok(m) => self.dispatches(state, m, r),
                    },
                },
            },
        }
    }

    /// Whether `step` is what is to be done with the interaction `m`: to
    /// answer a ping, to end with the status that the route names, to call
    /// the handler found for the route with an interaction of that model,
    /// or, without a handler, to end with an internal error.
    pub open spec fn routed(&self, m: InteractionView, step: Step<H>) -> bool {
        match route_of(m) {
            RouteView::Pong => step matches Step::Respond(x) && x.deep_view() == pong_view(),
            RouteView::Fail(status) => step == Step::<H>::Fail(status),
            RouteView::Command(name) => match find_command(self.commands(), name) {
                None => step == Step::<H>::Fail(Status::InternalError),
                Some(entry) => step matches Step::Call(h, i) && *h == entry.handler
                    && i.deep_view() == m,
            },
            RouteView::Component(key) => match find_component(self.components(), key) {
                None => step == Step::<H>::Fail(Status::InternalError),
                Some(entry) => step matches Step::Call(h, i) && *h == entry.0 && i.deep_view()
                    == m,
            },
        }
    }

    /// Whether `step` is what is to be done with a request, given the
    /// verdict on its signature and the tree that its body spells: to end
    /// it as unauthorized unless the verdict is valid, and as a bad request
    /// unless the body is JSON with a known kind under `type`. A ping is
    /// answered on its kind alone. Any other kind is a bad request unless
    /// the whole tree decodes to an interaction, which then is routed.
    pub open spec fn planned(
        &self,
        verdict: DiscordVerify,
        tree: Option<JsonView>,
        step: Step<H>,
    ) -> bool {
        match verdict {
            DiscordVerify::Invalid => step == Step::<H>::Fail(Status::Unauthorized),
            DiscordVerify::Valid => match tree {
                None => step == Step::<H>::Fail(Status::BadRequest),
                Some(j) => match required::<InteractionType>(j, "type") {
                    Err(_) => step == Step::<H>::Fail(Status::BadRequest),
                    Ok(InteractionType::Ping) => step matches Step::Respond(x) && x.deep_view()
                        == pong_view(),
                    Ok(_) => match Interaction::decoding(j) {
                        Err(_) => step == Step::<H>::Fail(Status::BadRequest),
                        Ok(m) => self.routed(m, step),
                    },
                },
            },
        }
    }

    /// Decides what is to be done with an interaction, without calling
    /// any handler.
    pub fn plan_interaction(&self, interaction: Interaction) -> (step: Step<'_, H>)
        ensures
            self.routed(interaction.deep_view(), step),
    {
        match route(&interaction) {
            Route::Pong => Step::Respond(pong()),
            Route::Fail(status) => Step::Fail(status),
            Route::Command(name) => match self.command_handler(name.as_str()) {
                Some(entry) => Step::Call(&entry.handler, interaction),
                None => Step::Fail(Status::InternalError),
            },
            Route::Component(key) => match self.component_handler(key.as_str()) {
                Some(entry) => Step::Call(&entry.0, interaction),
                None => Step::Fail(Status::InternalError),
            },
        }
    }

    /// Decides what is to be done with a request, given the verdict on its
    /// signature and the tree that its body spells, if it spells one,
    /// without calling any handler.
    pub fn plan(&self, verdict: DiscordVerify, tree: Option<Json>) -> (step: Step<'_, H>)
        ensures
            self.planned(
                verdict,
                match tree {
                    Some(j) => Some(j@),
                    None => None,
                },
                step,
            ),
    {
        match verdict {
            DiscordVerify::Invalid => Step::Fail(Status::Unauthorized),
            DiscordVerify::Valid => match tree {
                None => Step::Fail(Status::BadRequest),
                Some(j) => match req::<InteractionType>(&j, "type") {
                    Err(_) => Step::Fail(Status::BadRequest),
                    Ok(InteractionType::Ping) => Step::Respond(pong()),
                    Ok(_) => match Interaction::from_json(&j) {
                        Err(_) => Step::Fail(Status::BadRequest),
                        Ok(interaction) => self.plan_interaction(interaction),
                    },
                },
            },
        }
    }

    /// A registry without handlers.
    pub fn new() -> (r: DiscordHandler<H>)
        ensures
            r.commands() == Seq::<CommandHandler<H>>::empty(),
            r.components() == Seq::<(String, ComponentHandler<H>)>::empty(),
            r.wf(),
    {
        DiscordHandler { commands: Vec::new(), components: Vec::new() }
    }

    /// Registers a command with its handler under the command's name.
    pub fn command(self, value: CommandHandler<H>) -> (r: DiscordHandler<H>)
        ensures
            r.commands() == with_command(self.commands(), value),
            r.components() == self.components(),
            self.wf() ==> r.wf(),
    {
        let ghost before = self.commands@;
        let mut r = self;
        let mut i: usize = 0;
        assert(before.subrange(0, before.len() as int) =~= before);
        assert(before.subrange(0, 0) + with_command(before, value) =~= with_command(before, value));
        while i < r.commands.len()
            invariant
                r.commands@ == before,
                before == self.commands@,
                r.components@ == self.components@,
                i <= before.len(),
                forall|k: int| 0 <= k < i ==> before[k].command.name@ != value.command.name@,
                with_command(before, value) == before.subrange(0, i as int) + with_command(
                    before.subrange(i as int, before.len() as int),
                    value,
                ),
            decreases before.len() - i,
        {
            let ghost rest = before.subrange(i as int, before.len() as int);
            assert(rest[0] == before[i as int]);
            assert(rest.drop_first() =~= before.subrange(i + 1, before.len() as int));
            if str_eq(r.commands[i].command.name.as_str(), value.command.name.as_str()) {
                let _ = r.commands.remove(i);
                r.commands.insert(i, value);
                assert(r.commands@ =~= before.update(i as int, value));
                assert(before.update(i as int, value) =~= before.subrange(0, i as int)
                    + rest.update(0, value));
                assert(with_command(rest, value) == rest.update(0, value));
                proof {
                    lemma_with_command_distinct(before, value);
                }
                return r;
            }
            assert(before.subrange(0, i + 1) + with_command(rest.drop_first(), value)
                =~= before.subrange(0, i as int) + (seq![rest[0]] + with_command(
                rest.drop_first(),
                value,
            )));
            i += 1;
        }
        r.commands.push(value);
        assert(before.subrange(0, before.len() as int) =~= before);
        assert(before.subrange(before.len() as int, before.len() as int) =~= Seq::empty());
        assert(r.commands@ =~= before + seq![value]);
        proof {
            lemma_with_command_distinct(before, value);
        }
        r
    }

    /// Registers a handler for the parts of messages with the custom id
    /// `value.0`.
    pub fn component(self, value: (&str, ComponentHandler<H>)) -> (r: DiscordHandler<H>)
        ensures
            keyed(r.components()) == with_component(self.components(), value.0@, value.1),
            r.commands() == self.commands(),
            self.wf() ==> r.wf(),
    {
        let ghost before = self.components@;
        let (key, handler) = value;
        let mut r = self;
        let mut i: usize = 0;
        assert(keyed(before.subrange(0, 0)) =~= Seq::empty());
        assert(before.subrange(0, before.len() as int) =~= before);
        assert(Seq::<(Seq<char>, ComponentHandler<H>)>::empty() + with_component(
            before,
            key@,
            handler,
        ) =~= with_component(before, key@, handler));
        while i < r.components.len()
            invariant
                r.components@ == before,
                before == self.components@,
                (key, handler) == value,
                r.commands@ == self.commands@,
                i <= before.len(),
                forall|k: int| 0 <= k < i ==> before[k].0@ != key@,
                with_component(before, key@, handler) == keyed(before.subrange(0, i as int))
                    + with_component(
                    before.subrange(i as int, before.len() as int),
                    key@,
                    handler,
                ),
            decreases before.len() - i,
        {
            let ghost rest = before.subrange(i as int, before.len() as int);
            assert(rest[0] == before[i as int]);
            assert(rest.drop_first() =~= before.subrange(i + 1, before.len() as int));
            if str_eq(r.components[i].0.as_str(), key) {
                let _ = r.components.remove(i);
                let owned = key.to_owned();
                r.components.insert(i, (owned, handler));
                assert(r.components@ =~= before.update(i as int, (owned, handler)));
                assert(keyed(r.components@) =~= keyed(before.subrange(0, i as int)) + (seq![
                    (key@, handler),
                ] + keyed(rest.drop_first())));
                assert(with_component(rest, key@, handler) == seq![(key@, handler)] + keyed(
                    rest.drop_first(),
                ));
                proof {
                    lemma_with_component_distinct(before, r.components@, key@, handler);
                }
                return r;
            }
            assert(keyed(before.subrange(0, i + 1)) + with_component(
                rest.drop_first(),
                key@,
                handler,
            ) =~= keyed(before.subrange(0, i as int)) + (seq![(rest[0].0@, rest[0].1)]
                + with_component(rest.drop_first(), key@, handler)));
            i += 1;
        }
        r.components.push((key.to_owned(), handler));
        assert(before.subrange(before.len() as int, before.len() as int) =~= Seq::empty());
        assert(keyed(r.components@) =~= keyed(before) + seq![(key@, handler)]);
        proof {
            lemma_with_component_distinct(before, r.components@, key@, handler);
        }
        r
    }

    /// The registered commands, each once, in the order in which their
    /// names were first registered.
    pub fn command_list(&self) -> (r: Vec<&ApplicationCommand>)
        ensures
            r@.len() == self.commands().len(),
            forall|i: int| 0 <= i < r@.len() ==> *(#[trigger] r@[i]) == self.commands()[i].command,
    {
        let mut out: Vec<&ApplicationCommand> = Vec::new();
        let mut i: usize = 0;
        while i < self.commands.len()
            invariant
                i <= self.commands@.len(),
                out@.len() == i,
                forall|k: int| 0 <= k < i ==> *(#[trigger] out@[k]) == self.commands@[k].command,
            decreases self.commands@.len() - i,
        {
            out.push(&self.commands[i].command);
            i += 1;
        }
        out
    }

    /// Hands a command to the handler registered under its name. Without
    /// data, without a name, or without a handler for the name, the request
    /// ends as an internal error.
    pub fn application_command<S>(&self, state: S, interaction: Interaction) -> (r: Result<
        InteractionResponse,
        Status,
    >) where H: Fn(S, Interaction) -> Result<InteractionResponse, Status>
        requires
            self.accepts(state),
        ensures
            match interaction.deep_view().data {
                Some(data) => match data.name {
                    Some(name) => match find_command(self.commands(), name) {
                        Some(entry) => call_ensures(entry.handler, (state, interaction), r),
                        None => r == Err::<InteractionResponse, Status>(Status::InternalError),
                    },
                    None => r == Err::<InteractionResponse, Status>(Status::InternalError),
                },
                None => r == Err::<InteractionResponse, Status>(Status::InternalError),
            },
    {
        let entry = match &interaction.data {
            Some(data) => match &data.name {
                Some(name) => match self.command_handler(name.as_str()) {
                    Some(entry) => entry,
                    None => {
                        return Err(Status::InternalError);
                    },
                },
                None => {
                    return Err(Status::InternalError);
                },
            },
            None => {
                return Err(Status::InternalError);
            },
        };
        proof {
            self.lemma_found_command(interaction.deep_view().data->0.name->0);
        }
        (entry.handler)(state, interaction)
    }

    /// Hands an interaction with a part of a message to the handler
    /// registered under the part's custom id. Without data, without a
    /// custom id, or without a handler for the id, the request ends as an
    /// internal error.
    pub fn message_component<S>(&self, state: S, interaction: Interaction) -> (r: Result<
        InteractionResponse,
        Status,
    >) where H: Fn(S, Interaction) -> Result<InteractionResponse, Status>
        requires
            self.accepts(state),
        ensures
            match interaction.deep_view().data {
                Some(data) => match data.custom_id {
                    Some(key) => match find_component(self.components(), key) {
                        Some(entry) => call_ensures(entry.0, (state, interaction), r),
                        None => r == Err::<InteractionResponse, Status>(Status::InternalError),
                    },
                    None => r == Err::<InteractionResponse, Status>(Status::InternalError),
                },
                None => r == Err::<InteractionResponse, Status>(Status::InternalError),
            },
    {
        let entry = match &interaction.data {
            Some(data) => match &data.custom_id {
                Some(key) => match self.component_handler(key.as_str()) {
                    Some(entry) => entry,
                    None => {
                        return Err(Status::InternalError);
                    },
                },
                None => {
                    return Err(Status::InternalError);
                },
            },
            None => {
                return Err(Status::InternalError);
            },
        };
        proof {
            self.lemma_found_component(interaction.deep_view().data->0.custom_id->0);
        }
        (entry.0)(state, interaction)
    }

    /// Answers an interaction: a ping at once, a command and a part of a
    /// message through the handler registered for it.
    pub fn dispatch<S>(&self, state: S, interaction: Interaction) -> (r: Result<
        InteractionResponse,
        Status,
    >) where H: Fn(S, Interaction) -> Result<InteractionResponse, Status>
        requires
            self.accepts(state),
        ensures
            self.dispatches(state, interaction.deep_view(), r),
    {
        proof {
            let m = interaction.deep_view();
            if let RouteView::Command(name) = route_of(m) {
                self.lemma_found_command(name);
            }
            if let RouteView::Component(key) = route_of(m) {
                self.lemma_found_component(key);
            }
        }
        match self.plan_interaction(interaction) {
            Step::Respond(response) => Ok(response),
            Step::Fail(status) => Err(status),
            Step::Call(handler, interaction) => handler(state, interaction),
        }
    }

    /// Answers a request, given the verdict on its signature and the tree
    /// that its body spells, if it spells one.
    pub fn answer<S>(&self, state: S, verdict: DiscordVerify, tree: Option<Json>) -> (r: Result<
        InteractionResponse,
        Status,
    >) where H: Fn(S, Interaction) -> Result<InteractionResponse, Status>
        requires
            self.accepts(state),
        ensures
            self.answers(
                state,
                verdict,
                match tree {
                    Some(j) => Some(j@),
                    None => None,
                },
                r,
            ),
    {
        let ghost spelled = if tree is Some {
            Some(tree->0@)
        } else {
            None
        };
        proof {
            if let Some(j) = spelled {
                if let Ok(m) = Interaction::decoding(j) {
                    if let RouteView::Command(name) = route_of(m) {
                        self.lemma_found_command(name);
                    }
                    if let RouteView::Component(key) = route_of(m) {
                        self.lemma_found_component(key);
                    }
                }
            }
        }
        match self.plan(verdict, tree) {
            Step::Respond(response) => Ok(response),
            Step::Fail(status) => Err(status),
            Step::Call(handler, interaction) => handler(state, interaction),
        }
    }

    /// Answers a request: checks its signature against the key in `state`,
    /// decodes its body, and dispatches the interaction.
    pub fn handle_request<S: DiscordState>(
        &self,
        state: S,
        body: String,
        headers: http::HeaderMap,
    ) -> (r: Result<InteractionResponse, Status>) where
        H: Fn(S, Interaction) -> Result<InteractionResponse, Status>,

        requires
            self.accepts(state),
        ensures
            self.answers(
                state,
                verdict(
                    signature_check(signature_headers(headers), body@, state.spec_public_key()),
                ),
                parsed_json(body@),
                r,
            ),
    {
        let verdict = discord_verify(&state, body.as_str(), headers);
        let tree = match verdict {
            DiscordVerify::Valid => Json::parse(body.as_str()),
            DiscordVerify::Invalid => None,
        };
        self.answer(state, verdict, tree)
    }

    /// A ping is answered with a pong whatever is registered: every
    /// registry answers it alike, and only with a pong.
    pub proof fn lemma_ping_bypasses_the_registry<S>(
        &self,
        other: &DiscordHandler<H>,
        state: S,
        other_state: S,
        j: JsonView,
        r: Result<InteractionResponse, Status>,
    ) where H: Fn(S, Interaction) -> Result<InteractionResponse, Status>
        requires
            required::<InteractionType>(j, "type") == Ok::<InteractionType, DecodeError>(
                InteractionType::Ping,
            ),
        ensures
            self.answers(state, DiscordVerify::Valid, Some(j), r) <==> (r matches Ok(x)
                && x.deep_view() == pong_view()),
            self.answers(state, DiscordVerify::Valid, Some(j), r) <==> other.answers(
                other_state,
                DiscordVerify::Valid,
                Some(j),
                r,
            ),
    {
    }

    /// A decoded ping is dispatched to no handler.
    pub proof fn lemma_ping_is_dispatched_to_no_handler<S>(
        &self,
        state: S,
        m: InteractionView,
        r: Result<InteractionResponse, Status>,
    ) where H: Fn(S, Interaction) -> Result<InteractionResponse, Status>
        requires
            m.interaction_type == InteractionType::Ping,
        ensures
            self.dispatches(state, m, r) <==> (r matches Ok(x) && x.deep_view() == pong_view()),
    {
    }

    /// A command whose name no registered command has ends as an internal
    /// error, and never otherwise.
    pub proof fn lemma_unregistered_command_is_an_internal_error<S>(
        &self,
        state: S,
        m: InteractionView,
        r: Result<InteractionResponse, Status>,
    ) where H: Fn(S, Interaction) -> Result<InteractionResponse, Status>
        requires
            m.interaction_type == InteractionType::ApplicationCommand,
            m.data is Some,
            m.data->0.name is Some,
            forall|k: int|
                0 <= k < self.commands().len() ==> (#[trigger] self.commands()[k]).command.name@
                    != m.data->0.name->0,
        ensures
            self.dispatches(state, m, r) <==> r == Err::<InteractionResponse, Status>(
                Status::InternalError,
            ),
    {
        let name = m.data->0.name->0;
        lemma_find_command(self.commands(), name);
        if find_command(self.commands(), name) is Some {
            let k = choose|k: int|
                0 <= k < self.commands().len() && self.commands()[k] == find_command(
                    self.commands(),
                    name,
                )->0;
            assert(self.commands()[k].command.name@ == name);
        }
    }

    /// A command whose name is registered is answered by what the handler
    /// registered under that name returns for it, and by no other handler.
    pub proof fn lemma_registered_command_reaches_its_handler<S>(
        &self,
        state: S,
        m: InteractionView,
        r: Result<InteractionResponse, Status>,
        k: int,
    ) where H: Fn(S, Interaction) -> Result<InteractionResponse, Status>
        requires
            self.wf(),
            m.interaction_type == InteractionType::ApplicationCommand,
            m.data is Some,
            m.data->0.name is Some,
            m.data->0.name->0.len() > 0,
            0 <= k < self.commands().len(),
            self.commands()[k].command.name@ == m.data->0.name->0,
        ensures
            self.dispatches(state, m, r) <==> exists|i: Interaction|
                i.deep_view() == m && call_ensures(self.commands()[k].handler, (state, i), r),
    {
        let name = m.data->0.name->0;
        lemma_find_command(self.commands(), name);
        let found = find_command(self.commands(), name);
        assert(found is Some);
        let at = choose|at: int| 0 <= at < self.commands().len() && self.commands()[at] == found->0;
        assert(at == k);
    }

    /// What `command_handler` finds is one of the registered commands.
    pub proof fn lemma_found_command(&self, name: Seq<char>)
        ensures
            find_command(self.commands(), name) matches Some(entry) ==> exists|k: int|
                0 <= k < self.commands().len() && self.commands()[k] == entry,
    {
        lemma_find_command(self.commands(), name);
    }

    /// What `component_handler` finds is one of the registered handlers.
    pub proof fn lemma_found_component(&self, key: Seq<char>)
        ensures
            find_component(self.components(), key) matches Some(entry) ==> exists|k: int|
                0 <= k < self.components().len() && self.components()[k].1 == entry,
    {
        lemma_find_component(self.components(), key);
    }

    /// The handler registered for the command `name`.
    pub fn command_handler(&self, name: &str) -> (r: Option<&CommandHandler<H>>)
        ensures
            match r {
                Some(entry) => find_command(self.commands(), name@) == Some(*entry),
                None => find_command(self.commands(), name@) is None,
            },
    {
        let ghost all = self.commands@;
        let mut i: usize = 0;
        assert(all.subrange(0, all.len() as int) =~= all);
        while i < self.commands.len()
            invariant
                i <= self.commands@.len(),
                all == self.commands@,
                find_command(all, name@) == find_command(
                    all.subrange(i as int, all.len() as int),
                    name@,
                ),
            decreases self.commands@.len() - i,
        {
            let ghost rest = all.subrange(i as int, all.len() as int);
            assert(rest[0] == all[i as int]);
            assert(rest.drop_first() =~= all.subrange(i + 1, all.len() as int));
            if str_eq(self.commands[i].command.name.as_str(), name) {
                return Some(&self.commands[i]);
            }
            i += 1;
        }
        None
    }

    /// The handler registered for the custom id `key`.
    pub fn component_handler(&self, key: &str) -> (r: Option<&ComponentHandler<H>>)
        ensures
            match r {
                Some(entry) => find_component(self.components(), key@) == Some(*entry),
                None => find_component(self.components(), key@) is None,
            },
    {
        let ghost all = self.components@;
        let mut i: usize = 0;
        assert(all.subrange(0, all.len() as int) =~= all);
        while i < self.components.len()
            invariant
                i <= self.components@.len(),
                all == self.components@,
                find_component(all, key@) == find_component(
                    all.subrange(i as int, all.len() as int),
                    key@,
                ),
            decreases self.components@.len() - i,
        {
            let ghost rest = all.subrange(i as int, all.len() as int);
            assert(rest[0] == all[i as int]);
            assert(rest.drop_first() =~= all.subrange(i + 1, all.len() as int));
            if str_eq(self.components[i].0.as_str(), key) {
                return Some(&self.components[i].1);
            }
            i += 1;
        }
        None
    }
}

/// The last registration under a name counts: the command just registered
/// is found under its name, and under every other name what was found
/// before.
pub proof fn lemma_last_registration_wins<H>(
    commands: Seq<CommandHandler<H>>,
    value: CommandHandler<H>,
    name: Seq<char>,
)
    ensures
        find_command(with_command(commands, value), name) == if name == value.command.name@ {
            Some(value)
        } else {
            find_command(commands, name)
        },
    decreases commands.len(),
{
    if commands.len() == 0 {
        let after = seq![value];
        assert(after[0] == value);
        assert(after.drop_first() =~= Seq::empty());
        assert(find_command(after.drop_first(), name) is None);
    } else if commands[0].command.name@ == value.command.name@ {
        let after = commands.update(0, value);
        assert(after[0] == value);
        assert(after.drop_first() =~= commands.drop_first());
    } else {
        let rest = commands.drop_first();
        lemma_last_registration_wins(rest, value, name);
        let after = seq![commands[0]] + with_command(rest, value);
        assert(after.len() == 1 + with_command(rest, value).len());
        assert(after[0] == commands[0]);
        assert(after.drop_first() =~= with_command(rest, value));
    }
}

/// The last registration under a custom id counts.
pub proof fn lemma_last_component_wins<H>(
    components: Seq<(String, ComponentHandler<H>)>,
    after: Seq<(String, ComponentHandler<H>)>,
    key: Seq<char>,
    value: ComponentHandler<H>,
    sought: Seq<char>,
)
    requires
        keyed(after) == with_component(components, key, value),
    ensures
        find_component(after, sought) == if sought == key {
            Some(value)
        } else {
            find_component(components, sought)
        },
    decreases components.len(),
{
    let keys = with_component(components, key, value);
    assert(keyed(after).len() == after.len());
    if components.len() == 0 {
        assert(keys.len() == 1);
        assert(keyed(after)[0] == (after[0].0@, after[0].1));
        assert(after.drop_first() =~= Seq::empty());
        assert(find_component(after.drop_first(), sought) is None);
    } else if components[0].0@ == key {
        let rest = components.drop_first();
        assert(keys.len() == 1 + keyed(rest).len());
        assert(keys[0] == (key, value));
        assert(keyed(after)[0] == (after[0].0@, after[0].1));
        assert(keys.drop_first() =~= keyed(rest));
        assert(keyed(after.drop_first()) =~= keyed(after).drop_first());
        lemma_find_component_keyed(after.drop_first(), rest, sought);
    } else {
        let rest = components.drop_first();
        assert(keys.len() == 1 + with_component(rest, key, value).len());
        assert(keys[0] == (components[0].0@, components[0].1));
        assert(keyed(after)[0] == (after[0].0@, after[0].1));
        assert(keys.drop_first() =~= with_component(rest, key, value));
        assert(keyed(after.drop_first()) =~= keyed(after).drop_first());
        lemma_last_component_wins(rest, after.drop_first(), key, value, sought);
    }
}

/// Entries with the same keys and handlers give the same handler for
/// every custom id.
pub proof fn lemma_find_component_keyed<H>(
    a: Seq<(String, ComponentHandler<H>)>,
    b: Seq<(String, ComponentHandler<H>)>,
    sought: Seq<char>,
)
    requires
        keyed(a) == keyed(b),
    ensures
        find_component(a, sought) == find_component(b, sought),
    decreases a.len(),
{
    assert(keyed(a).len() == a.len());
    assert(keyed(b).len() == b.len());
    if a.len() != 0 {
        assert(keyed(a)[0] == (a[0].0@, a[0].1));
        assert(keyed(b)[0] == (b[0].0@, b[0].1));
        assert(keyed(a.drop_first()) =~= keyed(a).drop_first());
        assert(keyed(b.drop_first()) =~= keyed(b).drop_first());
        lemma_find_component_keyed(a.drop_first(), b.drop_first(), sought);
    }
}

/// A command that is found is one of the commands, and has the name.
pub proof fn lemma_find_command<H>(commands: Seq<CommandHandler<H>>, name: Seq<char>)
    ensures
        find_command(commands, name) matches Some(entry) ==> entry.command.name@ == name
            && exists|k: int| 0 <= k < commands.len() && commands[k] == entry,
        find_command(commands, name) is None ==> forall|k: int|
            0 <= k < commands.len() ==> (#[trigger] commands[k]).command.name@ != name,
    decreases commands.len(),
{
    if commands.len() != 0 {
        if commands[0].command.name@ == name {
            assert(commands[0] == find_command(commands, name)->0);
        } else {
            let rest = commands.drop_first();
            lemma_find_command(rest, name);
            if find_command(rest, name) is Some {
                let k = choose|k: int| 0 <= k < rest.len() && rest[k] == find_command(rest, name)->0;
                assert(commands[k + 1] == rest[k]);
            } else {
                assert forall|k: int| 0 <= k < commands.len() implies (#[trigger] commands[k]).command.name@
                    != name by {
                    if k > 0 {
                        assert(commands[k] == rest[k - 1]);
                    }
                }
            }
        }
    }
}

/// A component handler that is found is one of the entries, under the key.
pub proof fn lemma_find_component<H>(components: Seq<(String, ComponentHandler<H>)>, key: Seq<char>)
    ensures
        find_component(components, key) matches Some(entry) ==> exists|k: int|
            0 <= k < components.len() && components[k].1 == entry && components[k].0@ == key,
        find_component(components, key) is None ==> forall|k: int|
            0 <= k < components.len() ==> (#[trigger] components[k]).0@ != key,
    decreases components.len(),
{
    if components.len() != 0 {
        if components[0].0@ == key {
            assert(components[0].1 == find_component(components, key)->0);
        } else {
            let rest = components.drop_first();
            lemma_find_component(rest, key);
            if find_component(rest, key) is Some {
                let k = choose|k: int|
                    0 <= k < rest.len() && rest[k].1 == find_component(rest, key)->0 && rest[k].0@
                        == key;
                assert(components[k + 1] == rest[k]);
            } else {
                assert forall|k: int| 0 <= k < components.len() implies (#[trigger] components[k]).0@
                    != key by {
                    if k > 0 {
                        assert(components[k] == rest[k - 1]);
                    }
                }
            }
        }
    }
}

/// Registering keeps the names distinct.
pub proof fn lemma_with_command_distinct<H>(commands: Seq<CommandHandler<H>>, value: CommandHandler<H>)
    ensures
        with_command(commands, value).len() >= commands.len(),
        forall|k: int|
            0 <= k < commands.len() ==> (#[trigger] with_command(commands, value)[k]).command.name@
                == commands[k].command.name@,
        with_command(commands, value).len() > commands.len() ==> {
            &&& with_command(commands, value).len() == commands.len() + 1
            &&& with_command(commands, value).last() == value
            &&& forall|k: int|
                0 <= k < commands.len() ==> (#[trigger] commands[k]).command.name@
                    != value.command.name@
        },
        distinct_commands(commands) ==> distinct_commands(with_command(commands, value)),
    decreases commands.len(),
{
    if commands.len() != 0 && commands[0].command.name@ != value.command.name@ {
        let rest = commands.drop_first();
        lemma_with_command_distinct(rest, value);
        let after = with_command(commands, value);
        assert forall|k: int| 0 <= k < commands.len() implies (#[trigger] after[k]).command.name@
            == commands[k].command.name@ by {
            if k > 0 {
                assert(after[k] == with_command(rest, value)[k - 1]);
                assert(commands[k] == rest[k - 1]);
            }
        }
        if after.len() > commands.len() {
            assert(after.last() == with_command(rest, value).last());
            assert forall|k: int| 0 <= k < commands.len() implies (#[trigger] commands[k]).command.name@
                != value.command.name@ by {
                if k > 0 {
                    assert(commands[k] == rest[k - 1]);
                }
            }
        }
    }
}

/// Registering keeps the custom ids distinct.
pub proof fn lemma_with_component_distinct<H>(
    components: Seq<(String, ComponentHandler<H>)>,
    after: Seq<(String, ComponentHandler<H>)>,
    key: Seq<char>,
    value: ComponentHandler<H>,
)
    requires
        keyed(after) == with_component(components, key, value),
    ensures
        distinct_components(components) ==> distinct_components(after),
{
    lemma_with_component_keys(components, key, value);
    let keys = with_component(components, key, value);
    assert(keyed(after).len() == after.len());
    if distinct_components(components) {
        assert forall|i: int, j: int| 0 <= i < j < after.len() implies after[i].0@ != after[j].0@ by {
            assert(keyed(after)[i].0 == after[i].0@);
            assert(keyed(after)[j].0 == after[j].0@);
            assert(keyed(components)[i].0 == components[i].0@);
            if j < components.len() {
                assert(keyed(components)[j].0 == components[j].0@);
            }
        }
    }
}

/// Registering a component handler leaves the keys in place and adds at
/// most one, at the end, which then is a new one.
pub proof fn lemma_with_component_keys<H>(
    components: Seq<(String, ComponentHandler<H>)>,
    key: Seq<char>,
    value: ComponentHandler<H>,
)
    ensures
        with_component(components, key, value).len() >= components.len(),
        forall|k: int|
            0 <= k < components.len() ==> (#[trigger] with_component(components, key, value)[k]).0
                == components[k].0@,
        with_component(components, key, value).len() > components.len() ==> {
            &&& with_component(components, key, value).len() == components.len() + 1
            &&& with_component(components, key, value).last() == (key, value)
            &&& forall|k: int| 0 <= k < components.len() ==> (#[trigger] components[k]).0@ != key
        },
    decreases components.len(),
{
    if components.len() != 0 {
        let rest = components.drop_first();
        let after = with_component(components, key, value);
        if components[0].0@ == key {
            assert forall|k: int| 0 <= k < components.len() implies (#[trigger] after[k]).0
                == components[k].0@ by {
                if k > 0 {
                    assert(after[k] == keyed(rest)[k - 1]);
                    assert(components[k] == rest[k - 1]);
                }
            }
        } else {
            lemma_with_component_keys(rest, key, value);
            assert forall|k: int| 0 <= k < components.len() implies (#[trigger] after[k]).0
                == components[k].0@ by {
                if k > 0 {
                    assert(after[k] == with_component(rest, key, value)[k - 1]);
                    assert(components[k] == rest[k - 1]);
                }
            }
            if after.len() > components.len() {
                assert(after.last() == with_component(rest, key, value).last());
                assert forall|k: int| 0 <= k < components.len() implies (#[trigger] components[k]).0@
                    != key by {
                    if k > 0 {
                        assert(components[k] == rest[k - 1]);
                    }
                }
            }
        }
    }
}

} // verus!
