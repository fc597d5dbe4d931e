//! Interactive parts of a message: rows, buttons and menus.

use crate::decode::{
    agrees, collect, DecodeError, defaulted, expect_object, FromJson, lemma_collect_step, list,
    object_fault, opt, optional, req, required,
};
use crate::emoji::{Emoji, EmojiView};
use crate::encode::{
    field, filled_field, Members, no_members, object, opt_field, put, put_filled, put_opt, ToJson,
};
use crate::json::{items_view, Json, JsonNumber, JsonView, lemma_json_view, member, members_view};
use crate::round_trip::{
    lemma_collect_values, lemma_concat, lemma_defaulted_back, lemma_field, lemma_filled_field,
    lemma_object, lemma_one, lemma_opt_field, lemma_optional_back, lemma_required_back, null_free,
    RoundTrip,
};
use vstd::prelude::*;
use vstd::string::*;

verus! {

/// The kind of an interactive part.
#[derive(Debug, Clone, Copy, PartialEq, Eq, Structural)]
pub enum ComponentType {
    ActionRow,
    Button,
    SelectMenu,
}

impl DeepView for ComponentType {
    type V = ComponentType;

    open spec fn deep_view(&self) -> ComponentType {
        *self
    }
}

impl ComponentType {
    /// The number that stands for the variant on the wire.
    pub open spec fn spec_tag(self) -> u64 {
        match self {
            ComponentType::ActionRow => 1,
            ComponentType::Button => 2,
            ComponentType::SelectMenu => 3,
        }
    }

    /// The variant that `tag` stands for, if any.
    pub open spec fn spec_from_tag(tag: u64) -> Option<ComponentType> {
        if tag == 1 {
            Some(ComponentType::ActionRow)
        } else if tag == 2 {
            Some(ComponentType::Button)
        } else if tag == 3 {
            Some(ComponentType::SelectMenu)
        } else {
            None
        }
    }

    /// The variant that stands where none is given.
    pub open spec fn spec_default() -> ComponentType {
        ComponentType::ActionRow
    }

    /// The number that stands for the variant on the wire.
    pub fn tag(&self) -> (r: u64)
        ensures
            r == self.spec_tag(),
    {
        match self {
            ComponentType::ActionRow => 1,
            ComponentType::Button => 2,
            ComponentType::SelectMenu => 3,
        }
    }

    /// The variant that `tag` stands for, if any.
    pub fn from_tag(tag: u64) -> (r: Option<ComponentType>)
        ensures
            r == Self::spec_from_tag(tag),
    {
        if tag == 1 {
            Some(ComponentType::ActionRow)
        } else if tag == 2 {
            Some(ComponentType::Button)
        } else if tag == 3 {
            Some(ComponentType::SelectMenu)
        } else {
            None
        }
    }

    /// Every variant is found again from its tag.
    pub proof fn lemma_tag_round_trip(self)
        ensures
            Self::spec_from_tag(self.spec_tag()) == Some(self),
    {
    }
}

impl Default for ComponentType {
    fn default() -> (r: ComponentType)
        ensures
            r == ComponentType::spec_default(),
    {
        ComponentType::ActionRow
    }
}

impl FromJson for ComponentType {
    open spec fn decoding(j: JsonView) -> Result<ComponentType, DecodeError> {
        match u64::decoding(j) {
            Err(e) => Err(e),
            Ok(tag) => match ComponentType::spec_from_tag(tag) {
                Some(v) => Ok(v),
                None => Err(DecodeError::UnknownVariant("ComponentType", tag)),
            },
        }
    }

    fn from_json(j: &Json) -> (r: Result<ComponentType, DecodeError>) {
        let tag = u64::from_json(j)?;
        match ComponentType::from_tag(tag) {
            Some(v) => Ok(v),
            None => Err(DecodeError::UnknownVariant("ComponentType", tag)),
        }
    }
}

impl ToJson for ComponentType {
    open spec fn encoding(m: ComponentType) -> JsonView {
        JsonView::Number(JsonNumber::Unsigned(m.spec_tag()))
    }

    fn to_json(&self) -> (j: Json) {
        Json::Number(JsonNumber::Unsigned(self.tag()))
    }
}

impl RoundTrip for ComponentType {
    open spec fn faithful(m: ComponentType) -> bool {
        true
    }

    proof fn lemma_round_trip(m: ComponentType) {
        m.lemma_tag_round_trip();
    }
}

/// How a button looks.
#[derive(Debug, Clone, Copy, PartialEq, Eq, Structural)]
pub enum ButtonStyle {
    Primary,
    Secondary,
    Success,
    Danger,
    Link,
}

impl DeepView for ButtonStyle {
    type V = ButtonStyle;

    open spec fn deep_view(&self) -> ButtonStyle {
        *self
    }
}

impl ButtonStyle {
    /// The number that stands for the variant on the wire.
    pub open spec fn spec_tag(self) -> u64 {
        match self {
            ButtonStyle::Primary => 1,
            ButtonStyle::Secondary => 2,
            ButtonStyle::Success => 3,
            ButtonStyle::Danger => 4,
            ButtonStyle::Link => 5,
        }
    }

    /// The variant that `tag` stands for, if any.
    pub open spec fn spec_from_tag(tag: u64) -> Option<ButtonStyle> {
        if tag == 1 {
            Some(ButtonStyle::Primary)
        } else if tag == 2 {
            Some(ButtonStyle::Secondary)
        } else if tag == 3 {
            Some(ButtonStyle::Success)
        } else if tag == 4 {
            Some(ButtonStyle::Danger)
        } else if tag == 5 {
            Some(ButtonStyle::Link)
        } else {
            None
        }
    }

    /// The number that stands for the variant on the wire.
    pub fn tag(&self) -> (r: u64)
        ensures
            r == self.spec_tag(),
    {
        match self {
            ButtonStyle::Primary => 1,
            ButtonStyle::Secondary => 2,
            ButtonStyle::Success => 3,
            ButtonStyle::Danger => 4,
            ButtonStyle::Link => 5,
        }
    }

    /// The variant that `tag` stands for, if any.
    pub fn from_tag(tag: u64) -> (r: Option<ButtonStyle>)
        ensures
            r == Self::spec_from_tag(tag),
    {
        if tag == 1 {
            Some(ButtonStyle::Primary)
        } else if tag == 2 {
            Some(ButtonStyle::Secondary)
        } else if tag == 3 {
            Some(ButtonStyle::Success)
        } else if tag == 4 {
            Some(ButtonStyle::Danger)
        } else if tag == 5 {
            Some(ButtonStyle::Link)
        } else {
            None
        }
    }

    /// Every variant is found again from its tag.
    pub proof fn lemma_tag_round_trip(self)
        ensures
            Self::spec_from_tag(self.spec_tag()) == Some(self),
    {
    }
}

impl FromJson for ButtonStyle {
    open spec fn decoding(j: JsonView) -> Result<ButtonStyle, DecodeError> {
        match u64::decoding(j) {
            Err(e) => Err(e),
            Ok(tag) => match ButtonStyle::spec_from_tag(tag) {
                Some(v) => Ok(v),
                None => Err(DecodeError::UnknownVariant("ButtonStyle", tag)),
            },
        }
    }

    fn from_json(j: &Json) -> (r: Result<ButtonStyle, DecodeError>) {
        let tag = u64::from_json(j)?;
        match ButtonStyle::from_tag(tag) {
            Some(v) => Ok(v),
            None => Err(DecodeError::UnknownVariant("ButtonStyle", tag)),
        }
    }
}

impl ToJson for ButtonStyle {
    open spec fn encoding(m: ButtonStyle) -> JsonView {
        JsonView::Number(JsonNumber::Unsigned(m.spec_tag()))
    }

    fn to_json(&self) -> (j: Json) {
        Json::Number(JsonNumber::Unsigned(self.tag()))
    }
}

impl RoundTrip for ButtonStyle {
    open spec fn faithful(m: ButtonStyle) -> bool {
        true
    }

    proof fn lemma_round_trip(m: ButtonStyle) {
        m.lemma_tag_round_trip();
    }
}

/// One choice of a select menu.
#[derive(Debug, Clone, PartialEq, Eq)]
pub struct SelectOption {
    pub label: String,
    pub value: String,
    pub description: Option<String>,
    pub emoji: Option<Emoji>,
    pub default: Option<bool>,
}

/// The model of [`SelectOption`].
pub struct SelectOptionView {
    pub label: Seq<char>,
    pub value: Seq<char>,
    pub description: Option<Seq<char>>,
    pub emoji: Option<EmojiView>,
    pub default: Option<bool>,
}

impl DeepView for SelectOption {
    type V = SelectOptionView;

    open spec fn deep_view(&self) -> SelectOptionView {
        SelectOptionView {
            label: self.label.deep_view(),
            value: self.value.deep_view(),
            description: self.description.deep_view(),
            emoji: self.emoji.deep_view(),
            default: self.default.deep_view(),
        }
    }
}

impl FromJson for SelectOption {
    open spec fn decoding(j: JsonView) -> Result<SelectOptionView, DecodeError> {
        let label = required::<String>(j, "label");
        let value = required::<String>(j, "value");
        let description = optional::<String>(j, "description");
        let emoji = optional::<Emoji>(j, "emoji");
        let default = optional::<bool>(j, "default");
        if object_fault(j) is Some {
            Err(object_fault(j)->0)
        } else if label is Err {
            Err(label->Err_0)
        } else if value is Err {
            Err(value->Err_0)
        } else if description is Err {
            Err(description->Err_0)
        } else if emoji is Err {
            Err(emoji->Err_0)
        } else if default is Err {
            Err(default->Err_0)
        } else {
            Ok(
                SelectOptionView {
                    label: label->Ok_0,
                    value: value->Ok_0,
                    description: description->Ok_0,
                    emoji: emoji->Ok_0,
                    default: default->Ok_0,
                },
            )
        }
    }

    fn from_json(j: &Json) -> (r: Result<SelectOption, DecodeError>) {
        expect_object(j)?;
        let label = req::<String>(j, "label")?;
        let value = req::<String>(j, "value")?;
        let description = opt::<String>(j, "description")?;
        let emoji = opt::<Emoji>(j, "emoji")?;
        let default = opt::<bool>(j, "default")?;
        Ok(
            SelectOption {
                label,
                value,
                description,
                emoji,
                default,
            },
        )
    }
}

impl ToJson for SelectOption {
    open spec fn encoding(m: SelectOptionView) -> JsonView {
        JsonView::Object(
            Seq::empty()
                + field::<String>("label", m.label)
                + field::<String>("value", m.value)
                + opt_field::<String>("description", m.description)
                + opt_field::<Emoji>("emoji", m.emoji)
                + opt_field::<bool>("default", m.default),
        )
    }

    fn to_json(&self) -> (j: Json) {
        let mut members = no_members();
        put(&mut members, "label", &self.label);
        put(&mut members, "value", &self.value);
        put_opt(&mut members, "description", &self.description);
        put_opt(&mut members, "emoji", &self.emoji);
        put_opt(&mut members, "default", &self.default);
        object(members)
    }
}

impl RoundTrip for SelectOption {
    open spec fn faithful(m: SelectOptionView) -> bool {
        &&& (m.emoji matches Some(x) ==> Emoji::faithful(x))
    }

    proof fn lemma_round_trip(m: SelectOptionView) {
        // No two keys are the same.
        reveal_strlit("label");
        reveal_strlit("value");
        reveal_strlit("description");
        reveal_strlit("emoji");
        reveal_strlit("default");
        assert("label"@.len() == 5 && "label"@[0] == 'l');
        assert("value"@.len() == 5 && "value"@[0] == 'v');
        assert("description"@.len() == 11);
        assert("emoji"@.len() == 5 && "emoji"@[0] == 'e');
        assert("default"@.len() == 7);
        // What the object holds, member by member.
        let s0: Members = Seq::empty();
        String::lemma_round_trip(m.label);
        lemma_field::<String>("label", m.label);
        let s1 = s0 + field::<String>("label", m.label);
        lemma_concat(s0, field::<String>("label", m.label));
        String::lemma_round_trip(m.value);
        lemma_field::<String>("value", m.value);
        let s2 = s1 + field::<String>("value", m.value);
        lemma_concat(s1, field::<String>("value", m.value));
        if m.description is Some {
            String::lemma_round_trip(m.description->0);
        }
        lemma_opt_field::<String>("description", m.description);
        let s3 = s2 + opt_field::<String>("description", m.description);
        lemma_concat(s2, opt_field::<String>("description", m.description));
        if m.emoji is Some {
            Emoji::lemma_round_trip(m.emoji->0);
        }
        lemma_opt_field::<Emoji>("emoji", m.emoji);
        let s4 = s3 + opt_field::<Emoji>("emoji", m.emoji);
        lemma_concat(s3, opt_field::<Emoji>("emoji", m.emoji));
        if m.default is Some {
            bool::lemma_round_trip(m.default->0);
        }
        lemma_opt_field::<bool>("default", m.default);
        let s5 = s4 + opt_field::<bool>("default", m.default);
        lemma_concat(s4, opt_field::<bool>("default", m.default));
        lemma_object(s5);
        // What each member decodes to.
        let j = JsonView::Object(s5);
        lemma_required_back::<String>(j, "label", m.label);
        lemma_required_back::<String>(j, "value", m.value);
        lemma_optional_back::<String>(j, "description", m.description);
        lemma_optional_back::<Emoji>(j, "emoji", m.emoji);
        lemma_optional_back::<bool>(j, "default", m.default);
    }
}

/// An interactive part of a message. A row holds further parts.
#[derive(Debug, PartialEq, Eq)]
pub struct Component {
    pub component_type: ComponentType,
    pub custom_id: Option<String>,
    pub disabled: Option<bool>,
    pub style: Option<ButtonStyle>,
    pub label: Option<String>,
    pub emoji: Option<Emoji>,
    pub url: Option<String>,
    pub options: Vec<SelectOption>,
    pub placeholder: Option<String>,
    pub min_values: Option<i64>,
    pub max_values: Option<i64>,
    pub components: Vec<Component>,
}

/// The model of [`Component`].
pub struct ComponentView {
    pub component_type: ComponentType,
    pub custom_id: Option<Seq<char>>,
    pub disabled: Option<bool>,
    pub style: Option<ButtonStyle>,
    pub label: Option<Seq<char>>,
    pub emoji: Option<EmojiView>,
    pub url: Option<Seq<char>>,
    pub options: Seq<SelectOptionView>,
    pub placeholder: Option<Seq<char>>,
    pub min_values: Option<i64>,
    pub max_values: Option<i64>,
    pub components: Seq<ComponentView>,
}

/// The model of `x`.
pub open spec fn component_view(x: Component) -> ComponentView
    decreases x,
{
    ComponentView {
        component_type: x.component_type.deep_view(),
        custom_id: x.custom_id.deep_view(),
        disabled: x.disabled.deep_view(),
        style: x.style.deep_view(),
        label: x.label.deep_view(),
        emoji: x.emoji.deep_view(),
        url: x.url.deep_view(),
        options: x.options.deep_view(),
        placeholder: x.placeholder.deep_view(),
        min_values: x.min_values.deep_view(),
        max_values: x.max_values.deep_view(),
        components: Seq::new(
            x.components@.len(),
            |i: int|
                if 0 <= i < x.components@.len() {
                    component_view(x.components@[i])
                } else {
                    arbitrary()
                },
        ),
    }
}

impl DeepView for Component {
    type V = ComponentView;

    open spec fn deep_view(&self) -> ComponentView {
        component_view(*self)
    }
}

/// The lists inside the model are the models of the lists.
pub proof fn lemma_component_view(x: Component)
    ensures
        x.deep_view().components == x.components.deep_view(),
{
    assert(x.deep_view().components =~= x.components.deep_view());
}

impl ComponentView {
    /// The record with nothing set.
    pub open spec fn empty() -> ComponentView {
        ComponentView {
            component_type: ComponentType::spec_default(),
            custom_id: None,
            disabled: None,
            style: None,
            label: None,
            emoji: None,
            url: None,
            options: Seq::empty(),
            placeholder: None,
            min_values: None,
            max_values: None,
            components: Seq::empty(),
        }
    }
}

impl Default for Component {
    fn default() -> (r: Component)
        ensures
            r.deep_view() == ComponentView::empty(),
    {
        let r = Component {
            component_type: ComponentType::default(),
            custom_id: None,
            disabled: None,
            style: None,
            label: None,
            emoji: None,
            url: None,
            options: Vec::new(),
            placeholder: None,
            min_values: None,
            max_values: None,
            components: Vec::new(),
        };
        assert(r.options.deep_view() =~= Seq::empty());
        assert(r.components.deep_view() =~= Seq::empty());
        assert(r.deep_view().components =~= Seq::empty());
        r
    }
}

impl Component {
    /// An action row with nothing set.
    pub fn new() -> (r: Component)
        ensures
            r.deep_view() == ComponentView::empty(),
    {
        Component::default()
    }

    /// Sets the kind.
    pub fn component_type(self, value: ComponentType) -> (r: Component)
        ensures
            r.deep_view() == (ComponentView {
                component_type: value.deep_view(),
                ..self.deep_view()
            }),
    {
        let mut r = self;
        r.component_type = value;
        proof {
            lemma_component_view(self);
            lemma_component_view(r);
        }
        r
    }

    /// Sets the id under which interactions with this part are routed.
    pub fn custom_id(self, value: &str) -> (r: Component)
        ensures
            r.deep_view() == (ComponentView { custom_id: Some(value@), ..self.deep_view() }),
    {
        let mut r = self;
        r.custom_id = Some(value.to_owned());
        proof {
            lemma_component_view(self);
            lemma_component_view(r);
        }
        r
    }

    /// Sets whether the part is disabled.
    pub fn disabled(self, value: bool) -> (r: Component)
        ensures
            r.deep_view() == (ComponentView {
                disabled: Some(value.deep_view()),
                ..self.deep_view()
            }),
    {
        let mut r = self;
        r.disabled = Some(value);
        proof {
            lemma_component_view(self);
            lemma_component_view(r);
        }
        r
    }

    /// Sets the style of a button.
    pub fn style(self, value: ButtonStyle) -> (r: Component)
        ensures
            r.deep_view() == (ComponentView { style: Some(value.deep_view()), ..self.deep_view() }),
    {
        let mut r = self;
        r.style = Some(value);
        proof {
            lemma_component_view(self);
            lemma_component_view(r);
        }
        r
    }

    /// Sets the text shown on the part.
    pub fn label(self, value: &str) -> (r: Component)
        ensures
            r.deep_view() == (ComponentView { label: Some(value@), ..self.deep_view() }),
    {
        let mut r = self;
        r.label = Some(value.to_owned());
        proof {
            lemma_component_view(self);
            lemma_component_view(r);
        }
        r
    }

    /// Sets the emoji shown on the part.
    pub fn emoji(self, value: Emoji) -> (r: Component)
        ensures
            r.deep_view() == (ComponentView { emoji: Some(value.deep_view()), ..self.deep_view() }),
    {
        let mut r = self;
        r.emoji = Some(value);
        proof {
            lemma_component_view(self);
            lemma_component_view(r);
        }
        r
    }

    /// Sets the address a link button opens.
    pub fn url(self, value: &str) -> (r: Component)
        ensures
            r.deep_view() == (ComponentView { url: Some(value@), ..self.deep_view() }),
    {
        let mut r = self;
        r.url = Some(value.to_owned());
        proof {
            lemma_component_view(self);
            lemma_component_view(r);
        }
        r
    }

    /// Adds a choice after those already present.
    pub fn option(self, value: SelectOption) -> (r: Component)
        ensures
            r.deep_view() == (ComponentView {
                options: self.deep_view().options.push(value.deep_view()),
                ..self.deep_view()
            }),
    {
        let ghost before = self.deep_view();
        let mut r = self;
        r.options.push(value);
        assert(r.options.deep_view() =~= before.options.push(value.deep_view()));
        r
    }

    /// Sets the text shown while nothing is chosen.
    pub fn placeholder(self, value: &str) -> (r: Component)
        ensures
            r.deep_view() == (ComponentView { placeholder: Some(value@), ..self.deep_view() }),
    {
        let mut r = self;
        r.placeholder = Some(value.to_owned());
        proof {
            lemma_component_view(self);
            lemma_component_view(r);
        }
        r
    }

    /// Sets the least number of choices to be made.
    pub fn min_values(self, value: i64) -> (r: Component)
        ensures
            r.deep_view() == (ComponentView {
                min_values: Some(value.deep_view()),
                ..self.deep_view()
            }),
    {
        let mut r = self;
        r.min_values = Some(value);
        proof {
            lemma_component_view(self);
            lemma_component_view(r);
        }
        r
    }

    /// Sets the greatest number of choices to be made.
    pub fn max_values(self, value: i64) -> (r: Component)
        ensures
            r.deep_view() == (ComponentView {
                max_values: Some(value.deep_view()),
                ..self.deep_view()
            }),
    {
        let mut r = self;
        r.max_values = Some(value);
        proof {
            lemma_component_view(self);
            lemma_component_view(r);
        }
        r
    }

    /// Adds a part after those already present.
    pub fn component(self, value: Component) -> (r: Component)
        ensures
            r.deep_view() == (ComponentView {
                components: self.deep_view().components.push(value.deep_view()),
                ..self.deep_view()
            }),
    {
        let ghost before = self.deep_view();
        proof {
            lemma_component_view(self);
        }
        let mut r = self;
        r.components.push(value);
        assert(r.components.deep_view() =~= before.components.push(value.deep_view()));
        proof {
            lemma_component_view(r);
        }
        r
    }
}

/// What `j` decodes to as a component.
pub open spec fn component_decoding(j: JsonView) -> Result<ComponentView, DecodeError>
    decreases j,
{
    let component_type = required::<ComponentType>(j, "type");
    let custom_id = optional::<String>(j, "custom_id");
    let disabled = optional::<bool>(j, "disabled");
    let style = optional::<ButtonStyle>(j, "style");
    let label = optional::<String>(j, "label");
    let emoji = optional::<Emoji>(j, "emoji");
    let url = optional::<String>(j, "url");
    let options = defaulted::<SelectOption>(j, "options");
    let placeholder = optional::<String>(j, "placeholder");
    let min_values = optional::<i64>(j, "min_values");
    let max_values = optional::<i64>(j, "max_values");
    let components = match j.get("components"@) {
        None => Ok(Seq::empty()),
        Some(JsonView::Array(items)) => {
            proof {
                j.lemma_get_decreases("components"@);
            }
            collect(component_outcomes(items))
        },
        Some(_) => Err(DecodeError::InvalidType("array")),
    };
    if object_fault(j) is Some {
        Err(object_fault(j)->0)
    } else if component_type is Err {
        Err(component_type->Err_0)
    } else if custom_id is Err {
        Err(custom_id->Err_0)
    } else if disabled is Err {
        Err(disabled->Err_0)
    } else if style is Err {
        Err(style->Err_0)
    } else if label is Err {
        Err(label->Err_0)
    } else if emoji is Err {
        Err(emoji->Err_0)
    } else if url is Err {
        Err(url->Err_0)
    } else if options is Err {
        Err(options->Err_0)
    } else if placeholder is Err {
        Err(placeholder->Err_0)
    } else if min_values is Err {
        Err(min_values->Err_0)
    } else if max_values is Err {
        Err(max_values->Err_0)
    } else if components is Err {
        Err(components->Err_0)
    } else {
        Ok(
            ComponentView {
                component_type: component_type->Ok_0,
                custom_id: custom_id->Ok_0,
                disabled: disabled->Ok_0,
                style: style->Ok_0,
                label: label->Ok_0,
                emoji: emoji->Ok_0,
                url: url->Ok_0,
                options: options->Ok_0,
                placeholder: placeholder->Ok_0,
                min_values: min_values->Ok_0,
                max_values: max_values->Ok_0,
                components: components->Ok_0,
            },
        )
    }
}

/// What each of `items` decodes to as a component.
pub open spec fn component_outcomes(items: Seq<JsonView>) -> Seq<Result<ComponentView, DecodeError>>
    decreases items,
{
    Seq::new(
        items.len(),
        |i: int|
            if 0 <= i < items.len() {
                component_decoding(items[i])
            } else {
                arbitrary()
            },
    )
}

/// Reads a component from `j`.
pub fn decode_component(j: &Json) -> (r: Result<Component, DecodeError>)
    ensures
        agrees(r, component_decoding(j@)),
    decreases j,
{
    expect_object(j)?;
    let component_type = req::<ComponentType>(j, "type")?;
    let custom_id = opt::<String>(j, "custom_id")?;
    let disabled = opt::<bool>(j, "disabled")?;
    let style = opt::<ButtonStyle>(j, "style")?;
    let label = opt::<String>(j, "label")?;
    let emoji = opt::<Emoji>(j, "emoji")?;
    let url = opt::<String>(j, "url")?;
    let options = list::<SelectOption>(j, "options")?;
    let placeholder = opt::<String>(j, "placeholder")?;
    let min_values = opt::<i64>(j, "min_values")?;
    let max_values = opt::<i64>(j, "max_values")?;
    let components = match j.get("components") {
        None => {
            let out: Vec<Component> = Vec::new();
            assert(out.deep_view() =~= Seq::<ComponentView>::empty());
            out
        },
        Some(m) => match m {
            Json::Array(items) => {
                proof {
                    lemma_json_view(*m);
                }
                decode_components(items)?
            },
            _ => {
                return Err(DecodeError::InvalidType("array"));
            },
        },
    };
    let r = Component {
        component_type,
        custom_id,
        disabled,
        style,
        label,
        emoji,
        url,
        options,
        placeholder,
        min_values,
        max_values,
        components,
    };
    proof {
        lemma_component_view(r);
    }
    Ok(r)
}

/// Reads each of `items` as a component.
pub fn decode_components(items: &Vec<Json>) -> (r: Result<Vec<Component>, DecodeError>)
    ensures
        agrees(r, collect(component_outcomes(items_view(items@)))),
    decreases items,
{
    let ghost all = items_view(items@);
    let ghost outcomes = component_outcomes(all);
    let mut out: Vec<Component> = Vec::new();
    let mut i: usize = 0;
    assert(out.deep_view() =~= Seq::<ComponentView>::empty());
    assert(outcomes.subrange(0, 0) =~= Seq::<Result<ComponentView, DecodeError>>::empty());
    while i < items.len()
        invariant
            i <= items@.len(),
            all == items_view(items@),
            outcomes == component_outcomes(all),
            collect(outcomes.subrange(0, i as int)) == Ok::<Seq<ComponentView>, DecodeError>(
                out.deep_view(),
            ),
        decreases items@.len() - i,
    {
        let ghost before = out.deep_view();
        proof {
            assert(all[i as int] == items@[i as int]@);
            lemma_collect_step(outcomes, i as int);
        }
        match decode_component(&items[i]) {
            Ok(x) => {
                out.push(x);
                assert(out.deep_view() =~= before.push(x.deep_view()));
            },
            Err(e) => {
                return Err(e);
            },
        }
        i += 1;
    }
    assert(outcomes.subrange(0, i as int) =~= outcomes);
    Ok(out)
}

impl FromJson for Component {
    open spec fn decoding(j: JsonView) -> Result<ComponentView, DecodeError> {
        component_decoding(j)
    }

    fn from_json(j: &Json) -> (r: Result<Component, DecodeError>) {
        decode_component(j)
    }
}

/// The tree that stands for a component with the model `m`.
pub open spec fn component_encoding(m: ComponentView) -> JsonView
    decreases m,
{
    JsonView::Object(
        Seq::empty()
            + field::<ComponentType>("type", m.component_type)
            + opt_field::<String>("custom_id", m.custom_id)
            + opt_field::<bool>("disabled", m.disabled)
            + opt_field::<ButtonStyle>("style", m.style)
            + opt_field::<String>("label", m.label)
            + opt_field::<Emoji>("emoji", m.emoji)
            + opt_field::<String>("url", m.url)
            + filled_field::<SelectOption>("options", m.options)
            + opt_field::<String>("placeholder", m.placeholder)
            + opt_field::<i64>("min_values", m.min_values)
            + opt_field::<i64>("max_values", m.max_values)
            + (if m.components.len() == 0 {
                Seq::empty()
            } else {
                seq![("components"@, JsonView::Array(component_encodings(m.components)))]
            }),
    )
}

/// The trees that stand for the models `ms`, one by one.
pub open spec fn component_encodings(ms: Seq<ComponentView>) -> Seq<JsonView>
    decreases ms,
{
    Seq::new(
        ms.len(),
        |i: int|
            if 0 <= i < ms.len() {
                component_encoding(ms[i])
            } else {
                arbitrary()
            },
    )
}

/// Writes `x` as a JSON tree.
pub fn encode_component(x: &Component) -> (j: Json)
    ensures
        j@ == component_encoding(x.deep_view()),
    decreases x,
{
    proof {
        lemma_component_view(*x);
    }
    let mut members = no_members();
    put(&mut members, "type", &x.component_type);
    put_opt(&mut members, "custom_id", &x.custom_id);
    put_opt(&mut members, "disabled", &x.disabled);
    put_opt(&mut members, "style", &x.style);
    put_opt(&mut members, "label", &x.label);
    put_opt(&mut members, "emoji", &x.emoji);
    put_opt(&mut members, "url", &x.url);
    put_filled(&mut members, "options", &x.options);
    put_opt(&mut members, "placeholder", &x.placeholder);
    put_opt(&mut members, "min_values", &x.min_values);
    put_opt(&mut members, "max_values", &x.max_values);
    if x.components.len() > 0 {
        let ghost before = members_view(members@);
        let items = encode_components(&x.components);
        let array = Json::Array(items);
        proof {
            lemma_json_view(array);
        }
        members.push(("components".to_owned(), array));
        assert(members_view(members@) =~= before + seq![
            ("components"@, JsonView::Array(component_encodings(x.deep_view().components))),
        ]);
    } else {
        assert(members_view(members@) =~= members_view(members@) + Seq::empty());
    }
    object(members)
}

/// Writes each of `xs` as a JSON tree.
pub fn encode_components(xs: &Vec<Component>) -> (items: Vec<Json>)
    ensures
        items_view(items@) == component_encodings(xs.deep_view()),
    decreases xs,
{
    let mut items: Vec<Json> = Vec::new();
    let mut i: usize = 0;
    while i < xs.len()
        invariant
            i <= xs@.len(),
            items@.len() == i,
            forall|k: int| 0 <= k < i ==> (#[trigger] items@[k])@ == component_encoding(
                xs@[k].deep_view(),
            ),
        decreases xs@.len() - i,
    {
        items.push(encode_component(&xs[i]));
        i += 1;
    }
    assert(items_view(items@) =~= component_encodings(xs.deep_view()));
    items
}

impl ToJson for Component {
    open spec fn encoding(m: ComponentView) -> JsonView {
        component_encoding(m)
    }

    fn to_json(&self) -> (j: Json) {
        encode_component(self)
    }
}

/// Whether `m` comes back from its tree.
pub open spec fn component_faithful(m: ComponentView) -> bool
    decreases m,
{
    &&& (m.emoji matches Some(x) ==> Emoji::faithful(x))
    &&& Vec::<SelectOption>::faithful(m.options)
    &&& forall|i: int| 0 <= i < m.components.len() ==> component_faithful(
        #[trigger] m.components[i],
    )
}

/// A tree whose members decode to the fields of `m` decodes to `m`.
proof fn lemma_component_assembled(j: JsonView, m: ComponentView)
    requires
        j is Object,
        required::<ComponentType>(j, "type") == Ok::<ComponentType, DecodeError>(m.component_type),
        optional::<String>(j, "custom_id") == Ok::<Option<Seq<char>>, DecodeError>(m.custom_id),
        optional::<bool>(j, "disabled") == Ok::<Option<bool>, DecodeError>(m.disabled),
        optional::<ButtonStyle>(j, "style") == Ok::<Option<ButtonStyle>, DecodeError>(m.style),
        optional::<String>(j, "label") == Ok::<Option<Seq<char>>, DecodeError>(m.label),
        optional::<Emoji>(j, "emoji") == Ok::<Option<EmojiView>, DecodeError>(m.emoji),
        optional::<String>(j, "url") == Ok::<Option<Seq<char>>, DecodeError>(m.url),
        defaulted::<SelectOption>(j, "options") == Ok::<Seq<SelectOptionView>, DecodeError>(
            m.options,
        ),
        optional::<String>(j, "placeholder") == Ok::<Option<Seq<char>>, DecodeError>(m.placeholder),
        optional::<i64>(j, "min_values") == Ok::<Option<i64>, DecodeError>(m.min_values),
        optional::<i64>(j, "max_values") == Ok::<Option<i64>, DecodeError>(m.max_values),
        (match j.get("components"@) {
            None => Ok(Seq::empty()),
            Some(JsonView::Array(items)) => collect(component_outcomes(items)),
            Some(_) => Err(DecodeError::InvalidType("array")),
        }) == Ok::<Seq<ComponentView>, DecodeError>(m.components),
    ensures
        component_decoding(j) == Ok::<ComponentView, DecodeError>(m),
{
}

/// A faithful model is decoded from its own tree, which holds no `null`.
pub proof fn lemma_component_round_trip(m: ComponentView)
    requires
        component_faithful(m),
    ensures
        component_decoding(component_encoding(m)) == Ok::<ComponentView, DecodeError>(m),
        null_free(component_encoding(m)),
    decreases m,
{
    // No two keys are the same.
    reveal_strlit("type");
    reveal_strlit("custom_id");
    reveal_strlit("disabled");
    reveal_strlit("style");
    reveal_strlit("label");
    reveal_strlit("emoji");
    reveal_strlit("url");
    reveal_strlit("options");
    reveal_strlit("placeholder");
    reveal_strlit("min_values");
    reveal_strlit("max_values");
    reveal_strlit("components");
    assert("type"@.len() == 4);
    assert("custom_id"@.len() == 9);
    assert("disabled"@.len() == 8);
    assert("style"@.len() == 5 && "style"@[0] == 's');
    assert("label"@.len() == 5 && "label"@[0] == 'l');
    assert("emoji"@.len() == 5 && "emoji"@[0] == 'e');
    assert("url"@.len() == 3);
    assert("options"@.len() == 7);
    assert("placeholder"@.len() == 11);
    assert("min_values"@.len() == 10 && "min_values"@[0] == 'm' && "min_values"@[1] == 'i');
    assert("max_values"@.len() == 10 && "max_values"@[0] == 'm' && "max_values"@[1] == 'a');
    assert("components"@.len() == 10 && "components"@[0] == 'c');
    // What the object holds, member by member.
    let s0: Members = Seq::empty();
    ComponentType::lemma_round_trip(m.component_type);
    lemma_field::<ComponentType>("type", m.component_type);
    let s1 = s0 + field::<ComponentType>("type", m.component_type);
    lemma_concat(s0, field::<ComponentType>("type", m.component_type));
    if m.custom_id is Some {
        String::lemma_round_trip(m.custom_id->0);
    }
    lemma_opt_field::<String>("custom_id", m.custom_id);
    let s2 = s1 + opt_field::<String>("custom_id", m.custom_id);
    lemma_concat(s1, opt_field::<String>("custom_id", m.custom_id));
    if m.disabled is Some {
        bool::lemma_round_trip(m.disabled->0);
    }
    lemma_opt_field::<bool>("disabled", m.disabled);
    let s3 = s2 + opt_field::<bool>("disabled", m.disabled);
    lemma_concat(s2, opt_field::<bool>("disabled", m.disabled));
    if m.style is Some {
        ButtonStyle::lemma_round_trip(m.style->0);
    }
    lemma_opt_field::<ButtonStyle>("style", m.style);
    let s4 = s3 + opt_field::<ButtonStyle>("style", m.style);
    lemma_concat(s3, opt_field::<ButtonStyle>("style", m.style));
    if m.label is Some {
        String::lemma_round_trip(m.label->0);
    }
    lemma_opt_field::<String>("label", m.label);
    let s5 = s4 + opt_field::<String>("label", m.label);
    lemma_concat(s4, opt_field::<String>("label", m.label));
    if m.emoji is Some {
        Emoji::lemma_round_trip(m.emoji->0);
    }
    lemma_opt_field::<Emoji>("emoji", m.emoji);
    let s6 = s5 + opt_field::<Emoji>("emoji", m.emoji);
    lemma_concat(s5, opt_field::<Emoji>("emoji", m.emoji));
    if m.url is Some {
        String::lemma_round_trip(m.url->0);
    }
    lemma_opt_field::<String>("url", m.url);
    let s7 = s6 + opt_field::<String>("url", m.url);
    lemma_concat(s6, opt_field::<String>("url", m.url));
    Vec::<SelectOption>::lemma_round_trip(m.options);
    if m.options.len() == 0 {
        assert(m.options =~= Seq::empty());
    }
    lemma_filled_field::<SelectOption>("options", m.options);
    let s8 = s7 + filled_field::<SelectOption>("options", m.options);
    lemma_concat(s7, filled_field::<SelectOption>("options", m.options));
    if m.placeholder is Some {
        String::lemma_round_trip(m.placeholder->0);
    }
    lemma_opt_field::<String>("placeholder", m.placeholder);
    let s9 = s8 + opt_field::<String>("placeholder", m.placeholder);
    lemma_concat(s8, opt_field::<String>("placeholder", m.placeholder));
    if m.min_values is Some {
        i64::lemma_round_trip(m.min_values->0);
    }
    lemma_opt_field::<i64>("min_values", m.min_values);
    let s10 = s9 + opt_field::<i64>("min_values", m.min_values);
    lemma_concat(s9, opt_field::<i64>("min_values", m.min_values));
    if m.max_values is Some {
        i64::lemma_round_trip(m.max_values->0);
    }
    lemma_opt_field::<i64>("max_values", m.max_values);
    let s11 = s10 + opt_field::<i64>("max_values", m.max_values);
    lemma_concat(s10, opt_field::<i64>("max_values", m.max_values));
    lemma_components_round_trip(m.components);
    let piece: Members = if m.components.len() == 0 {
        Seq::empty()
    } else {
        seq![("components"@, JsonView::Array(component_encodings(m.components)))]
    };
    if m.components.len() > 0 {
        lemma_one("components"@, JsonView::Array(component_encodings(m.components)));
    } else {
        lemma_object(piece);
    }
    if m.components.len() == 0 {
        assert(m.components =~= Seq::empty());
    }
    let s12 = s11 + piece;
    lemma_concat(s11, piece);
    lemma_object(s12);
    // What each member decodes to.
    let j = JsonView::Object(s12);
    lemma_required_back::<ComponentType>(j, "type", m.component_type);
    lemma_optional_back::<String>(j, "custom_id", m.custom_id);
    lemma_optional_back::<bool>(j, "disabled", m.disabled);
    lemma_optional_back::<ButtonStyle>(j, "style", m.style);
    lemma_optional_back::<String>(j, "label", m.label);
    lemma_optional_back::<Emoji>(j, "emoji", m.emoji);
    lemma_optional_back::<String>(j, "url", m.url);
    lemma_defaulted_back::<SelectOption>(j, "options", m.options);
    lemma_optional_back::<String>(j, "placeholder", m.placeholder);
    lemma_optional_back::<i64>(j, "min_values", m.min_values);
    lemma_optional_back::<i64>(j, "max_values", m.max_values);
    lemma_component_assembled(j, m);
}

/// Faithful models are decoded from their own trees, which hold no `null`.
pub proof fn lemma_components_round_trip(ms: Seq<ComponentView>)
    requires
        forall|i: int| 0 <= i < ms.len() ==> component_faithful(#[trigger] ms[i]),
    ensures
        collect(component_outcomes(component_encodings(ms))) == Ok::<Seq<ComponentView>, DecodeError>(
            ms,
        ),
        null_free(JsonView::Array(component_encodings(ms))),
    decreases ms,
{
    let trees = component_encodings(ms);
    assert forall|i: int| 0 <= i < ms.len() implies component_decoding(#[trigger] trees[i]) == Ok::<
        ComponentView,
        DecodeError,
    >(ms[i]) && null_free(trees[i]) by {
        lemma_component_round_trip(ms[i]);
    }
    lemma_collect_values(component_outcomes(trees), ms);
}

impl RoundTrip for Component {
    open spec fn faithful(m: ComponentView) -> bool {
        component_faithful(m)
    }

    proof fn lemma_round_trip(m: ComponentView) {
        lemma_component_round_trip(m);
    }
}

} // verus!
