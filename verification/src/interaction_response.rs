//! Answers to interactions.

use crate::channel::{
    AllowedMentions, AllowedMentionsView, Attachment, AttachmentView, Embed, EmbedView,
};
use crate::component::{Component, ComponentView};
use crate::encode::{
    field, filled_field, Members, no_members, object, opt_field, put, put_filled, put_opt, ToJson,
};
use crate::json::{Json, JsonNumber, JsonView, member};
use crate::round_trip::{
    lemma_concat, lemma_field, lemma_filled_field, lemma_object, lemma_opt_field, null_free,
    RoundTrip,
};
use vstd::prelude::*;
use vstd::string::*;

verus! {

/// What is sent back for an interaction.
#[derive(Debug, PartialEq, Eq)]
pub struct InteractionResponse {
    pub response_type: InteractionCallbackType,
    pub data: Option<InteractionCallbackData>,
}

/// The model of [`InteractionResponse`].
pub struct InteractionResponseView {
    pub response_type: InteractionCallbackType,
    pub data: Option<InteractionCallbackDataView>,
}

impl DeepView for InteractionResponse {
    type V = InteractionResponseView;

    open spec fn deep_view(&self) -> InteractionResponseView {
        InteractionResponseView {
            response_type: self.response_type.deep_view(),
            data: self.data.deep_view(),
        }
    }
}

impl InteractionResponseView {
    /// The record with nothing set.
    pub open spec fn empty() -> InteractionResponseView {
        InteractionResponseView {
            response_type: InteractionCallbackType::spec_default(),
            data: None,
        }
    }
}

impl Default for InteractionResponse {
    fn default() -> (r: InteractionResponse)
        ensures
            r.deep_view() == InteractionResponseView::empty(),
    {
        let r = InteractionResponse {
            response_type: InteractionCallbackType::default(),
            data: None,
        };
        r
    }
}

impl InteractionResponse {
    /// A message in the channel, with nothing set yet.
    pub fn new() -> (r: InteractionResponse)
        ensures
            r.deep_view() == InteractionResponseView::empty(),
    {
        InteractionResponse::default()
    }

    /// Sets the kind of the answer.
    pub fn response_type(self, value: InteractionCallbackType) -> (r: InteractionResponse)
        ensures
            r.deep_view() == (InteractionResponseView {
                response_type: value.deep_view(),
                ..self.deep_view()
            }),
    {
        let mut r = self;
        r.response_type = value;
        r
    }

    /// Sets what the answer carries.
    pub fn data(self, value: InteractionCallbackData) -> (r: InteractionResponse)
        ensures
            r.deep_view() == (InteractionResponseView {
                data: Some(value.deep_view()),
                ..self.deep_view()
            }),
    {
        let mut r = self;
        r.data = Some(value);
        r
    }
}

impl ToJson for InteractionResponse {
    open spec fn encoding(m: InteractionResponseView) -> JsonView {
        JsonView::Object(
            Seq::empty()
                + field::<InteractionCallbackType>("type", m.response_type)
                + opt_field::<InteractionCallbackData>("data", m.data),
        )
    }

    fn to_json(&self) -> (j: Json) {
        let mut members = no_members();
        put(&mut members, "type", &self.response_type);
        put_opt(&mut members, "data", &self.data);
        object(members)
    }
}

impl InteractionResponseView {
    /// The models whose trees hold no `null`.
    pub open spec fn faithful(self) -> bool {
        let m = self;
        &&& (m.data matches Some(x) ==> x.faithful())
    }

    /// The tree of a record holds under each key the tree of the field,
    /// has no member for a field that is not set, and holds no `null`.
    pub proof fn lemma_members(self)
        requires
            self.faithful(),
        ensures
            InteractionResponse::encoding(self).get("type"@) == Some(InteractionCallbackType::encoding(
                self.response_type,
            )),
            InteractionResponse::encoding(self).get("data"@) == match self.data {
                Some(x) => Some(InteractionCallbackData::encoding(x)),
                None => None,
            },
            null_free(InteractionResponse::encoding(self)),
    {
        let m = self;
        // No two keys are the same.
        reveal_strlit("type");
        reveal_strlit("data");
        assert("type"@.len() == 4 && "type"@[0] == 't');
        assert("data"@.len() == 4 && "data"@[0] == 'd');
        // What the object holds, member by member.
        let s0: Members = Seq::empty();
        lemma_field::<InteractionCallbackType>("type", m.response_type);
        let s1 = s0 + field::<InteractionCallbackType>("type", m.response_type);
        lemma_concat(s0, field::<InteractionCallbackType>("type", m.response_type));
        if m.data is Some {
            m.data->0.lemma_members();
        }
        lemma_opt_field::<InteractionCallbackData>("data", m.data);
        let s2 = s1 + opt_field::<InteractionCallbackData>("data", m.data);
        lemma_concat(s1, opt_field::<InteractionCallbackData>("data", m.data));
        lemma_object(s2);
    }
}

/// The kind of an answer.
#[derive(Debug, Clone, Copy, PartialEq, Eq, Structural)]
pub enum InteractionCallbackType {
    Pong,
    ChannelMessageWithSource,
    DeferredChannelMessageWithSource,
    DeferredUpdateMessage,
    UpdateMessage,
    ApplicationCommandAutocompleteResult,
    Modal,
}

impl DeepView for InteractionCallbackType {
    type V = InteractionCallbackType;

    open spec fn deep_view(&self) -> InteractionCallbackType {
        *self
    }
}

impl InteractionCallbackType {
    /// The number that stands for the variant on the wire.
    pub open spec fn spec_tag(self) -> u64 {
        match self {
            InteractionCallbackType::Pong => 1,
            InteractionCallbackType::ChannelMessageWithSource => 4,
            InteractionCallbackType::DeferredChannelMessageWithSource => 5,
            InteractionCallbackType::DeferredUpdateMessage => 6,
            InteractionCallbackType::UpdateMessage => 7,
            InteractionCallbackType::ApplicationCommandAutocompleteResult => 8,
            InteractionCallbackType::Modal => 9,
        }
    }

    /// The variant that `tag` stands for, if any.
    pub open spec fn spec_from_tag(tag: u64) -> Option<InteractionCallbackType> {
        if tag == 1 {
            Some(InteractionCallbackType::Pong)
        } else if tag == 4 {
            Some(InteractionCallbackType::ChannelMessageWithSource)
        } else if tag == 5 {
            Some(InteractionCallbackType::DeferredChannelMessageWithSource)
        } else if tag == 6 {
            Some(InteractionCallbackType::DeferredUpdateMessage)
        } else if tag == 7 {
            Some(InteractionCallbackType::UpdateMessage)
        } else if tag == 8 {
            Some(InteractionCallbackType::ApplicationCommandAutocompleteResult)
        } else if tag == 9 {
            Some(InteractionCallbackType::Modal)
        } else {
            None
        }
    }

    /// The variant that stands where none is given.
    pub open spec fn spec_default() -> InteractionCallbackType {
        InteractionCallbackType::ChannelMessageWithSource
    }

    /// The number that stands for the variant on the wire.
    pub fn tag(&self) -> (r: u64)
        ensures
            r == self.spec_tag(),
    {
        match self {
            InteractionCallbackType::Pong => 1,
            InteractionCallbackType::ChannelMessageWithSource => 4,
            InteractionCallbackType::DeferredChannelMessageWithSource => 5,
            InteractionCallbackType::DeferredUpdateMessage => 6,
            InteractionCallbackType::UpdateMessage => 7,
            InteractionCallbackType::ApplicationCommandAutocompleteResult => 8,
            InteractionCallbackType::Modal => 9,
        }
    }

    /// The variant that `tag` stands for, if any.
    pub fn from_tag(tag: u64) -> (r: Option<InteractionCallbackType>)
        ensures
            r == Self::spec_from_tag(tag),
    {
        if tag == 1 {
            Some(InteractionCallbackType::Pong)
        } else if tag == 4 {
            Some(InteractionCallbackType::ChannelMessageWithSource)
        } else if tag == 5 {
            Some(InteractionCallbackType::DeferredChannelMessageWithSource)
        } else if tag == 6 {
            Some(InteractionCallbackType::DeferredUpdateMessage)
        } else if tag == 7 {
            Some(InteractionCallbackType::UpdateMessage)
        } else if tag == 8 {
            Some(InteractionCallbackType::ApplicationCommandAutocompleteResult)
        } else if tag == 9 {
            Some(InteractionCallbackType::Modal)
        } else {
            None
        }
    }

    /// Every variant is found again from its tag.
    pub proof fn lemma_tag_round_trip(self)
        ensures
            Self::spec_from_tag(self.spec_tag()) == Some(self),
    {
    }
}

impl Default for InteractionCallbackType {
    fn default() -> (r: InteractionCallbackType)
        ensures
            r == InteractionCallbackType::spec_default(),
    {
        InteractionCallbackType::ChannelMessageWithSource
    }
}

impl ToJson for InteractionCallbackType {
    open spec fn encoding(m: InteractionCallbackType) -> JsonView {
        JsonView::Number(JsonNumber::Unsigned(m.spec_tag()))
    }

    fn to_json(&self) -> (j: Json) {
        Json::Number(JsonNumber::Unsigned(self.tag()))
    }
}

/// What an answer carries.
#[derive(Debug, PartialEq, Eq)]
pub struct InteractionCallbackData {
    pub tts: Option<bool>,
    pub content: Option<String>,
    pub embeds: Vec<Embed>,
    pub allowed_mentions: Option<AllowedMentions>,
    pub flags: Option<InteractionCallbackDataFlags>,
    pub components: Vec<Component>,
    pub attachments: Vec<Attachment>,
}

/// The model of [`InteractionCallbackData`].
pub struct InteractionCallbackDataView {
    pub tts: Option<bool>,
    pub content: Option<Seq<char>>,
    pub embeds: Seq<EmbedView>,
    pub allowed_mentions: Option<AllowedMentionsView>,
    pub flags: Option<InteractionCallbackDataFlags>,
    pub components: Seq<ComponentView>,
    pub attachments: Seq<AttachmentView>,
}

impl DeepView for InteractionCallbackData {
    type V = InteractionCallbackDataView;

    open spec fn deep_view(&self) -> InteractionCallbackDataView {
        InteractionCallbackDataView {
            tts: self.tts.deep_view(),
            content: self.content.deep_view(),
            embeds: self.embeds.deep_view(),
            allowed_mentions: self.allowed_mentions.deep_view(),
            flags: self.flags.deep_view(),
            components: self.components.deep_view(),
            attachments: self.attachments.deep_view(),
        }
    }
}

impl InteractionCallbackDataView {
    /// The record with nothing set.
    pub open spec fn empty() -> InteractionCallbackDataView {
        InteractionCallbackDataView {
            tts: None,
            content: None,
            embeds: Seq::empty(),
            allowed_mentions: None,
            flags: None,
            components: Seq::empty(),
            attachments: Seq::empty(),
        }
    }
}

impl Default for InteractionCallbackData {
    fn default() -> (r: InteractionCallbackData)
        ensures
            r.deep_view() == InteractionCallbackDataView::empty(),
    {
        let r = InteractionCallbackData {
            tts: None,
            content: None,
            embeds: Vec::new(),
            allowed_mentions: None,
            flags: None,
            components: Vec::new(),
            attachments: Vec::new(),
        };
        assert(r.embeds.deep_view() =~= Seq::empty());
        assert(r.components.deep_view() =~= Seq::empty());
        assert(r.attachments.deep_view() =~= Seq::empty());
        r
    }
}

impl InteractionCallbackData {
    /// An answer that carries nothing yet.
    pub fn new() -> (r: InteractionCallbackData)
        ensures
            r.deep_view() == InteractionCallbackDataView::empty(),
    {
        InteractionCallbackData::default()
    }

    /// Sets whether the text is read aloud.
    pub fn tts(self, value: bool) -> (r: InteractionCallbackData)
        ensures
            r.deep_view() == (InteractionCallbackDataView {
                tts: Some(value.deep_view()),
                ..self.deep_view()
            }),
    {
        let mut r = self;
        r.tts = Some(value);
        r
    }

    /// Sets the text.
    pub fn content(self, value: &str) -> (r: InteractionCallbackData)
        ensures
            r.deep_view() == (InteractionCallbackDataView {
                content: Some(value@),
                ..self.deep_view()
            }),
    {
        let mut r = self;
        r.content = Some(value.to_owned());
        r
    }

    /// Adds an embed after those already present.
    pub fn embed(self, value: Embed) -> (r: InteractionCallbackData)
        ensures
            r.deep_view() == (InteractionCallbackDataView {
                embeds: self.deep_view().embeds.push(value.deep_view()),
                ..self.deep_view()
            }),
    {
        let ghost before = self.deep_view();
        let mut r = self;
        r.embeds.push(value);
        assert(r.embeds.deep_view() =~= before.embeds.push(value.deep_view()));
        r
    }

    /// Sets whom the message may notify.
    pub fn allowed_mentions(self, value: AllowedMentions) -> (r: InteractionCallbackData)
        ensures
            r.deep_view() == (InteractionCallbackDataView {
                allowed_mentions: Some(value.deep_view()),
                ..self.deep_view()
            }),
    {
        let mut r = self;
        r.allowed_mentions = Some(value);
        r
    }

    /// Sets the flag of the message.
    pub fn flags(self, value: InteractionCallbackDataFlags) -> (r: InteractionCallbackData)
        ensures
            r.deep_view() == (InteractionCallbackDataView {
                flags: Some(value.deep_view()),
                ..self.deep_view()
            }),
    {
        let mut r = self;
        r.flags = Some(value);
        r
    }

    /// Adds an interactive part after those already present.
    pub fn component(self, value: Component) -> (r: InteractionCallbackData)
        ensures
            r.deep_view() == (InteractionCallbackDataView {
                components: self.deep_view().components.push(value.deep_view()),
                ..self.deep_view()
            }),
    {
        let ghost before = self.deep_view();
        let mut r = self;
        r.components.push(value);
        assert(r.components.deep_view() =~= before.components.push(value.deep_view()));
        r
    }

    /// Adds an attachment after those already present.
    pub fn attachments(self, value: Attachment) -> (r: InteractionCallbackData)
        ensures
            r.deep_view() == (InteractionCallbackDataView {
                attachments: self.deep_view().attachments.push(value.deep_view()),
                ..self.deep_view()
            }),
    {
        let ghost before = self.deep_view();
        let mut r = self;
        r.attachments.push(value);
        assert(r.attachments.deep_view() =~= before.attachments.push(value.deep_view()));
        r
    }
}

impl ToJson for InteractionCallbackData {
    open spec fn encoding(m: InteractionCallbackDataView) -> JsonView {
        JsonView::Object(
            Seq::empty()
                + opt_field::<bool>("tts", m.tts)
                + opt_field::<String>("content", m.content)
                + filled_field::<Embed>("embeds", m.embeds)
                + opt_field::<AllowedMentions>("allowed_mentions", m.allowed_mentions)
                + opt_field::<InteractionCallbackDataFlags>("flags", m.flags)
                + filled_field::<Component>("components", m.components)
                + filled_field::<Attachment>("attachments", m.attachments),
        )
    }

    fn to_json(&self) -> (j: Json) {
        let mut members = no_members();
        put_opt(&mut members, "tts", &self.tts);
        put_opt(&mut members, "content", &self.content);
        put_filled(&mut members, "embeds", &self.embeds);
        put_opt(&mut members, "allowed_mentions", &self.allowed_mentions);
        put_opt(&mut members, "flags", &self.flags);
        put_filled(&mut members, "components", &self.components);
        put_filled(&mut members, "attachments", &self.attachments);
        object(members)
    }
}

impl InteractionCallbackDataView {
    /// The models whose trees hold no `null`.
    pub open spec fn faithful(self) -> bool {
        let m = self;
        &&& Vec::<Component>::faithful(m.components)
    }

    /// The tree of a record holds under each key the tree of the field,
    /// has no member for a field that is not set, and holds no `null`.
    pub proof fn lemma_members(self)
        requires
            self.faithful(),
        ensures
            InteractionCallbackData::encoding(self).get("tts"@) == match self.tts {
                Some(x) => Some(bool::encoding(x)),
                None => None,
            },
            InteractionCallbackData::encoding(self).get("content"@) == match self.content {
                Some(x) => Some(String::encoding(x)),
                None => None,
            },
            InteractionCallbackData::encoding(self).get("embeds"@) == if self.embeds.len() > 0 {
                Some(Vec::<Embed>::encoding(self.embeds))
            } else {
                None
            },
            InteractionCallbackData::encoding(self).get("allowed_mentions"@) == match self.allowed_mentions {
                Some(x) => Some(AllowedMentions::encoding(x)),
                None => None,
            },
            InteractionCallbackData::encoding(self).get("flags"@) == match self.flags {
                Some(x) => Some(InteractionCallbackDataFlags::encoding(x)),
                None => None,
            },
            InteractionCallbackData::encoding(self).get("components"@) == if self.components.len() > 0 {
                Some(Vec::<Component>::encoding(self.components))
            } else {
                None
            },
            InteractionCallbackData::encoding(self).get("attachments"@) == if self.attachments.len() > 0 {
                Some(Vec::<Attachment>::encoding(self.attachments))
            } else {
                None
            },
            null_free(InteractionCallbackData::encoding(self)),
    {
        let m = self;
        // No two keys are the same.
        reveal_strlit("tts");
        reveal_strlit("content");
        reveal_strlit("embeds");
        reveal_strlit("allowed_mentions");
        reveal_strlit("flags");
        reveal_strlit("components");
        reveal_strlit("attachments");
        assert("tts"@.len() == 3);
        assert("content"@.len() == 7);
        assert("embeds"@.len() == 6);
        assert("allowed_mentions"@.len() == 16);
        assert("flags"@.len() == 5);
        assert("components"@.len() == 10);
        assert("attachments"@.len() == 11);
        // What the object holds, member by member.
        let s0: Members = Seq::empty();
        if m.tts is Some {
            bool::lemma_round_trip(m.tts->0);
        }
        lemma_opt_field::<bool>("tts", m.tts);
        let s1 = s0 + opt_field::<bool>("tts", m.tts);
        lemma_concat(s0, opt_field::<bool>("tts", m.tts));
        if m.content is Some {
            String::lemma_round_trip(m.content->0);
        }
        lemma_opt_field::<String>("content", m.content);
        let s2 = s1 + opt_field::<String>("content", m.content);
        lemma_concat(s1, opt_field::<String>("content", m.content));
        Vec::<Embed>::lemma_round_trip(m.embeds);
        lemma_filled_field::<Embed>("embeds", m.embeds);
        let s3 = s2 + filled_field::<Embed>("embeds", m.embeds);
        lemma_concat(s2, filled_field::<Embed>("embeds", m.embeds));
        if m.allowed_mentions is Some {
            m.allowed_mentions->0.lemma_members();
        }
        lemma_opt_field::<AllowedMentions>("allowed_mentions", m.allowed_mentions);
        let s4 = s3 + opt_field::<AllowedMentions>("allowed_mentions", m.allowed_mentions);
        lemma_concat(s3, opt_field::<AllowedMentions>("allowed_mentions", m.allowed_mentions));
        lemma_opt_field::<InteractionCallbackDataFlags>("flags", m.flags);
        let s5 = s4 + opt_field::<InteractionCallbackDataFlags>("flags", m.flags);
        lemma_concat(s4, opt_field::<InteractionCallbackDataFlags>("flags", m.flags));
        Vec::<Component>::lemma_round_trip(m.components);
        lemma_filled_field::<Component>("components", m.components);
        let s6 = s5 + filled_field::<Component>("components", m.components);
        lemma_concat(s5, filled_field::<Component>("components", m.components));
        Vec::<Attachment>::lemma_round_trip(m.attachments);
        lemma_filled_field::<Attachment>("attachments", m.attachments);
        let s7 = s6 + filled_field::<Attachment>("attachments", m.attachments);
        lemma_concat(s6, filled_field::<Attachment>("attachments", m.attachments));
        lemma_object(s7);
    }
}

/// A flag of a message, as the one bit that stands for it.
#[derive(Debug, Clone, Copy, PartialEq, Eq, Structural)]
pub enum InteractionCallbackDataFlags {
    Crossposted,
    IsCrosspost,
    SuppressEmbeds,
    SourceMessageDeleted,
    Urgent,
    HasThread,
    Ephemeral,
    Loading,
    FailedToMentionSomeRolesInThread,
}

impl DeepView for InteractionCallbackDataFlags {
    type V = InteractionCallbackDataFlags;

    open spec fn deep_view(&self) -> InteractionCallbackDataFlags {
        *self
    }
}

impl InteractionCallbackDataFlags {
    /// The number that stands for the variant on the wire.
    pub open spec fn spec_tag(self) -> u64 {
        match self {
            InteractionCallbackDataFlags::Crossposted => 1,
            InteractionCallbackDataFlags::IsCrosspost => 2,
            InteractionCallbackDataFlags::SuppressEmbeds => 4,
            InteractionCallbackDataFlags::SourceMessageDeleted => 8,
            InteractionCallbackDataFlags::Urgent => 16,
            InteractionCallbackDataFlags::HasThread => 32,
            InteractionCallbackDataFlags::Ephemeral => 64,
            InteractionCallbackDataFlags::Loading => 128,
            InteractionCallbackDataFlags::FailedToMentionSomeRolesInThread => 256,
        }
    }

    /// The variant that `tag` stands for, if any.
    pub open spec fn spec_from_tag(tag: u64) -> Option<InteractionCallbackDataFlags> {
        if tag == 1 {
            Some(InteractionCallbackDataFlags::Crossposted)
        } else if tag == 2 {
            Some(InteractionCallbackDataFlags::IsCrosspost)
        } else if tag == 4 {
            Some(InteractionCallbackDataFlags::SuppressEmbeds)
        } else if tag == 8 {
            Some(InteractionCallbackDataFlags::SourceMessageDeleted)
        } else if tag == 16 {
            Some(InteractionCallbackDataFlags::Urgent)
        } else if tag == 32 {
            Some(InteractionCallbackDataFlags::HasThread)
        } else if tag == 64 {
            Some(InteractionCallbackDataFlags::Ephemeral)
        } else if tag == 128 {
            Some(InteractionCallbackDataFlags::Loading)
        } else if tag == 256 {
            Some(InteractionCallbackDataFlags::FailedToMentionSomeRolesInThread)
        } else {
            None
        }
    }

    /// The number that stands for the variant on the wire.
    pub fn tag(&self) -> (r: u64)
        ensures
            r == self.spec_tag(),
    {
        match self {
            InteractionCallbackDataFlags::Crossposted => 1,
            InteractionCallbackDataFlags::IsCrosspost => 2,
            InteractionCallbackDataFlags::SuppressEmbeds => 4,
            InteractionCallbackDataFlags::SourceMessageDeleted => 8,
            InteractionCallbackDataFlags::Urgent => 16,
            InteractionCallbackDataFlags::HasThread => 32,
            InteractionCallbackDataFlags::Ephemeral => 64,
            InteractionCallbackDataFlags::Loading => 128,
            InteractionCallbackDataFlags::FailedToMentionSomeRolesInThread => 256,
        }
    }

    /// The variant that `tag` stands for, if any.
    pub fn from_tag(tag: u64) -> (r: Option<InteractionCallbackDataFlags>)
        ensures
            r == Self::spec_from_tag(tag),
    {
        if tag == 1 {
            Some(InteractionCallbackDataFlags::Crossposted)
        } else if tag == 2 {
            Some(InteractionCallbackDataFlags::IsCrosspost)
        } else if tag == 4 {
            Some(InteractionCallbackDataFlags::SuppressEmbeds)
        } else if tag == 8 {
            Some(InteractionCallbackDataFlags::SourceMessageDeleted)
        } else if tag == 16 {
            Some(InteractionCallbackDataFlags::Urgent)
        } else if tag == 32 {
            Some(InteractionCallbackDataFlags::HasThread)
        } else if tag == 64 {
            Some(InteractionCallbackDataFlags::Ephemeral)
        } else if tag == 128 {
            Some(InteractionCallbackDataFlags::Loading)
        } else if tag == 256 {
            Some(InteractionCallbackDataFlags::FailedToMentionSomeRolesInThread)
        } else {
            None
        }
    }

    /// Every variant is found again from its tag.
    pub proof fn lemma_tag_round_trip(self)
        ensures
            Self::spec_from_tag(self.spec_tag()) == Some(self),
    {
    }
}

impl ToJson for InteractionCallbackDataFlags {
    open spec fn encoding(m: InteractionCallbackDataFlags) -> JsonView {
        JsonView::Number(JsonNumber::Unsigned(m.spec_tag()))
    }

    fn to_json(&self) -> (j: Json) {
        Json::Number(JsonNumber::Unsigned(self.tag()))
    }
}

} // verus!
