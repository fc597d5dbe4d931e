//! Typed model of a chat platform's webhook interactions, with request
//! authentication and handler dispatch.

pub mod application;
pub mod application_command;
pub mod channel;
pub mod component;
pub mod decode;
pub mod emoji;
pub mod encode;
pub mod guild;
pub mod handler;
pub mod hex;
pub mod interaction;
pub mod interaction_response;
pub mod json;
pub mod maps;
pub mod permission;
pub mod round_trip;
pub mod signature;
pub mod snowflake;
pub mod sticker;
pub mod team;
pub mod text;
pub mod user;

pub use crate::application::Application;
pub use crate::application_command::{
    ApplicationCommand, ApplicationCommandOption, ApplicationCommandOptionChoice,
    ApplicationCommandOptionChoiceValue, ApplicationCommandOptionType, ApplicationCommandTypeDef,
    MinMaxValue,
};
pub use crate::channel::{
    AllowedMentions, Attachment, Channel, ChannelMention, ChannelType, Embed, EmbedAuthor,
    EmbedField, EmbedFooter, EmbedImage, EmbedProvider, EmbedThumbnail, EmbedType, EmbedVideo,
    Message, MessageActivity, MessageActivityType, MessageReference, MessageType, Nonce,
    Overwrite, OverwriteType, Reaction, ThreadMember, ThreadMetadata,
};
pub use crate::component::{ButtonStyle, Component, ComponentType, SelectOption};
pub use crate::decode::{DecodeError, from_text, FromJson};
pub use crate::emoji::Emoji;
pub use crate::encode::ToJson;
pub use crate::guild::{GuildMember, GuildMemberUpdate};
pub use crate::handler::{
    CommandHandler, ComponentHandler, DiscordHandler, pong, Route, Status, Step,
};
pub use crate::hex::{decode_hex, HexError};
pub use crate::interaction::{
    ApplicationCommandInteractionDataOption, ApplicationCommandType, ChannelVariant, Interaction,
    InteractionData, InteractionType, MessageInteraction, ResolvedData,
};
pub use crate::interaction_response::{
    InteractionCallbackData, InteractionCallbackDataFlags, InteractionCallbackType,
    InteractionResponse,
};
pub use crate::json::{Json, JsonNumber};
pub use crate::maps::{Localizations, Resolved};
pub use crate::permission::{Role, RoleTags};
pub use crate::round_trip::RoundTrip;
pub use crate::signature::{
    discord_verify, DiscordState, DiscordVerify, Headers, State, verify, verify_signature,
    verify_signature_with_key, VerifyError,
};
pub use crate::snowflake::Snowflake;
pub use crate::sticker::{Sticker, StickerFormat, StickerItem, StickerType};
pub use crate::team::{Team, TeamMember};
pub use crate::user::User;
