//! Stickers.

use crate::decode::{
    DecodeError, expect_object, FromJson, object_fault, opt, optional, req, required,
};
use crate::json::{Json, JsonView};
use crate::snowflake::Snowflake;
use crate::user::{User, UserView};
use vstd::prelude::*;

verus! {

/// What a message says of a sticker it carries.
#[derive(Debug, Clone, PartialEq, Eq)]
pub struct StickerItem {
    pub id: Snowflake,
    pub name: String,
    pub format_type: StickerFormat,
}

/// The model of [`StickerItem`].
pub struct StickerItemView {
    pub id: u64,
    pub name: Seq<char>,
    pub format_type: StickerFormat,
}

impl DeepView for StickerItem {
    type V = StickerItemView;

    open spec fn deep_view(&self) -> StickerItemView {
        StickerItemView {
            id: self.id.deep_view(),
            name: self.name.deep_view(),
            format_type: self.format_type.deep_view(),
        }
    }
}

impl FromJson for StickerItem {
    open spec fn decoding(j: JsonView) -> Result<StickerItemView, DecodeError> {
        let id = required::<Snowflake>(j, "id");
        let name = required::<String>(j, "name");
        let format_type = required::<StickerFormat>(j, "format_type");
        if object_fault(j) is Some {
            Err(object_fault(j)->0)
        } else if id is Err {
            Err(id->Err_0)
        } else if name is Err {
            Err(name->Err_0)
        } else if format_type is Err {
            Err(format_type->Err_0)
        } else {
            Ok(
                StickerItemView {
                    id: id->Ok_0,
                    name: name->Ok_0,
                    format_type: format_type->Ok_0,
                },
            )
        }
    }

    fn from_json(j: &Json) -> (r: Result<StickerItem, DecodeError>) {
        expect_object(j)?;
        let id = req::<Snowflake>(j, "id")?;
        let name = req::<String>(j, "name")?;
        let format_type = req::<StickerFormat>(j, "format_type")?;
        Ok(StickerItem { id, name, format_type })
    }
}

/// The image format of a sticker.
#[derive(Debug, Clone, Copy, PartialEq, Eq, Structural)]
pub enum StickerFormat {
    Png,
    Apng,
    Lottie,
}

impl DeepView for StickerFormat {
    type V = StickerFormat;

    open spec fn deep_view(&self) -> StickerFormat {
        *self
    }
}

impl StickerFormat {
    /// The number that stands for the variant on the wire.
    pub open spec fn spec_tag(self) -> u64 {
        match self {
            StickerFormat::Png => 1,
            StickerFormat::Apng => 2,
            StickerFormat::Lottie => 3,
        }
    }

    /// The variant that `tag` stands for, if any.
    pub open spec fn spec_from_tag(tag: u64) -> Option<StickerFormat> {
        if tag == 1 {
            Some(StickerFormat::Png)
        } else if tag == 2 {
            Some(StickerFormat::Apng)
        } else if tag == 3 {
            Some(StickerFormat::Lottie)
        } else {
            None
        }
    }

    /// The number that stands for the variant on the wire.
    pub fn tag(&self) -> (r: u64)
        ensures
            r == self.spec_tag(),
    {
        match self {
            StickerFormat::Png => 1,
            StickerFormat::Apng => 2,
            StickerFormat::Lottie => 3,
        }
    }

    /// The variant that `tag` stands for, if any.
    pub fn from_tag(tag: u64) -> (r: Option<StickerFormat>)
        ensures
            r == Self::spec_from_tag(tag),
    {
        if tag == 1 {
            Some(StickerFormat::Png)
        } else if tag == 2 {
            Some(StickerFormat::Apng)
        } else if tag == 3 {
            Some(StickerFormat::Lottie)
        } else {
            None
        }
    }

    /// Every variant is found again from its tag.
    pub proof fn lemma_tag_round_trip(self)
        ensures
            Self::spec_from_tag(self.spec_tag()) == Some(self),
    {
    }
}

impl FromJson for StickerFormat {
    open spec fn decoding(j: JsonView) -> Result<StickerFormat, DecodeError> {
        match u64::decoding(j) {
            Err(e) => Err(e),
            Ok(tag) => match StickerFormat::spec_from_tag(tag) {
                Some(v) => Ok(v),
                None => Err(DecodeError::UnknownVariant("StickerFormat", tag)),
            },
        }
    }

    fn from_json(j: &Json) -> (r: Result<StickerFormat, DecodeError>) {
        let tag = u64::from_json(j)?;
        match StickerFormat::from_tag(tag) {
            Some(v) => Ok(v),
            None => Err(DecodeError::UnknownVariant("StickerFormat", tag)),
        }
    }
}

/// A sticker.
#[derive(Debug, Clone, PartialEq, Eq)]
pub struct Sticker {
    pub id: Snowflake,
    pub pack_id: Option<Snowflake>,
    pub name: String,
    pub description: Option<String>,
    pub tags: String,
    pub asset: String,
    pub sticker_type: StickerType,
    pub format_type: StickerFormat,
    pub available: Option<bool>,
    pub guild_id: Option<Snowflake>,
    pub user: Option<User>,
    pub sort_value: Option<u64>,
}

/// The model of [`Sticker`].
pub struct StickerView {
    pub id: u64,
    pub pack_id: Option<u64>,
    pub name: Seq<char>,
    pub description: Option<Seq<char>>,
    pub tags: Seq<char>,
    pub asset: Seq<char>,
    pub sticker_type: StickerType,
    pub format_type: StickerFormat,
    pub available: Option<bool>,
    pub guild_id: Option<u64>,
    pub user: Option<UserView>,
    pub sort_value: Option<u64>,
}

impl DeepView for Sticker {
    type V = StickerView;

    open spec fn deep_view(&self) -> StickerView {
        StickerView {
            id: self.id.deep_view(),
            pack_id: self.pack_id.deep_view(),
            name: self.name.deep_view(),
            description: self.description.deep_view(),
            tags: self.tags.deep_view(),
            asset: self.asset.deep_view(),
            sticker_type: self.sticker_type.deep_view(),
            format_type: self.format_type.deep_view(),
            available: self.available.deep_view(),
            guild_id: self.guild_id.deep_view(),
            user: self.user.deep_view(),
            sort_value: self.sort_value.deep_view(),
        }
    }
}

impl FromJson for Sticker {
    open spec fn decoding(j: JsonView) -> Result<StickerView, DecodeError> {
        let id = required::<Snowflake>(j, "id");
        let pack_id = optional::<Snowflake>(j, "pack_id");
        let name = required::<String>(j, "name");
        let description = optional::<String>(j, "description");
        let tags = required::<String>(j, "tags");
        let asset = required::<String>(j, "asset");
        let sticker_type = required::<StickerType>(j, "type");
        let format_type = required::<StickerFormat>(j, "format_type");
        let available = optional::<bool>(j, "available");
        let guild_id = optional::<Snowflake>(j, "guild_id");
        let user = optional::<User>(j, "user");
        let sort_value = optional::<u64>(j, "sort_value");
        if object_fault(j) is Some {
            Err(object_fault(j)->0)
        } else if id is Err {
            Err(id->Err_0)
        } else if pack_id is Err {
            Err(pack_id->Err_0)
        } else if name is Err {
            Err(name->Err_0)
        } else if description is Err {
            Err(description->Err_0)
        } else if tags is Err {
            Err(tags->Err_0)
        } else if asset is Err {
            Err(asset->Err_0)
        } else if sticker_type is Err {
            Err(sticker_type->Err_0)
        } else if format_type is Err {
            Err(format_type->Err_0)
        } else if available is Err {
            Err(available->Err_0)
        } else if guild_id is Err {
            Err(guild_id->Err_0)
        } else if user is Err {
            Err(user->Err_0)
        } else if sort_value is Err {
            Err(sort_value->Err_0)
        } else {
            Ok(
                StickerView {
                    id: id->Ok_0,
                    pack_id: pack_id->Ok_0,
                    name: name->Ok_0,
                    description: description->Ok_0,
                    tags: tags->Ok_0,
                    asset: asset->Ok_0,
                    sticker_type: sticker_type->Ok_0,
                    format_type: format_type->Ok_0,
                    available: available->Ok_0,
                    guild_id: guild_id->Ok_0,
                    user: user->Ok_0,
                    sort_value: sort_value->Ok_0,
                },
            )
        }
    }

    fn from_json(j: &Json) -> (r: Result<Sticker, DecodeError>) {
        expect_object(j)?;
        let id = req::<Snowflake>(j, "id")?;
        let pack_id = opt::<Snowflake>(j, "pack_id")?;
        let name = req::<String>(j, "name")?;
        let description = opt::<String>(j, "description")?;
        let tags = req::<String>(j, "tags")?;
        let asset = req::<String>(j, "asset")?;
        let sticker_type = req::<StickerType>(j, "type")?;
        let format_type = req::<StickerFormat>(j, "format_type")?;
        let available = opt::<bool>(j, "available")?;
        let guild_id = opt::<Snowflake>(j, "guild_id")?;
        let user = opt::<User>(j, "user")?;
        let sort_value = opt::<u64>(j, "sort_value")?;
        Ok(
            Sticker {
                id,
                pack_id,
                name,
                description,
                tags,
                asset,
                sticker_type,
                format_type,
                available,
                guild_id,
                user,
                sort_value,
            },
        )
    }
}

/// Where a sticker comes from.
#[derive(Debug, Clone, Copy, PartialEq, Eq, Structural)]
pub enum StickerType {
    Standard,
    Guild,
}

impl DeepView for StickerType {
    type V = StickerType;

    open spec fn deep_view(&self) -> StickerType {
        *self
    }
}

impl StickerType {
    /// The number that stands for the variant on the wire.
    pub open spec fn spec_tag(self) -> u64 {
        match self {
            StickerType::Standard => 1,
            StickerType::Guild => 2,
        }
    }

    /// The variant that `tag` stands for, if any.
    pub open spec fn spec_from_tag(tag: u64) -> Option<StickerType> {
        if tag == 1 {
            Some(StickerType::Standard)
        } else if tag == 2 {
            Some(StickerType::Guild)
        } else {
            None
        }
    }

    /// The number that stands for the variant on the wire.
    pub fn tag(&self) -> (r: u64)
        ensures
            r == self.spec_tag(),
    {
        match self {
            StickerType::Standard => 1,
            StickerType::Guild => 2,
        }
    }

    /// The variant that `tag` stands for, if any.
    pub fn from_tag(tag: u64) -> (r: Option<StickerType>)
        ensures
            r == Self::spec_from_tag(tag),
    {
        if tag == 1 {
            Some(StickerType::Standard)
        } else if tag == 2 {
            Some(StickerType::Guild)
        } else {
            None
        }
    }

    /// Every variant is found again from its tag.
    pub proof fn lemma_tag_round_trip(self)
        ensures
            Self::spec_from_tag(self.spec_tag()) == Some(self),
    {
    }
}

impl FromJson for StickerType {
    open spec fn decoding(j: JsonView) -> Result<StickerType, DecodeError> {
        match u64::decoding(j) {
            Err(e) => Err(e),
            Ok(tag) => match StickerType::spec_from_tag(tag) {
                Some(v) => Ok(v),
                None => Err(DecodeError::UnknownVariant("StickerType", tag)),
            },
        }
    }

    fn from_json(j: &Json) -> (r: Result<StickerType, DecodeError>) {
        let tag = u64::from_json(j)?;
        match StickerType::from_tag(tag) {
            Some(v) => Ok(v),
            None => Err(DecodeError::UnknownVariant("StickerType", tag)),
        }
    }
}

} // verus!
