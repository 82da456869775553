//! The formats of stickers.

use vstd::prelude::*;
use crate::json::{json_u64, JsonValue, JsonView};
use crate::models::ModelError;

verus! {

/// The file format of a sticker.
#[derive(Debug, Clone, Copy, PartialEq, Eq, Structural)]
pub enum StickerFormatType {
    Png,
    Apng,
    Lottie,
    Gif,
}

/// The number that stands for each sticker format type.
pub open spec fn sticker_format_type_code(v: StickerFormatType) -> u64 {
    match v {
        StickerFormatType::Png => 1,
        StickerFormatType::Apng => 2,
        StickerFormatType::Lottie => 3,
        StickerFormatType::Gif => 4,
    }
}

/// The sticker format type that a number stands for, if any.
pub open spec fn sticker_format_type_code_inverse(c: u64) -> Option<StickerFormatType> {
    if c == 1 {
        Some(StickerFormatType::Png)
    } else if c == 2 {
        Some(StickerFormatType::Apng)
    } else if c == 3 {
        Some(StickerFormatType::Lottie)
    } else if c == 4 {
        Some(StickerFormatType::Gif)
    } else {
        None
    }
}

impl StickerFormatType {
    /// The number of this sticker format type.
    pub fn to_code(&self) -> (r: u64)
        ensures
            r == sticker_format_type_code(*self),
    {
        match self {
            StickerFormatType::Png => 1,
            StickerFormatType::Apng => 2,
            StickerFormatType::Lottie => 3,
            StickerFormatType::Gif => 4,
        }
    }

    /// The sticker format type of a number; other numbers stand for none.
    pub fn from_code(c: u64) -> (r: Option<StickerFormatType>)
        ensures
            r == sticker_format_type_code_inverse(c),
    {
        if c == 1 {
            Some(StickerFormatType::Png)
        } else if c == 2 {
            Some(StickerFormatType::Apng)
        } else if c == 3 {
            Some(StickerFormatType::Lottie)
        } else if c == 4 {
            Some(StickerFormatType::Gif)
        } else {
            None
        }
    }
}

/// Reading the number of a sticker format type gives the sticker format type back.
pub proof fn law_sticker_format_type_code_round_trip(v: StickerFormatType)
    ensures
        sticker_format_type_code_inverse(sticker_format_type_code(v) as u64) == Some(v),
{
}

/// A number reads as a StickerFormatType only when it is that one's own number, so
/// two of them never share a number and no other number reads as one.
pub proof fn law_sticker_format_type_code_read_back(c: u64)
    ensures
        sticker_format_type_code_inverse(c) matches Some(w) ==> sticker_format_type_code(w) == c,
{
}

impl StickerFormatType {
    /// Reads the format from its number in a payload.
    pub fn from_raw(raw: &JsonValue) -> (r: Result<StickerFormatType, ModelError>)
        ensures
            match json_u64(raw@) {
                Some(c) if sticker_format_type_code_inverse(c) is Some => r == Ok::<_, ModelError>(sticker_format_type_code_inverse(c).unwrap()),
                _ => r matches Err(ModelError::InvalidPayload(m)) && m@ == "Failed to parse sticker format type"@,
            },
    {
        match raw.as_u64() {
            Some(c) => match StickerFormatType::from_code(c) {
                Some(f) => Ok(f),
                None => Err(ModelError::InvalidPayload(String::from_str("Failed to parse sticker format type"))),
            },
            None => Err(ModelError::InvalidPayload(String::from_str("Failed to parse sticker format type"))),
        }
    }
}

} // verus!
