//! Gifts a user has received.

use vstd::prelude::*;

use crate::json::{Json, DecodeError, FromJson, json_lookup, field_decodes_to, field_decodable, decode_field};

verus! {

/// Who may see a received gift's message.
#[derive(Clone, Copy, Debug, PartialEq, Eq, Structural)]
pub enum GiftPrivacy {
    Pubclic,
    SenderNameOnly,
    Private,
}

/// The privacy level a wire number denotes, if any.
pub open spec fn gift_privacy_of(v: u64) -> Option<GiftPrivacy> {
    if v == 0 {
        Some(GiftPrivacy::Pubclic)
    } else if v == 1 {
        Some(GiftPrivacy::SenderNameOnly)
    } else if v == 2 {
        Some(GiftPrivacy::Private)
    } else {
        None
    }
}

impl GiftPrivacy {
    /// Maps a wire number to the privacy level; numbers outside the
    /// table map to nothing.
    pub fn from_id(v: u64) -> (r: Option<GiftPrivacy>)
        ensures
            r == gift_privacy_of(v),
    {
        match v {
            0 => Some(GiftPrivacy::Pubclic),
            1 => Some(GiftPrivacy::SenderNameOnly),
            2 => Some(GiftPrivacy::Private),
            _ => None,
        }
    }
}

impl FromJson for GiftPrivacy {
    open spec fn decodes_to(j: Json, v: GiftPrivacy) -> bool {
        match j {
            Json::UInt(u) => gift_privacy_of(u) == Some(v),
            _ => false,
        }
    }

    open spec fn decodable(j: Json) -> bool {
        match j {
            Json::UInt(u) => gift_privacy_of(u) is Some,
            _ => false,
        }
    }

    fn from_json(j: &Json) -> (r: Result<GiftPrivacy, DecodeError>) {
        match j {
            Json::UInt(u) => match GiftPrivacy::from_id(*u) {
                Some(v) => Ok(v),
                None => Err(DecodeError::TypeMismatch),
            },
            _ => Err(DecodeError::TypeMismatch),
        }
    }
}

/// A gift design: its id and thumbnails.
#[derive(Debug, PartialEq, Eq, Clone)]
pub struct Gift {
    pub id: u64,
    pub thumb_256: String,
    pub thumb_96: String,
    pub thumb_48: String,
}

impl FromJson for Gift {
    open spec fn decodes_to(j: Json, v: Gift) -> bool {
        &&& field_decodes_to::<u64>(j, "id"@, v.id)
        &&& field_decodes_to::<String>(j, "thumb_256"@, v.thumb_256)
        &&& field_decodes_to::<String>(j, "thumb_96"@, v.thumb_96)
        &&& field_decodes_to::<String>(j, "thumb_48"@, v.thumb_48)
    }

    open spec fn decodable(j: Json) -> bool {
        &&& field_decodable::<u64>(j, "id"@)
        &&& field_decodable::<String>(j, "thumb_256"@)
        &&& field_decodable::<String>(j, "thumb_96"@)
        &&& field_decodable::<String>(j, "thumb_48"@)
    }

    fn from_json(j: &Json) -> (r: Result<Gift, DecodeError>) {
        let id = match decode_field::<u64>(j, "id") {
            Ok(v) => v,
            Err(e) => {
                return Err(e);
            },
        };
        let thumb_256 = match decode_field::<String>(j, "thumb_256") {
            Ok(v) => v,
            Err(e) => {
                return Err(e);
            },
        };
        let thumb_96 = match decode_field::<String>(j, "thumb_96") {
            Ok(v) => v,
            Err(e) => {
                return Err(e);
            },
        };
        let thumb_48 = match decode_field::<String>(j, "thumb_48") {
            Ok(v) => v,
            Err(e) => {
                return Err(e);
            },
        };
        Ok(Gift { id, thumb_256, thumb_96, thumb_48 })
    }
}

/// A received gift: who sent it, the message, and the design.
#[derive(Debug, PartialEq, Eq, Clone)]
pub struct GiftItem {
    pub id: u64,
    pub from_id: i64,
    pub message: String,
    pub date: u64,
    pub gift: Gift,
    pub privacy: GiftPrivacy,
}

impl FromJson for GiftItem {
    open spec fn decodes_to(j: Json, v: GiftItem) -> bool {
        &&& field_decodes_to::<u64>(j, "id"@, v.id)
        &&& field_decodes_to::<i64>(j, "from_id"@, v.from_id)
        &&& field_decodes_to::<String>(j, "message"@, v.message)
        &&& field_decodes_to::<u64>(j, "date"@, v.date)
        &&& match json_lookup(j, "gift"@) {
            Some(g) => <Gift as FromJson>::decodes_to(g, v.gift),
            None => false,
        }
        &&& field_decodes_to::<GiftPrivacy>(j, "privacy"@, v.privacy)
    }

    open spec fn decodable(j: Json) -> bool {
        &&& field_decodable::<u64>(j, "id"@)
        &&& field_decodable::<i64>(j, "from_id"@)
        &&& field_decodable::<String>(j, "message"@)
        &&& field_decodable::<u64>(j, "date"@)
        &&& match json_lookup(j, "gift"@) {
            Some(g) => <Gift as FromJson>::decodable(g),
            None => false,
        }
        &&& field_decodable::<GiftPrivacy>(j, "privacy"@)
    }

    fn from_json(j: &Json) -> (r: Result<GiftItem, DecodeError>) {
        let id = match decode_field::<u64>(j, "id") {
            Ok(v) => v,
            Err(e) => {
                return Err(e);
            },
        };
        let from_id = match decode_field::<i64>(j, "from_id") {
            Ok(v) => v,
            Err(e) => {
                return Err(e);
            },
        };
        let message = match decode_field::<String>(j, "message") {
            Ok(v) => v,
            Err(e) => {
                return Err(e);
            },
        };
        let date = match decode_field::<u64>(j, "date") {
            Ok(v) => v,
            Err(e) => {
                return Err(e);
            },
        };
        let gift = match decode_field::<Gift>(j, "gift") {
            Ok(v) => v,
            Err(e) => {
                return Err(e);
            },
        };
        let privacy = match decode_field::<GiftPrivacy>(j, "privacy") {
            Ok(v) => v,
            Err(e) => {
                return Err(e);
            },
        };
        Ok(GiftItem { id, from_id, message, date, gift, privacy })
    }
}

} // verus!
