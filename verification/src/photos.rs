//! Photo objects, albums and upload payloads.

use vstd::prelude::*;

use crate::api::{Bool, Id, OwnerId, Timestamp};
use crate::json::{Json, DecodeError, FromJson, json_lookup, field_decodes_to, field_decodable, opt_field_decodes_to, opt_field_decodable, decode_field, decode_opt_field, str_eq};

verus! {

/// A photo and its stored sizes.
#[derive(Debug, PartialEq, Eq, Clone)]
pub struct Photo {
    pub id: Id,
    pub album_id: Id,
    pub owner_id: OwnerId,
    pub user_id: Id,
    pub width: u16,
    pub height: u16,
    pub text: String,
    pub date: Timestamp,
    pub sizes: Vec<Thumb>,
    pub placer_id: Id,
    pub tag_id: Id,
    pub tag_created: Timestamp,
}

/// A photo album.
#[derive(Debug, PartialEq, Eq, Clone)]
pub struct Album {
    pub id: Id,
    pub thumb_id: Id,
    pub owner_id: OwnerId,
    pub title: String,
    pub description: String,
    pub created: Timestamp,
    pub updated: Timestamp,
    pub privacy: u32,
    pub comment_privacy: u32,
    pub size: u32,
    pub thumb_is_last: Bool,
    pub can_upload: Bool,
    pub sizes: Vec<Thumb>,
    pub thumb_src: Option<String>,
    pub kind: Option<String>,
}

/// One stored size of a photo.
#[derive(Debug, PartialEq, Eq, Clone)]
pub struct Thumb {
    pub src: String,
    pub width: u16,
    pub height: u16,
    pub kind: ThumbKind,
}

/// The size class of a stored photo copy, named by a one-letter wire
/// word: proportional copies up to a bound, or cropped adaptive copies.
#[derive(Debug, PartialEq, Eq, Copy, Clone, Structural)]
pub enum ThumbKind {
    Prop75,
    Prop130,
    Prop604,
    Adapt130,
    Adapt200,
    Adapt320,
    Prop807,
    Prop1280x1024,
    Prop2560x2048,
}

/// The wire letter of a size class.
pub open spec fn thumb_kind_wire(k: ThumbKind) -> Seq<char> {
    match k {
        ThumbKind::Prop75 => "s"@,
        ThumbKind::Prop130 => "m"@,
        ThumbKind::Prop604 => "x"@,
        ThumbKind::Adapt130 => "o"@,
        ThumbKind::Adapt200 => "p"@,
        ThumbKind::Adapt320 => "q"@,
        ThumbKind::Prop807 => "y"@,
        ThumbKind::Prop1280x1024 => "z"@,
        ThumbKind::Prop2560x2048 => "w"@,
    }
}

impl ThumbKind {
    /// The fixed wire letter.
    pub fn as_str(&self) -> (r: &'static str)
        ensures
            r@ == thumb_kind_wire(*self),
    {
        match *self {
            ThumbKind::Prop75 => "s",
            ThumbKind::Prop130 => "m",
            ThumbKind::Prop604 => "x",
            ThumbKind::Adapt130 => "o",
            ThumbKind::Adapt200 => "p",
            ThumbKind::Adapt320 => "q",
            ThumbKind::Prop807 => "y",
            ThumbKind::Prop1280x1024 => "z",
            ThumbKind::Prop2560x2048 => "w",
        }
    }

    /// The size class a wire letter names, if any.
    pub fn from_str(s: &str) -> (r: Result<ThumbKind, ()>)
        ensures
            match r {
                Ok(v) => thumb_kind_wire(v) == s@,
                Err(_) => s@ != "s"@ && s@ != "m"@ && s@ != "x"@ && s@ != "o"@ && s@ != "p"@ && s@
                    != "q"@ && s@ != "y"@ && s@ != "z"@ && s@ != "w"@,
            },
    {
        if str_eq(s, "s") {
            Ok(ThumbKind::Prop75)
        } else if str_eq(s, "m") {
            Ok(ThumbKind::Prop130)
        } else if str_eq(s, "x") {
            Ok(ThumbKind::Prop604)
        } else if str_eq(s, "o") {
            Ok(ThumbKind::Adapt130)
        } else if str_eq(s, "p") {
            Ok(ThumbKind::Adapt200)
        } else if str_eq(s, "q") {
            Ok(ThumbKind::Adapt320)
        } else if str_eq(s, "y") {
            Ok(ThumbKind::Prop807)
        } else if str_eq(s, "z") {
            Ok(ThumbKind::Prop1280x1024)
        } else if str_eq(s, "w") {
            Ok(ThumbKind::Prop2560x2048)
        } else {
            Err(())
        }
    }
}

impl FromJson for Thumb {
    open spec fn decodes_to(j: Json, v: Thumb) -> bool {
        &&& field_decodes_to::<String>(j, "src"@, v.src)
        &&& field_decodes_to::<u16>(j, "width"@, v.width)
        &&& field_decodes_to::<u16>(j, "height"@, v.height)
        &&& match json_lookup(j, "type"@) {
            Some(Json::Str(s)) => thumb_kind_wire(v.kind) == s@,
            _ => false,
        }
    }

    open spec fn decodable(j: Json) -> bool {
        &&& field_decodable::<String>(j, "src"@)
        &&& field_decodable::<u16>(j, "width"@)
        &&& field_decodable::<u16>(j, "height"@)
        &&& match json_lookup(j, "type"@) {
            Some(Json::Str(s)) => s@ == "s"@ || s@ == "m"@ || s@ == "x"@ || s@ == "o"@ || s@
                == "p"@ || s@ == "q"@ || s@ == "y"@ || s@ == "z"@ || s@ == "w"@,
            _ => false,
        }
    }

    fn from_json(j: &Json) -> (r: Result<Thumb, DecodeError>) {
        let src = match decode_field::<String>(j, "src") {
            Ok(v) => v,
            Err(e) => {
                return Err(e);
            },
        };
        let width = match decode_field::<u16>(j, "width") {
            Ok(v) => v,
            Err(e) => {
                return Err(e);
            },
        };
        let height = match decode_field::<u16>(j, "height") {
            Ok(v) => v,
            Err(e) => {
                return Err(e);
            },
        };
        let kind = match j.lookup("type") {
            Some(Json::Str(s)) => match ThumbKind::from_str(s.as_str()) {
                Ok(v) => v,
                Err(_) => {
                    return Err(DecodeError::TypeMismatch);
                },
            },
            _ => {
                return Err(DecodeError::TypeMismatch);
            },
        };
        Ok(Thumb { src, width, height, kind })
    }
}

/// Where to upload photos for an album.
#[derive(Debug, PartialEq, Eq, Clone)]
pub struct UploadServer {
    pub upload_url: String,
    pub album_id: Id,
    pub user_id: Id,
}

impl FromJson for UploadServer {
    open spec fn decodes_to(j: Json, v: UploadServer) -> bool {
        &&& field_decodes_to::<String>(j, "upload_url"@, v.upload_url)
        &&& field_decodes_to::<u64>(j, "album_id"@, v.album_id)
        &&& field_decodes_to::<u64>(j, "user_id"@, v.user_id)
    }

    open spec fn decodable(j: Json) -> bool {
        &&& field_decodable::<String>(j, "upload_url"@)
        &&& field_decodable::<u64>(j, "album_id"@)
        &&& field_decodable::<u64>(j, "user_id"@)
    }

    fn from_json(j: &Json) -> (r: Result<UploadServer, DecodeError>) {
        let upload_url = match decode_field::<String>(j, "upload_url") {
            Ok(v) => v,
            Err(e) => {
                return Err(e);
            },
        };
        let album_id = match decode_field::<u64>(j, "album_id") {
            Ok(v) => v,
            Err(e) => {
                return Err(e);
            },
        };
        let user_id = match decode_field::<u64>(j, "user_id") {
            Ok(v) => v,
            Err(e) => {
                return Err(e);
            },
        };
        Ok(UploadServer { upload_url, album_id, user_id })
    }
}

/// Where to upload, when only the URL matters.
#[derive(Debug, PartialEq, Eq, Clone)]
pub struct UploadUrl {
    pub upload_url: String,
}

impl FromJson for UploadUrl {
    open spec fn decodes_to(j: Json, v: UploadUrl) -> bool {
        field_decodes_to::<String>(j, "upload_url"@, v.upload_url)
    }

    open spec fn decodable(j: Json) -> bool {
        field_decodable::<String>(j, "upload_url"@)
    }

    fn from_json(j: &Json) -> (r: Result<UploadUrl, DecodeError>) {
        match decode_field::<String>(j, "upload_url") {
            Ok(v) => Ok(UploadUrl { upload_url: v }),
            Err(e) => Err(e),
        }
    }
}

/// What the upload server answered for a stored photo.
#[derive(Debug, PartialEq, Eq, Clone)]
pub struct SavedPhoto {
    pub hash: String,
    pub src: String,
    pub src_big: Option<String>,
    pub src_small: Option<String>,
}

impl FromJson for SavedPhoto {
    open spec fn decodes_to(j: Json, v: SavedPhoto) -> bool {
        &&& field_decodes_to::<String>(j, "hash"@, v.hash)
        &&& field_decodes_to::<String>(j, "src"@, v.src)
        &&& opt_field_decodes_to::<String>(j, "src_big"@, v.src_big)
        &&& opt_field_decodes_to::<String>(j, "src_small"@, v.src_small)
    }

    open spec fn decodable(j: Json) -> bool {
        &&& field_decodable::<String>(j, "hash"@)
        &&& field_decodable::<String>(j, "src"@)
        &&& opt_field_decodable::<String>(j, "src_big"@)
        &&& opt_field_decodable::<String>(j, "src_small"@)
    }

    fn from_json(j: &Json) -> (r: Result<SavedPhoto, DecodeError>) {
        let hash = match decode_field::<String>(j, "hash") {
            Ok(v) => v,
            Err(e) => {
                return Err(e);
            },
        };
        let src = match decode_field::<String>(j, "src") {
            Ok(v) => v,
            Err(e) => {
                return Err(e);
            },
        };
        let src_big = match decode_opt_field::<String>(j, "src_big") {
            Ok(v) => v,
            Err(e) => {
                return Err(e);
            },
        };
        let src_small = match decode_opt_field::<String>(j, "src_small") {
            Ok(v) => v,
            Err(e) => {
                return Err(e);
            },
        };
        Ok(SavedPhoto { hash, src, src_big, src_small })
    }
}

/// A photo list's sort order.
#[derive(Debug, PartialEq, Eq, Copy, Clone, Structural)]
pub enum Sort {
    DateAdded,
    Popularity,
}

/// The wire word of a photo sort (this table is numeric strings).
pub open spec fn sort_wire(s: Sort) -> Seq<char> {
    match s {
        Sort::DateAdded => "0"@,
        Sort::Popularity => "1"@,
    }
}

impl Sort {
    /// The fixed wire word.
    pub fn as_str(&self) -> (r: &'static str)
        ensures
            r@ == sort_wire(*self),
    {
        match *self {
            Sort::DateAdded => "0",
            Sort::Popularity => "1",
        }
    }
}

impl Default for Sort {
    fn default() -> (r: Sort)
        ensures
            r == Sort::Popularity,
    {
        Sort::Popularity
    }
}

} // verus!
