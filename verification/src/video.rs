//! Video objects, albums and the video catalog.

use vstd::prelude::*;

use crate::api::{Bool, Duration, Id, LikesCount, OwnerId, Timestamp};
use crate::json::{Json, DecodeError, FromJson, opt_field_decodes_to, opt_field_decodable, decode_opt_field, str_eq};

verus! {

/// A video and its playback information.
#[derive(Debug, Clone, PartialEq, Eq)]
pub struct Video {
    pub id: Id,
    pub owner_id: OwnerId,
    pub album_id: Option<Id>,
    pub user_id: Option<Id>,
    pub title: String,
    pub duration: Duration,
    pub description: String,
    pub date: Timestamp,
    pub views: u32,
    pub comments: u32,
    pub photo_130: String,
    pub photo_320: String,
    pub photo_640: Option<String>,
    pub photo_800: Option<String>,
    pub adding_date: Option<Timestamp>,
    pub player: String,
    pub can_add: Bool,
    pub can_edit: Bool,
    pub can_report: Bool,
    pub can_comment: Bool,
    pub converting: Bool,
    pub repeat: Bool,
    pub files: Option<VideoFiles>,
    pub likes: Option<LikesCount>,
    pub placer_id: Option<Id>,
    pub tag_created: Option<Timestamp>,
    pub tag_id: Option<Id>,
}

/// Direct file URLs of a video's renditions.
#[derive(Debug, Clone, PartialEq, Eq)]
pub struct VideoFiles {
    pub mp4_240: Option<String>,
    pub mp4_360: Option<String>,
    pub mp4_480: Option<String>,
    pub mp4_720: Option<String>,
    pub external: Option<String>,
}

impl FromJson for VideoFiles {
    open spec fn decodes_to(j: Json, v: VideoFiles) -> bool {
        &&& opt_field_decodes_to::<String>(j, "mp4_240"@, v.mp4_240)
        &&& opt_field_decodes_to::<String>(j, "mp4_360"@, v.mp4_360)
        &&& opt_field_decodes_to::<String>(j, "mp4_480"@, v.mp4_480)
        &&& opt_field_decodes_to::<String>(j, "mp4_720"@, v.mp4_720)
        &&& opt_field_decodes_to::<String>(j, "external"@, v.external)
    }

    open spec fn decodable(j: Json) -> bool {
        &&& opt_field_decodable::<String>(j, "mp4_240"@)
        &&& opt_field_decodable::<String>(j, "mp4_360"@)
        &&& opt_field_decodable::<String>(j, "mp4_480"@)
        &&& opt_field_decodable::<String>(j, "mp4_720"@)
        &&& opt_field_decodable::<String>(j, "external"@)
    }

    fn from_json(j: &Json) -> (r: Result<VideoFiles, DecodeError>) {
        let mp4_240 = match decode_opt_field::<String>(j, "mp4_240") {
            Ok(v) => v,
            Err(e) => {
                return Err(e);
            },
        };
        let mp4_360 = match decode_opt_field::<String>(j, "mp4_360") {
            Ok(v) => v,
            Err(e) => {
                return Err(e);
            },
        };
        let mp4_480 = match decode_opt_field::<String>(j, "mp4_480") {
            Ok(v) => v,
            Err(e) => {
                return Err(e);
            },
        };
        let mp4_720 = match decode_opt_field::<String>(j, "mp4_720") {
            Ok(v) => v,
            Err(e) => {
                return Err(e);
            },
        };
        let external = match decode_opt_field::<String>(j, "external") {
            Ok(v) => v,
            Err(e) => {
                return Err(e);
            },
        };
        Ok(VideoFiles { mp4_240, mp4_360, mp4_480, mp4_720, external })
    }
}

/// What the upload endpoint answers for a stored video.
#[derive(Debug, Clone, PartialEq, Eq)]
pub struct SavedVideo {
    pub upload_url: String,
    pub vid: Id,
    pub owner_id: OwnerId,
    pub name: String,
    pub description: String,
    pub access_key: Option<String>,
}

/// A video album.
#[derive(Debug, Clone, PartialEq, Eq)]
pub struct Album {
    pub id: Id,
    pub owner_id: OwnerId,
    pub title: String,
    pub count: usize,
    pub updated_time: Timestamp,
    pub photo_130: Option<String>,
    pub photo_160: Option<String>,
    pub photo_320: Option<String>,
    pub photo_640: Option<String>,
    pub photo_800: Option<String>,
    pub is_system: Bool,
    pub can_comment: Bool,
    pub can_repost: Bool,
}

/// One page of a catalog listing, with the cursor to the next.
#[derive(Debug, Clone, PartialEq, Eq)]
pub struct Page<T> {
    pub items: Vec<T>,
    pub next: Option<String>,
}

/// What kind of block a catalog section is.
#[derive(Debug, Clone, Copy, PartialEq, Eq, Structural)]
pub enum CatalogBlockKind {
    Channel,
    Category,
}

/// The wire word of a catalog block kind.
pub open spec fn catalog_block_kind_wire(k: CatalogBlockKind) -> Seq<char> {
    match k {
        CatalogBlockKind::Channel => "channel"@,
        CatalogBlockKind::Category => "category"@,
    }
}

impl CatalogBlockKind {
    /// The fixed wire word.
    pub fn as_str(&self) -> (r: &'static str)
        ensures
            r@ == catalog_block_kind_wire(*self),
    {
        match *self {
            CatalogBlockKind::Channel => "channel",
            CatalogBlockKind::Category => "category",
        }
    }
}

/// What kind of entry a catalog item is.
#[derive(Debug, Clone, Copy, PartialEq, Eq, Structural)]
pub enum CatalogItemKind {
    Video,
    Album,
}

/// The wire word of a catalog item kind.
pub open spec fn catalog_item_kind_wire(k: CatalogItemKind) -> Seq<char> {
    match k {
        CatalogItemKind::Video => "video"@,
        CatalogItemKind::Album => "album"@,
    }
}

impl CatalogItemKind {
    /// The fixed wire word.
    pub fn as_str(&self) -> (r: &'static str)
        ensures
            r@ == catalog_item_kind_wire(*self),
    {
        match *self {
            CatalogItemKind::Video => "video",
            CatalogItemKind::Album => "album",
        }
    }

    /// The kind a wire word names, if any.
    pub fn from_str(s: &str) -> (r: Result<CatalogItemKind, ()>)
        ensures
            match r {
                Ok(v) => catalog_item_kind_wire(v) == s@,
                Err(_) => s@ != "video"@ && s@ != "album"@,
            },
    {
        if str_eq(s, "video") {
            Ok(CatalogItemKind::Video)
        } else if str_eq(s, "album") {
            Ok(CatalogItemKind::Album)
        } else {
            Err(())
        }
    }
}

/// One section of the video catalog.
#[derive(Debug, Clone, PartialEq, Eq)]
pub struct CatalogBlock {
    pub name: String,
    pub id: Id,
    pub items: Vec<CatalogItem>,
    pub next: Option<String>,
    pub view: String,
    pub can_hide: Bool,
    pub kind: CatalogBlockKind,
}

/// One entry of a catalog section: a video or an album, with the fields
/// of the other kind left at their defaults.
#[derive(Debug, Clone, PartialEq, Eq)]
pub struct CatalogItem {
    pub id: Id,
    pub owner_id: OwnerId,
    pub title: String,
    pub kind: CatalogItemKind,
    pub duration: Duration,
    pub description: Option<String>,
    pub date: Timestamp,
    pub views: u32,
    pub comments: u32,
    pub photo_130: Option<String>,
    pub photo_160: Option<String>,
    pub photo_320: Option<String>,
    pub photo_640: Option<String>,
    pub photo_800: Option<String>,
    pub can_add: Bool,
    pub can_edit: Bool,
    pub count: u32,
    pub updated_time: Timestamp,
}

/// Who may watch or comment a video.
#[derive(Debug, PartialEq, Eq, Copy, Clone, Structural)]
pub enum Privacy {
    All,
    Friends,
    FriendsOfFriends,
    OnlyMe,
}

/// The wire word of a video privacy choice (this table is numeric
/// strings).
pub open spec fn privacy_wire(p: Privacy) -> Seq<char> {
    match p {
        Privacy::All => "0"@,
        Privacy::Friends => "1"@,
        Privacy::FriendsOfFriends => "2"@,
        Privacy::OnlyMe => "3"@,
    }
}

impl Privacy {
    /// The fixed wire word.
    pub fn as_str(&self) -> (r: &'static str)
        ensures
            r@ == privacy_wire(*self),
    {
        match *self {
            Privacy::All => "0",
            Privacy::Friends => "1",
            Privacy::FriendsOfFriends => "2",
            Privacy::OnlyMe => "3",
        }
    }
}

} // verus!
