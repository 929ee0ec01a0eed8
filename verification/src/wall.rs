//! Wall posts and their counters.

use vstd::prelude::*;

use crate::api::{Bool, Id, LikesCount, OwnerId, Timestamp};
use crate::json::{Json, DecodeError, FromJson, field_decodes_to, field_decodable, decode_field};

verus! {

/// A post on a wall, with its counters and flags.
#[derive(Debug, PartialEq, Eq, Clone)]
pub struct WallPost {
    pub id: Id,
    pub owner_id: OwnerId,
    pub from_id: OwnerId,
    pub date: Timestamp,
    pub text: String,
    pub reply_owner_id: OwnerId,
    pub reply_post_id: Id,
    pub friends_only: Bool,
    pub comments: CommentsCount,
    pub likes: LikesCount,
    pub reposts: RepostsCount,
    pub post_type: PostType,
    pub post_source: PostSource,
    pub attachments: Vec<Attachment>,
    pub geo: GeoLocation,
    pub signer_id: Id,
    pub copy_history: Option<Vec<RepostInfo>>,
    pub can_pin: Bool,
    pub is_pinned: Bool,
}

/// How many comments a post has, and whether the current user may add
/// one.
#[derive(Debug, PartialEq, Eq, Clone, Copy, Structural)]
pub struct CommentsCount {
    pub count: u32,
    pub can_post: Bool,
}

impl FromJson for CommentsCount {
    open spec fn decodes_to(j: Json, v: CommentsCount) -> bool {
        &&& field_decodes_to::<u32>(j, "count"@, v.count)
        &&& field_decodes_to::<u8>(j, "can_post"@, v.can_post)
    }

    open spec fn decodable(j: Json) -> bool {
        &&& field_decodable::<u32>(j, "count"@)
        &&& field_decodable::<u8>(j, "can_post"@)
    }

    fn from_json(j: &Json) -> (r: Result<CommentsCount, DecodeError>) {
        let count = match decode_field::<u32>(j, "count") {
            Ok(v) => v,
            Err(e) => {
                return Err(e);
            },
        };
        let can_post = match decode_field::<u8>(j, "can_post") {
            Ok(v) => v,
            Err(e) => {
                return Err(e);
            },
        };
        Ok(CommentsCount { count, can_post })
    }
}

/// How many reposts a post has, and whether the current user reposted.
#[derive(Debug, PartialEq, Eq, Clone, Copy, Structural)]
pub struct RepostsCount {
    pub count: u32,
    pub user_reposted: Bool,
}

impl FromJson for RepostsCount {
    open spec fn decodes_to(j: Json, v: RepostsCount) -> bool {
        &&& field_decodes_to::<u32>(j, "count"@, v.count)
        &&& field_decodes_to::<u8>(j, "user_reposted"@, v.user_reposted)
    }

    open spec fn decodable(j: Json) -> bool {
        &&& field_decodable::<u32>(j, "count"@)
        &&& field_decodable::<u8>(j, "user_reposted"@)
    }

    fn from_json(j: &Json) -> (r: Result<RepostsCount, DecodeError>) {
        let count = match decode_field::<u32>(j, "count") {
            Ok(v) => v,
            Err(e) => {
                return Err(e);
            },
        };
        let user_reposted = match decode_field::<u8>(j, "user_reposted") {
            Ok(v) => v,
            Err(e) => {
                return Err(e);
            },
        };
        Ok(RepostsCount { count, user_reposted })
    }
}

/// What kind of entry a wall item is.
#[derive(Debug, PartialEq, Eq, Clone, Copy, Structural)]
pub enum PostType {
    Post,
    Copy,
    Reply,
    Postpone,
    Suggest,
}

/// Where a post was made from.
#[derive(Debug, PartialEq, Eq, Clone, Copy, Structural)]
pub struct PostSource;

/// A media object attached to a wall post.
#[derive(Debug, PartialEq, Eq, Clone, Copy, Structural)]
pub struct Attachment;

/// The place a post was made at.
#[derive(Debug, PartialEq, Eq, Clone, Copy, Structural)]
pub struct GeoLocation;

/// The reposted original a post carries.
#[derive(Debug, PartialEq, Eq, Clone, Copy, Structural)]
pub struct RepostInfo;

/// The id a posting endpoint answers with.
#[derive(Debug, PartialEq, Eq, Clone, Copy, Structural)]
pub struct PostId {
    pub post_id: Id,
}

impl FromJson for PostId {
    open spec fn decodes_to(j: Json, v: PostId) -> bool {
        field_decodes_to::<u64>(j, "post_id"@, v.post_id)
    }

    open spec fn decodable(j: Json) -> bool {
        field_decodable::<u64>(j, "post_id"@)
    }

    fn from_json(j: &Json) -> (r: Result<PostId, DecodeError>) {
        match decode_field::<u64>(j, "post_id") {
            Ok(v) => Ok(PostId { post_id: v }),
            Err(e) => Err(e),
        }
    }
}

} // verus!
