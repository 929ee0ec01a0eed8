//! Link checking and screen-name resolution payloads.

use vstd::prelude::*;

use crate::api::Id;
use crate::json::{Json, DecodeError, FromJson, json_lookup, field_decodes_to, field_decodable, decode_field, str_eq};

verus! {

/// The verdict on a checked link.
#[derive(Debug, PartialEq, Eq, Copy, Clone, Structural)]
pub enum LinkStatus {
    NotBanned,
    Banned,
    Processing,
}

/// The wire word of a link verdict.
pub open spec fn link_status_wire(s: LinkStatus) -> Seq<char> {
    match s {
        LinkStatus::NotBanned => "not_banned"@,
        LinkStatus::Banned => "banned"@,
        LinkStatus::Processing => "processing"@,
    }
}

impl LinkStatus {
    /// The fixed wire word.
    pub fn as_str(&self) -> (r: &'static str)
        ensures
            r@ == link_status_wire(*self),
    {
        match *self {
            LinkStatus::NotBanned => "not_banned",
            LinkStatus::Banned => "banned",
            LinkStatus::Processing => "processing",
        }
    }

    /// The verdict a wire word names, if any.
    pub fn from_str(s: &str) -> (r: Result<LinkStatus, ()>)
        ensures
            match r {
                Ok(v) => link_status_wire(v) == s@,
                Err(_) => s@ != "not_banned"@ && s@ != "banned"@ && s@ != "processing"@,
            },
    {
        if str_eq(s, "not_banned") {
            Ok(LinkStatus::NotBanned)
        } else if str_eq(s, "banned") {
            Ok(LinkStatus::Banned)
        } else if str_eq(s, "processing") {
            Ok(LinkStatus::Processing)
        } else {
            Err(())
        }
    }
}

/// What the server knows about a checked link.
#[derive(Debug, PartialEq, Eq, Clone)]
pub struct LinkInfo {
    pub status: LinkStatus,
    pub link: String,
}

impl FromJson for LinkInfo {
    open spec fn decodes_to(j: Json, v: LinkInfo) -> bool {
        &&& match json_lookup(j, "status"@) {
            Some(Json::Str(s)) => link_status_wire(v.status) == s@,
            _ => false,
        }
        &&& field_decodes_to::<String>(j, "link"@, v.link)
    }

    open spec fn decodable(j: Json) -> bool {
        &&& match json_lookup(j, "status"@) {
            Some(Json::Str(s)) => s@ == "not_banned"@ || s@ == "banned"@ || s@ == "processing"@,
            _ => false,
        }
        &&& field_decodable::<String>(j, "link"@)
    }

    fn from_json(j: &Json) -> (r: Result<LinkInfo, DecodeError>) {
        let status = match j.lookup("status") {
            Some(Json::Str(s)) => match LinkStatus::from_str(s.as_str()) {
                Ok(v) => v,
                Err(_) => {
                    return Err(DecodeError::TypeMismatch);
                },
            },
            _ => {
                return Err(DecodeError::TypeMismatch);
            },
        };
        let link = match decode_field::<String>(j, "link") {
            Ok(v) => v,
            Err(e) => {
                return Err(e);
            },
        };
        Ok(LinkInfo { status, link })
    }
}

/// What object a screen name refers to.
#[derive(Debug, PartialEq, Eq, Clone)]
pub struct ScreenNameInfo {
    pub kind: String,
    pub object_id: Id,
}

impl FromJson for ScreenNameInfo {
    open spec fn decodes_to(j: Json, v: ScreenNameInfo) -> bool {
        &&& field_decodes_to::<String>(j, "type"@, v.kind)
        &&& field_decodes_to::<u64>(j, "object_id"@, v.object_id)
    }

    open spec fn decodable(j: Json) -> bool {
        &&& field_decodable::<String>(j, "type"@)
        &&& field_decodable::<u64>(j, "object_id"@)
    }

    fn from_json(j: &Json) -> (r: Result<ScreenNameInfo, DecodeError>) {
        let kind = match decode_field::<String>(j, "type") {
            Ok(v) => v,
            Err(e) => {
                return Err(e);
            },
        };
        let object_id = match decode_field::<u64>(j, "object_id") {
            Ok(v) => v,
            Err(e) => {
                return Err(e);
            },
        };
        Ok(ScreenNameInfo { kind, object_id })
    }
}

} // verus!
