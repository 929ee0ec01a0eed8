//! The user status: a line of text, optionally with a broadcast track.

use vstd::prelude::*;

use crate::audio::Audio;
use crate::json::{Json, DecodeError, FromJson, field_decodes_to, field_decodable, opt_field_decodes_to, opt_field_decodable, decode_field, decode_opt_field};

verus! {

/// A user's status line, with the track being broadcast, if any.
#[derive(Debug, PartialEq, Eq, Clone)]
pub struct Status {
    pub text: String,
    pub audio: Option<Audio>,
}

impl FromJson for Status {
    open spec fn decodes_to(j: Json, v: Status) -> bool {
        &&& field_decodes_to::<String>(j, "text"@, v.text)
        &&& opt_field_decodes_to::<Audio>(j, "audio"@, v.audio)
    }

    open spec fn decodable(j: Json) -> bool {
        &&& field_decodable::<String>(j, "text"@)
        &&& opt_field_decodable::<Audio>(j, "audio"@)
    }

    fn from_json(j: &Json) -> (r: Result<Status, DecodeError>) {
        let text = match decode_field::<String>(j, "text") {
            Ok(v) => v,
            Err(e) => {
                return Err(e);
            },
        };
        let audio = match decode_opt_field::<Audio>(j, "audio") {
            Ok(v) => v,
            Err(e) => {
                return Err(e);
            },
        };
        Ok(Status { text, audio })
    }
}

} // verus!
