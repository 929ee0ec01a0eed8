//! Audio objects and their genre table.

use vstd::prelude::*;

use crate::api::{Id, OwnerId, Duration};
use crate::json::{Json, DecodeError, FromJson, json_lookup, field_decodes_to, field_decodable, decode_field, decode_opt_field, opt_field_decodes_to, opt_field_decodable};

verus! {

/// A music genre, one variant per documented wire genre id; ids outside
/// the table are carried through `Unknown`.
#[derive(Clone, Copy, Debug, PartialEq, Eq, Structural)]
pub enum Genre {
    Rock,
    Pop,
    RapHipHop,
    EasyListen,
    DanceHouse,
    Instrumental,
    Metal,
    Alternative,
    Dubstep,
    JazzBlues,
    DrumBass,
    Trance,
    Chanson,
    Ethnic,
    AcousticVocal,
    Reggae,
    Classical,
    IndiePop,
    Speech,
    ElectropopDisco,
    Other,
    Unknown(u32),
}

/// The genre a wire id denotes.
pub open spec fn genre_of(v: u32) -> Genre {
    if v == 1 {
        Genre::Rock
    } else if v == 2 {
        Genre::Pop
    } else if v == 3 {
        Genre::RapHipHop
    } else if v == 4 {
        Genre::EasyListen
    } else if v == 5 {
        Genre::DanceHouse
    } else if v == 6 {
        Genre::Instrumental
    } else if v == 7 {
        Genre::Metal
    } else if v == 21 {
        Genre::Alternative
    } else if v == 8 {
        Genre::Dubstep
    } else if v == 9 {
        Genre::JazzBlues
    } else if v == 10 {
        Genre::DrumBass
    } else if v == 11 {
        Genre::Trance
    } else if v == 12 {
        Genre::Chanson
    } else if v == 13 {
        Genre::Ethnic
    } else if v == 14 {
        Genre::AcousticVocal
    } else if v == 15 {
        Genre::Reggae
    } else if v == 16 {
        Genre::Classical
    } else if v == 17 {
        Genre::IndiePop
    } else if v == 19 {
        Genre::Speech
    } else if v == 22 {
        Genre::ElectropopDisco
    } else if v == 18 {
        Genre::Other
    } else {
        Genre::Unknown(v)
    }
}

/// The wire id of a genre.
pub open spec fn genre_id(g: Genre) -> u32 {
    match g {
        Genre::Rock => 1,
        Genre::Pop => 2,
        Genre::RapHipHop => 3,
        Genre::EasyListen => 4,
        Genre::DanceHouse => 5,
        Genre::Instrumental => 6,
        Genre::Metal => 7,
        Genre::Alternative => 21,
        Genre::Dubstep => 8,
        Genre::JazzBlues => 9,
        Genre::DrumBass => 10,
        Genre::Trance => 11,
        Genre::Chanson => 12,
        Genre::Ethnic => 13,
        Genre::AcousticVocal => 14,
        Genre::Reggae => 15,
        Genre::Classical => 16,
        Genre::IndiePop => 17,
        Genre::Speech => 19,
        Genre::ElectropopDisco => 22,
        Genre::Other => 18,
        Genre::Unknown(v) => v,
    }
}

/// A human-readable name for each genre.
pub open spec fn genre_name(g: Genre) -> Seq<char> {
    match g {
        Genre::Rock => "rock"@,
        Genre::Pop => "pop"@,
        Genre::RapHipHop => "rap & hiphop"@,
        Genre::EasyListen => "easy listening"@,
        Genre::DanceHouse => "dance & house"@,
        Genre::Instrumental => "instrumental"@,
        Genre::Metal => "metal"@,
        Genre::Alternative => "alternative"@,
        Genre::Dubstep => "dubstep"@,
        Genre::JazzBlues => "jazz & blues"@,
        Genre::DrumBass => "drum & bass"@,
        Genre::Trance => "trance"@,
        Genre::Chanson => "chanson"@,
        Genre::Ethnic => "ethnic"@,
        Genre::AcousticVocal => "acoustic & vocal"@,
        Genre::Reggae => "reggae"@,
        Genre::Classical => "classical"@,
        Genre::IndiePop => "indie pop"@,
        Genre::Speech => "speech"@,
        Genre::ElectropopDisco => "electro pop & disco"@,
        Genre::Other => "other"@,
        Genre::Unknown(_) => "unknown"@,
    }
}

impl Genre {
    /// Maps a wire genre id to its variant; unnamed ids become `Unknown`.
    pub fn from_id(v: u32) -> (r: Genre)
        ensures
            r == genre_of(v),
    {
        match v {
            1 => Genre::Rock,
            2 => Genre::Pop,
            3 => Genre::RapHipHop,
            4 => Genre::EasyListen,
            5 => Genre::DanceHouse,
            6 => Genre::Instrumental,
            7 => Genre::Metal,
            21 => Genre::Alternative,
            8 => Genre::Dubstep,
            9 => Genre::JazzBlues,
            10 => Genre::DrumBass,
            11 => Genre::Trance,
            12 => Genre::Chanson,
            13 => Genre::Ethnic,
            14 => Genre::AcousticVocal,
            15 => Genre::Reggae,
            16 => Genre::Classical,
            17 => Genre::IndiePop,
            19 => Genre::Speech,
            22 => Genre::ElectropopDisco,
            18 => Genre::Other,
            other => Genre::Unknown(other),
        }
    }

    /// The wire id: the exact inverse of `from_id` for named genres, the
    /// stored id for `Unknown`.
    pub fn id(self) -> (r: u32)
        ensures
            r == genre_id(self),
    {
        match self {
            Genre::Rock => 1,
            Genre::Pop => 2,
            Genre::RapHipHop => 3,
            Genre::EasyListen => 4,
            Genre::DanceHouse => 5,
            Genre::Instrumental => 6,
            Genre::Metal => 7,
            Genre::Alternative => 21,
            Genre::Dubstep => 8,
            Genre::JazzBlues => 9,
            Genre::DrumBass => 10,
            Genre::Trance => 11,
            Genre::Chanson => 12,
            Genre::Ethnic => 13,
            Genre::AcousticVocal => 14,
            Genre::Reggae => 15,
            Genre::Classical => 16,
            Genre::IndiePop => 17,
            Genre::Speech => 19,
            Genre::ElectropopDisco => 22,
            Genre::Other => 18,
            Genre::Unknown(v) => v,
        }
    }

    /// A human-readable name for the genre.
    pub fn name(self) -> (r: &'static str)
        ensures
            r@ == genre_name(self),
    {
        match self {
            Genre::Rock => "rock",
            Genre::Pop => "pop",
            Genre::RapHipHop => "rap & hiphop",
            Genre::EasyListen => "easy listening",
            Genre::DanceHouse => "dance & house",
            Genre::Instrumental => "instrumental",
            Genre::Metal => "metal",
            Genre::Alternative => "alternative",
            Genre::Dubstep => "dubstep",
            Genre::JazzBlues => "jazz & blues",
            Genre::DrumBass => "drum & bass",
            Genre::Trance => "trance",
            Genre::Chanson => "chanson",
            Genre::Ethnic => "ethnic",
            Genre::AcousticVocal => "acoustic & vocal",
            Genre::Reggae => "reggae",
            Genre::Classical => "classical",
            Genre::IndiePop => "indie pop",
            Genre::Speech => "speech",
            Genre::ElectropopDisco => "electro pop & disco",
            Genre::Other => "other",
            Genre::Unknown(_) => "unknown",
        }
    }
}

/// Law: mapping a wire genre id to its variant and back returns the id
/// unchanged, for every id.
pub proof fn lemma_genre_round_trip(v: u32)
    ensures
        genre_id(genre_of(v)) == v,
{
}

/// An audio track.
#[derive(Debug, PartialEq, Eq, Clone)]
pub struct Audio {
    pub id: Id,
    pub owner_id: OwnerId,
    pub artist: String,
    pub title: String,
    pub duration: Duration,
    pub url: String,
    pub lyrics_id: Option<Id>,
    pub album_id: Option<Id>,
    pub genre: Option<Genre>,
}

impl FromJson for Audio {
    open spec fn decodes_to(j: Json, v: Audio) -> bool {
        &&& field_decodes_to::<u64>(j, "id"@, v.id)
        &&& field_decodes_to::<i64>(j, "owner_id"@, v.owner_id)
        &&& field_decodes_to::<String>(j, "artist"@, v.artist)
        &&& field_decodes_to::<String>(j, "title"@, v.title)
        &&& field_decodes_to::<u32>(j, "duration"@, v.duration)
        &&& field_decodes_to::<String>(j, "url"@, v.url)
        &&& opt_field_decodes_to::<u64>(j, "lyrics_id"@, v.lyrics_id)
        &&& opt_field_decodes_to::<u64>(j, "album_id"@, v.album_id)
        &&& match json_lookup(j, "genre_id"@) {
            Some(Json::UInt(u)) => u <= 0xffff_ffff && v.genre == Some(genre_of(u as u32)),
            Some(Json::Null) => v.genre is None,
            Some(_) => false,
            None => v.genre is None,
        }
    }

    open spec fn decodable(j: Json) -> bool {
        &&& field_decodable::<u64>(j, "id"@)
        &&& field_decodable::<i64>(j, "owner_id"@)
        &&& field_decodable::<String>(j, "artist"@)
        &&& field_decodable::<String>(j, "title"@)
        &&& field_decodable::<u32>(j, "duration"@)
        &&& field_decodable::<String>(j, "url"@)
        &&& opt_field_decodable::<u64>(j, "lyrics_id"@)
        &&& opt_field_decodable::<u64>(j, "album_id"@)
        &&& match json_lookup(j, "genre_id"@) {
            Some(Json::UInt(u)) => u <= 0xffff_ffff,
            Some(Json::Null) => true,
            Some(_) => false,
            None => true,
        }
    }

    fn from_json(j: &Json) -> (r: Result<Audio, DecodeError>) {
        let id = match decode_field::<u64>(j, "id") {
            Ok(v) => v,
            Err(e) => {
                return Err(e);
            },
        };
        let owner_id = match decode_field::<i64>(j, "owner_id") {
            Ok(v) => v,
            Err(e) => {
                return Err(e);
            },
        };
        let artist = match decode_field::<String>(j, "artist") {
            Ok(v) => v,
            Err(e) => {
                return Err(e);
            },
        };
        let title = match decode_field::<String>(j, "title") {
            Ok(v) => v,
            Err(e) => {
                return Err(e);
            },
        };
        let duration = match decode_field::<u32>(j, "duration") {
            Ok(v) => v,
            Err(e) => {
                return Err(e);
            },
        };
        let url = match decode_field::<String>(j, "url") {
            Ok(v) => v,
            Err(e) => {
                return Err(e);
            },
        };
        let lyrics_id = match decode_opt_field::<u64>(j, "lyrics_id") {
            Ok(v) => v,
            Err(e) => {
                return Err(e);
            },
        };
        let album_id = match decode_opt_field::<u64>(j, "album_id") {
            Ok(v) => v,
            Err(e) => {
                return Err(e);
            },
        };
        let genre = match j.lookup("genre_id") {
            Some(g) => match g {
                Json::UInt(u) => {
                    if *u <= 0xffff_ffff {
                        Some(Genre::from_id(*u as u32))
                    } else {
                        return Err(DecodeError::TypeMismatch);
                    }
                },
                Json::Null => None,
                _ => {
                    return Err(DecodeError::TypeMismatch);
                },
            },
            None => None,
        };
        Ok(Audio { id, owner_id, artist, title, duration, url, lyrics_id, album_id, genre })
    }
}

} // verus!
