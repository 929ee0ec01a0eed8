//! User-search parameter tables.

use vstd::prelude::*;

verus! {

/// The radius choices of a nearby-user search, as the wire numbers them.
#[derive(Debug, Eq, PartialEq, Copy, Clone, Structural)]
pub enum Radius {
    R300,
    R2400,
    R18000,
    R150000,
}

/// The wire word of a radius choice (this table is numeric strings).
pub open spec fn radius_wire(r: Radius) -> Seq<char> {
    match r {
        Radius::R300 => "1"@,
        Radius::R2400 => "2"@,
        Radius::R18000 => "3"@,
        Radius::R150000 => "4"@,
    }
}

impl Radius {
    /// The fixed wire word.
    pub fn as_str(&self) -> (r: &'static str)
        ensures
            r@ == radius_wire(*self),
    {
        match *self {
            Radius::R300 => "1",
            Radius::R2400 => "2",
            Radius::R18000 => "3",
            Radius::R150000 => "4",
        }
    }
}

/// A user search's sort order.
#[derive(Debug, Eq, PartialEq, Copy, Clone, Structural)]
pub enum Sort {
    Rating,
    DateRegistered,
}

/// The wire word of a user sort (this table is numeric strings).
pub open spec fn sort_wire(s: Sort) -> Seq<char> {
    match s {
        Sort::Rating => "0"@,
        Sort::DateRegistered => "1"@,
    }
}

impl Sort {
    /// The fixed wire word.
    pub fn as_str(&self) -> (r: &'static str)
        ensures
            r@ == sort_wire(*self),
    {
        match *self {
            Sort::Rating => "0",
            Sort::DateRegistered => "1",
        }
    }
}

/// A sex filter or report, as the wire numbers it.
#[derive(Debug, Eq, PartialEq, Copy, Clone, Structural)]
pub enum Sex {
    Any,
    Female,
    Male,
}

/// The sex a wire number denotes, if any.
pub open spec fn sex_of(v: u64) -> Option<Sex> {
    if v == 0 {
        Some(Sex::Any)
    } else if v == 1 {
        Some(Sex::Female)
    } else if v == 2 {
        Some(Sex::Male)
    } else {
        None
    }
}

/// The wire word of a sex filter (this table is numeric strings).
pub open spec fn sex_wire(s: Sex) -> Seq<char> {
    match s {
        Sex::Any => "0"@,
        Sex::Female => "1"@,
        Sex::Male => "2"@,
    }
}

impl Sex {
    /// The fixed wire word.
    pub fn as_str(&self) -> (r: &'static str)
        ensures
            r@ == sex_wire(*self),
    {
        match *self {
            Sex::Any => "0",
            Sex::Female => "1",
            Sex::Male => "2",
        }
    }

    /// Maps a wire number to the sex; numbers outside the table map to
    /// nothing.
    pub fn from_id(v: u64) -> (r: Option<Sex>)
        ensures
            r == sex_of(v),
    {
        match v {
            0 => Some(Sex::Any),
            1 => Some(Sex::Female),
            2 => Some(Sex::Male),
            _ => None,
        }
    }
}

/// A relationship status, as the wire numbers it.
#[derive(Debug, Eq, PartialEq, Copy, Clone, Structural)]
pub enum Status {
    Unspecified,
    NotMarried,
    InRelationship,
    Engaged,
    Married,
    ItsComplicated,
    ActiveSearch,
    InLove,
}

/// The relationship status a wire number denotes, if any.
pub open spec fn status_of(v: u64) -> Option<Status> {
    if v == 0 {
        Some(Status::Unspecified)
    } else if v == 1 {
        Some(Status::NotMarried)
    } else if v == 2 {
        Some(Status::InRelationship)
    } else if v == 3 {
        Some(Status::Engaged)
    } else if v == 4 {
        Some(Status::Married)
    } else if v == 5 {
        Some(Status::ItsComplicated)
    } else if v == 6 {
        Some(Status::ActiveSearch)
    } else if v == 7 {
        Some(Status::InLove)
    } else {
        None
    }
}

/// The wire word of a relationship status (this table is numeric
/// strings).
pub open spec fn status_wire(s: Status) -> Seq<char> {
    match s {
        Status::Unspecified => "0"@,
        Status::NotMarried => "1"@,
        Status::InRelationship => "2"@,
        Status::Engaged => "3"@,
        Status::Married => "4"@,
        Status::ItsComplicated => "5"@,
        Status::ActiveSearch => "6"@,
        Status::InLove => "7"@,
    }
}

impl Status {
    /// The fixed wire word.
    pub fn as_str(&self) -> (r: &'static str)
        ensures
            r@ == status_wire(*self),
    {
        match *self {
            Status::Unspecified => "0",
            Status::NotMarried => "1",
            Status::InRelationship => "2",
            Status::Engaged => "3",
            Status::Married => "4",
            Status::ItsComplicated => "5",
            Status::ActiveSearch => "6",
            Status::InLove => "7",
        }
    }

    /// Maps a wire number to the status; numbers outside the table map
    /// to nothing.
    pub fn from_id(v: u64) -> (r: Option<Status>)
        ensures
            r == status_of(v),
    {
        match v {
            0 => Some(Status::Unspecified),
            1 => Some(Status::NotMarried),
            2 => Some(Status::InRelationship),
            3 => Some(Status::Engaged),
            4 => Some(Status::Married),
            5 => Some(Status::ItsComplicated),
            6 => Some(Status::ActiveSearch),
            7 => Some(Status::InLove),
            _ => None,
        }
    }
}


/// The grammatical case a user's name is asked for in.
#[derive(Debug, Eq, PartialEq, Copy, Clone, Structural)]
pub enum NameCase {
    Nominative,
    Genetive,
    Dative,
    Accusative,
    Instrumental,
    Ablative,
}

/// The wire word of a name case.
pub open spec fn name_case_wire(v: NameCase) -> Seq<char> {
    match v {
        NameCase::Nominative => "nom"@,
        NameCase::Genetive => "gen"@,
        NameCase::Dative => "dat"@,
        NameCase::Accusative => "acc"@,
        NameCase::Instrumental => "ins"@,
        NameCase::Ablative => "abl"@,
    }
}

impl NameCase {
    /// The fixed wire word.
    pub fn as_str(&self) -> (r: &'static str)
        ensures
            r@ == name_case_wire(*self),
    {
        match *self {
            NameCase::Nominative => "nom",
            NameCase::Genetive => "gen",
            NameCase::Dative => "dat",
            NameCase::Accusative => "acc",
            NameCase::Instrumental => "ins",
            NameCase::Ablative => "abl",
        }
    }
}

/// An optional profile field a caller can ask to be included.
#[derive(Debug, Eq, PartialEq, Copy, Clone, Structural)]
pub enum UserOptionField {
    Verified,
    Blacklisted,
    Sex,
    Birthdate,
    City,
    Country,
    HomeTown,
    Photo50,
    Photo100,
    Photo200Orig,
    Photo200,
    Photo400Orig,
    PhotoMax,
    PhotoMaxOrig,
    Online,
    Lists,
    Domain,
    HasMobile,
    Contacts,
    Site,
    Education,
    Universities,
    Schools,
    Status,
    LastSeen,
    FollowersCount,
    CommonCount,
    Counters,
    Occupation,
    Nickname,
    Relatives,
    Relation,
    Personal,
    Connections,
    Exports,
    WallComments,
    Activities,
    Interests,
    Music,
    Movies,
    TvShows,
    Books,
    Games,
    About,
    Quotes,
    CanPost,
    CanSeeAllPosts,
    CanSeeAudio,
    CanWritePrivateMessage,
    Timezone,
    ScreenName,
}

/// The wire word of an optional profile field.
pub open spec fn user_option_field_wire(v: UserOptionField) -> Seq<char> {
    match v {
        UserOptionField::Verified => "verified"@,
        UserOptionField::Blacklisted => "blacklisted"@,
        UserOptionField::Sex => "sex"@,
        UserOptionField::Birthdate => "bdate"@,
        UserOptionField::City => "city"@,
        UserOptionField::Country => "country"@,
        UserOptionField::HomeTown => "home_town"@,
        UserOptionField::Photo50 => "photo_50"@,
        UserOptionField::Photo100 => "photo_100"@,
        UserOptionField::Photo200Orig => "photo_200_orig"@,
        UserOptionField::Photo200 => "photo_200"@,
        UserOptionField::Photo400Orig => "photo_400_orig"@,
        UserOptionField::PhotoMax => "photo_max"@,
        UserOptionField::PhotoMaxOrig => "photo_max_orig"@,
        UserOptionField::Online => "online"@,
        UserOptionField::Lists => "lists"@,
        UserOptionField::Domain => "domain"@,
        UserOptionField::HasMobile => "has_mobile"@,
        UserOptionField::Contacts => "contacts"@,
        UserOptionField::Site => "site"@,
        UserOptionField::Education => "education"@,
        UserOptionField::Universities => "universities"@,
        UserOptionField::Schools => "schools"@,
        UserOptionField::Status => "status"@,
        UserOptionField::LastSeen => "last_seen"@,
        UserOptionField::FollowersCount => "followers_count"@,
        UserOptionField::CommonCount => "common_count"@,
        UserOptionField::Counters => "counters"@,
        UserOptionField::Occupation => "occupation"@,
        UserOptionField::Nickname => "nickname"@,
        UserOptionField::Relatives => "relatives"@,
        UserOptionField::Relation => "relation"@,
        UserOptionField::Personal => "personal"@,
        UserOptionField::Connections => "connections"@,
        UserOptionField::Exports => "exports"@,
        UserOptionField::WallComments => "wall_comments"@,
        UserOptionField::Activities => "activities"@,
        UserOptionField::Interests => "interests"@,
        UserOptionField::Music => "music"@,
        UserOptionField::Movies => "movies"@,
        UserOptionField::TvShows => "tv"@,
        UserOptionField::Books => "books"@,
        UserOptionField::Games => "games"@,
        UserOptionField::About => "about"@,
        UserOptionField::Quotes => "quotes"@,
        UserOptionField::CanPost => "canPost"@,
        UserOptionField::CanSeeAllPosts => "can_see_all_posts"@,
        UserOptionField::CanSeeAudio => "can_see_audio"@,
        UserOptionField::CanWritePrivateMessage => "can_write_private_message"@,
        UserOptionField::Timezone => "timezone"@,
        UserOptionField::ScreenName => "screen_name"@,
    }
}

impl UserOptionField {
    /// The fixed wire word.
    pub fn as_str(&self) -> (r: &'static str)
        ensures
            r@ == user_option_field_wire(*self),
    {
        match *self {
            UserOptionField::Verified => "verified",
            UserOptionField::Blacklisted => "blacklisted",
            UserOptionField::Sex => "sex",
            UserOptionField::Birthdate => "bdate",
            UserOptionField::City => "city",
            UserOptionField::Country => "country",
            UserOptionField::HomeTown => "home_town",
            UserOptionField::Photo50 => "photo_50",
            UserOptionField::Photo100 => "photo_100",
            UserOptionField::Photo200Orig => "photo_200_orig",
            UserOptionField::Photo200 => "photo_200",
            UserOptionField::Photo400Orig => "photo_400_orig",
            UserOptionField::PhotoMax => "photo_max",
            UserOptionField::PhotoMaxOrig => "photo_max_orig",
            UserOptionField::Online => "online",
            UserOptionField::Lists => "lists",
            UserOptionField::Domain => "domain",
            UserOptionField::HasMobile => "has_mobile",
            UserOptionField::Contacts => "contacts",
            UserOptionField::Site => "site",
            UserOptionField::Education => "education",
            UserOptionField::Universities => "universities",
            UserOptionField::Schools => "schools",
            UserOptionField::Status => "status",
            UserOptionField::LastSeen => "last_seen",
            UserOptionField::FollowersCount => "followers_count",
            UserOptionField::CommonCount => "common_count",
            UserOptionField::Counters => "counters",
            UserOptionField::Occupation => "occupation",
            UserOptionField::Nickname => "nickname",
            UserOptionField::Relatives => "relatives",
            UserOptionField::Relation => "relation",
            UserOptionField::Personal => "personal",
            UserOptionField::Connections => "connections",
            UserOptionField::Exports => "exports",
            UserOptionField::WallComments => "wall_comments",
            UserOptionField::Activities => "activities",
            UserOptionField::Interests => "interests",
            UserOptionField::Music => "music",
            UserOptionField::Movies => "movies",
            UserOptionField::TvShows => "tv",
            UserOptionField::Books => "books",
            UserOptionField::Games => "games",
            UserOptionField::About => "about",
            UserOptionField::Quotes => "quotes",
            UserOptionField::CanPost => "canPost",
            UserOptionField::CanSeeAllPosts => "can_see_all_posts",
            UserOptionField::CanSeeAudio => "can_see_audio",
            UserOptionField::CanWritePrivateMessage => "can_write_private_message",
            UserOptionField::Timezone => "timezone",
            UserOptionField::ScreenName => "screen_name",
        }
    }
}

} // verus!
