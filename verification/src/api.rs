//! Core wire types: identifiers, response payload shapes, the error
//! taxonomy mapping wire error codes to symbolic kinds, and the response
//! envelope.

use vstd::prelude::*;
use vstd::utf8::encode_utf8;
use vstd::string::StringSliceAdditionalSpecFns;
use vstd::string::StringExecFns;

use crate::auth::{AccessToken, Permissions, ALL_FLAGS_MASK};
use crate::json::{Json, DecodeError, FromJson, json_lookup, field_decodes_to, field_decodable, opt_field_decodes_to, opt_field_decodable, decode_field, decode_opt_field, all_items_decodable, items_decode_to};
use crate::query::{Field, Param, Scalar, ascii_bytes, ascii_chars_of, qs_bytes, pct, dec_int, dec_nat, encode_fields, encode_query, push_pct, push_dec_i64, push_dec_u64, string_from_ascii, lemma_ascii_append, lemma_pct_ascii, lemma_qs_ascii};

verus! {

/// Identifier of a resource owner (negative for communities).
pub type OwnerId = i64;

/// Identifier of a resource.
pub type Id = u64;

/// Unix timestamp in seconds, as sent on the wire.
pub type Timestamp = u64;

/// Duration in seconds, as sent on the wire.
pub type Duration = u32;

/// The wire's boolean: `0` or `1` as a JSON number.
pub type Bool = u8;

/// Symbolic kind of a server-reported error, one variant per documented
/// wire error code.  Codes in `[100, 999]` without a named variant are
/// vendor "application" errors and map to `App`; every other unnamed code
/// maps to `Unknown`.  Both carry the original code so the mapping
/// round-trips exactly.
#[derive(Debug, PartialEq, Eq, Copy, Clone, Structural)]
pub enum ErrorCode {
    General,
    Database,
    Unauthorized,
    Signature,
    Request,
    ScriptCompileError,
    ScriptRuntimeError,
    MethodAccessDenied,
    Banned,
    Blocked,
    GoodsNotFound,
    GoodsUnvailable,
    UserNotFound,
    RequiredParameterMissing,
    InvalidAlbumId,
    InvalidServer,
    InvalidHash,
    InvalidPhotoId,
    InvalidAudio,
    InvalidPhoto,
    UserMenuAccessDenied,
    AccessDenied,
    AccessToWallPostDenied,
    PostAddAccessDenied,
    AdsPostWasRecentlyAdded,
    TooManyRecipients,
    HyperlinksForbidden,
    UserDisabledTrackBroadcast,
    CopyrightedObjectRemoved,
    InvalidFilename,
    SizeLimitReached,
    VideoAlreadyAdded,
    VideoCommentsClosed,
    App(u32),
    Unknown(u32),
}

/// The taxonomy in one direction: which symbolic kind a wire code denotes.
pub open spec fn code_to_kind(value: u32) -> ErrorCode {
    if value == 1 {
        ErrorCode::General
    } else if value == 2 {
        ErrorCode::Database
    } else if value == 5 {
        ErrorCode::Unauthorized
    } else if value == 10 {
        ErrorCode::Signature
    } else if value == 11 {
        ErrorCode::Request
    } else if value == 12 {
        ErrorCode::ScriptCompileError
    } else if value == 13 {
        ErrorCode::ScriptRuntimeError
    } else if value == 15 {
        ErrorCode::MethodAccessDenied
    } else if value == 18 {
        ErrorCode::Banned
    } else if value == 19 {
        ErrorCode::Blocked
    } else if value == 20 {
        ErrorCode::GoodsNotFound
    } else if value == 21 {
        ErrorCode::GoodsUnvailable
    } else if value == 22 {
        ErrorCode::UserNotFound
    } else if value == 100 {
        ErrorCode::RequiredParameterMissing
    } else if value == 114 {
        ErrorCode::InvalidAlbumId
    } else if value == 118 {
        ErrorCode::InvalidServer
    } else if value == 121 {
        ErrorCode::InvalidHash
    } else if value == 122 {
        ErrorCode::InvalidPhotoId
    } else if value == 123 {
        ErrorCode::InvalidAudio
    } else if value == 129 {
        ErrorCode::InvalidPhoto
    } else if value == 148 {
        ErrorCode::UserMenuAccessDenied
    } else if value == 204 {
        ErrorCode::AccessDenied
    } else if value == 210 {
        ErrorCode::AccessToWallPostDenied
    } else if value == 214 {
        ErrorCode::PostAddAccessDenied
    } else if value == 219 {
        ErrorCode::AdsPostWasRecentlyAdded
    } else if value == 220 {
        ErrorCode::TooManyRecipients
    } else if value == 222 {
        ErrorCode::HyperlinksForbidden
    } else if value == 221 {
        ErrorCode::UserDisabledTrackBroadcast
    } else if value == 270 {
        ErrorCode::CopyrightedObjectRemoved
    } else if value == 301 {
        ErrorCode::InvalidFilename
    } else if value == 302 {
        ErrorCode::SizeLimitReached
    } else if value == 800 {
        ErrorCode::VideoAlreadyAdded
    } else if value == 801 {
        ErrorCode::VideoCommentsClosed
    } else if 100 <= value && value <= 999 {
        ErrorCode::App(value)
    } else {
        ErrorCode::Unknown(value)
    }
}

/// The taxonomy in the other direction: the wire code of a symbolic kind.
pub open spec fn kind_to_code(kind: ErrorCode) -> u32 {
    match kind {
        ErrorCode::General => 1,
        ErrorCode::Database => 2,
        ErrorCode::Unauthorized => 5,
        ErrorCode::Signature => 10,
        ErrorCode::Request => 11,
        ErrorCode::ScriptCompileError => 12,
        ErrorCode::ScriptRuntimeError => 13,
        ErrorCode::MethodAccessDenied => 15,
        ErrorCode::Banned => 18,
        ErrorCode::Blocked => 19,
        ErrorCode::GoodsNotFound => 20,
        ErrorCode::GoodsUnvailable => 21,
        ErrorCode::UserNotFound => 22,
        ErrorCode::RequiredParameterMissing => 100,
        ErrorCode::InvalidAlbumId => 114,
        ErrorCode::InvalidServer => 118,
        ErrorCode::InvalidHash => 121,
        ErrorCode::InvalidPhotoId => 122,
        ErrorCode::InvalidAudio => 123,
        ErrorCode::InvalidPhoto => 129,
        ErrorCode::UserMenuAccessDenied => 148,
        ErrorCode::AccessDenied => 204,
        ErrorCode::AccessToWallPostDenied => 210,
        ErrorCode::PostAddAccessDenied => 214,
        ErrorCode::AdsPostWasRecentlyAdded => 219,
        ErrorCode::TooManyRecipients => 220,
        ErrorCode::HyperlinksForbidden => 222,
        ErrorCode::UserDisabledTrackBroadcast => 221,
        ErrorCode::CopyrightedObjectRemoved => 270,
        ErrorCode::InvalidFilename => 301,
        ErrorCode::SizeLimitReached => 302,
        ErrorCode::VideoAlreadyAdded => 800,
        ErrorCode::VideoCommentsClosed => 801,
        ErrorCode::App(v) => v,
        ErrorCode::Unknown(v) => v,
    }
}

/// The static description of each kind.
pub open spec fn kind_description(kind: ErrorCode) -> Seq<char> {
    match kind {
        ErrorCode::General => "general error"@,
        ErrorCode::Database => "database error"@,
        ErrorCode::Unauthorized => "unauthorized"@,
        ErrorCode::Signature => "invalid signature"@,
        ErrorCode::Request => "invalid request"@,
        ErrorCode::ScriptCompileError => "compile script error"@,
        ErrorCode::ScriptRuntimeError => "runtime script error"@,
        ErrorCode::MethodAccessDenied => "no access to call this method"@,
        ErrorCode::Banned => "banned or deleted"@,
        ErrorCode::Blocked => "content blocked"@,
        ErrorCode::GoodsNotFound => "goods not found"@,
        ErrorCode::GoodsUnvailable => "goods unavailable"@,
        ErrorCode::UserNotFound => "user not found"@,
        ErrorCode::RequiredParameterMissing => "one of required parameters is missing"@,
        ErrorCode::InvalidAlbumId => "invalid album id"@,
        ErrorCode::InvalidServer => "invalid server"@,
        ErrorCode::InvalidHash => "invalid hash"@,
        ErrorCode::InvalidPhotoId => "invalid photo id"@,
        ErrorCode::InvalidAudio => "invalid audio"@,
        ErrorCode::InvalidPhoto => "invalid photo"@,
        ErrorCode::UserMenuAccessDenied => "access to the menu of the user denied"@,
        ErrorCode::AccessDenied => "access denied"@,
        ErrorCode::AccessToWallPostDenied => "access to wall's post denied"@,
        ErrorCode::PostAddAccessDenied => "access to adding post denied"@,
        ErrorCode::AdsPostWasRecentlyAdded => "ads post was recently added"@,
        ErrorCode::TooManyRecipients => "too many recipients"@,
        ErrorCode::HyperlinksForbidden => "hyperlinks are forbidden"@,
        ErrorCode::UserDisabledTrackBroadcast => "user disabled track name broadcast"@,
        ErrorCode::CopyrightedObjectRemoved => "object was removed by copyright holder request"@,
        ErrorCode::InvalidFilename => "invalid filename"@,
        ErrorCode::SizeLimitReached => "object size limit is reached"@,
        ErrorCode::VideoAlreadyAdded => "video is already added"@,
        ErrorCode::VideoCommentsClosed => "comments for this video are closed"@,
        ErrorCode::App(_) => "application error"@,
        ErrorCode::Unknown(_) => "unknown error"@,
    }
}

/// The rendered text of a kind: the fixed description, with the numeric
/// code appended in decimal for the vendor (`App`) and `Unknown` kinds,
/// so no code is lost from the human-readable form.
pub open spec fn kind_text(kind: ErrorCode) -> Seq<char> {
    match kind {
        ErrorCode::App(v) => "application error #"@ + ascii_chars_of(dec_nat(v as nat)),
        ErrorCode::Unknown(v) => "unknown error #"@ + ascii_chars_of(dec_nat(v as nat)),
        _ => kind_description(kind),
    }
}

impl ErrorCode {
    /// Maps a wire error code to its symbolic kind.  Total: unnamed codes
    /// in `[100, 999]` become `App(code)`, all other unnamed codes become
    /// `Unknown(code)`.
    pub fn from_code(value: u32) -> (kind: ErrorCode)
        ensures
            kind == code_to_kind(value),
    {
        match value {
            1 => ErrorCode::General,
            2 => ErrorCode::Database,
            5 => ErrorCode::Unauthorized,
            10 => ErrorCode::Signature,
            11 => ErrorCode::Request,
            12 => ErrorCode::ScriptCompileError,
            13 => ErrorCode::ScriptRuntimeError,
            15 => ErrorCode::MethodAccessDenied,
            18 => ErrorCode::Banned,
            19 => ErrorCode::Blocked,
            20 => ErrorCode::GoodsNotFound,
            21 => ErrorCode::GoodsUnvailable,
            22 => ErrorCode::UserNotFound,
            100 => ErrorCode::RequiredParameterMissing,
            114 => ErrorCode::InvalidAlbumId,
            118 => ErrorCode::InvalidServer,
            121 => ErrorCode::InvalidHash,
            122 => ErrorCode::InvalidPhotoId,
            123 => ErrorCode::InvalidAudio,
            129 => ErrorCode::InvalidPhoto,
            148 => ErrorCode::UserMenuAccessDenied,
            204 => ErrorCode::AccessDenied,
            210 => ErrorCode::AccessToWallPostDenied,
            214 => ErrorCode::PostAddAccessDenied,
            219 => ErrorCode::AdsPostWasRecentlyAdded,
            220 => ErrorCode::TooManyRecipients,
            222 => ErrorCode::HyperlinksForbidden,
            221 => ErrorCode::UserDisabledTrackBroadcast,
            270 => ErrorCode::CopyrightedObjectRemoved,
            301 => ErrorCode::InvalidFilename,
            302 => ErrorCode::SizeLimitReached,
            800 => ErrorCode::VideoAlreadyAdded,
            801 => ErrorCode::VideoCommentsClosed,
            v => {
                if 100 <= v && v <= 999 {
                    ErrorCode::App(v)
                } else {
                    ErrorCode::Unknown(v)
                }
            },
        }
    }

    /// The wire code of this kind: the exact inverse of `from_code` for
    /// every named kind; for `App` and `Unknown` the stored code unchanged.
    pub fn to_code(self) -> (code: u32)
        ensures
            code == kind_to_code(self),
    {
        match self {
            ErrorCode::General => 1,
            ErrorCode::Database => 2,
            ErrorCode::Unauthorized => 5,
            ErrorCode::Signature => 10,
            ErrorCode::Request => 11,
            ErrorCode::ScriptCompileError => 12,
            ErrorCode::ScriptRuntimeError => 13,
            ErrorCode::MethodAccessDenied => 15,
            ErrorCode::Banned => 18,
            ErrorCode::Blocked => 19,
            ErrorCode::GoodsNotFound => 20,
            ErrorCode::GoodsUnvailable => 21,
            ErrorCode::UserNotFound => 22,
            ErrorCode::RequiredParameterMissing => 100,
            ErrorCode::InvalidAlbumId => 114,
            ErrorCode::InvalidServer => 118,
            ErrorCode::InvalidHash => 121,
            ErrorCode::InvalidPhotoId => 122,
            ErrorCode::InvalidAudio => 123,
            ErrorCode::InvalidPhoto => 129,
            ErrorCode::UserMenuAccessDenied => 148,
            ErrorCode::AccessDenied => 204,
            ErrorCode::AccessToWallPostDenied => 210,
            ErrorCode::PostAddAccessDenied => 214,
            ErrorCode::AdsPostWasRecentlyAdded => 219,
            ErrorCode::TooManyRecipients => 220,
            ErrorCode::HyperlinksForbidden => 222,
            ErrorCode::UserDisabledTrackBroadcast => 221,
            ErrorCode::CopyrightedObjectRemoved => 270,
            ErrorCode::InvalidFilename => 301,
            ErrorCode::SizeLimitReached => 302,
            ErrorCode::VideoAlreadyAdded => 800,
            ErrorCode::VideoCommentsClosed => 801,
            ErrorCode::App(v) => v,
            ErrorCode::Unknown(v) => v,
        }
    }

    /// The static part of the kind's human-readable text; for the full
    /// form, which appends the numeric code of an `App` or `Unknown`
    /// kind, see `render`.
    pub fn description(self) -> (r: &'static str)
        ensures
            r@ == kind_description(self),
    {
        match self {
            ErrorCode::General => "general error",
            ErrorCode::Database => "database error",
            ErrorCode::Unauthorized => "unauthorized",
            ErrorCode::Signature => "invalid signature",
            ErrorCode::Request => "invalid request",
            ErrorCode::ScriptCompileError => "compile script error",
            ErrorCode::ScriptRuntimeError => "runtime script error",
            ErrorCode::MethodAccessDenied => "no access to call this method",
            ErrorCode::Banned => "banned or deleted",
            ErrorCode::Blocked => "content blocked",
            ErrorCode::GoodsNotFound => "goods not found",
            ErrorCode::GoodsUnvailable => "goods unavailable",
            ErrorCode::UserNotFound => "user not found",
            ErrorCode::RequiredParameterMissing => "one of required parameters is missing",
            ErrorCode::InvalidAlbumId => "invalid album id",
            ErrorCode::InvalidServer => "invalid server",
            ErrorCode::InvalidHash => "invalid hash",
            ErrorCode::InvalidPhotoId => "invalid photo id",
            ErrorCode::InvalidAudio => "invalid audio",
            ErrorCode::InvalidPhoto => "invalid photo",
            ErrorCode::UserMenuAccessDenied => "access to the menu of the user denied",
            ErrorCode::AccessDenied => "access denied",
            ErrorCode::AccessToWallPostDenied => "access to wall's post denied",
            ErrorCode::PostAddAccessDenied => "access to adding post denied",
            ErrorCode::AdsPostWasRecentlyAdded => "ads post was recently added",
            ErrorCode::TooManyRecipients => "too many recipients",
            ErrorCode::HyperlinksForbidden => "hyperlinks are forbidden",
            ErrorCode::UserDisabledTrackBroadcast => "user disabled track name broadcast",
            ErrorCode::CopyrightedObjectRemoved => "object was removed by copyright holder request",
            ErrorCode::InvalidFilename => "invalid filename",
            ErrorCode::SizeLimitReached => "object size limit is reached",
            ErrorCode::VideoAlreadyAdded => "video is already added",
            ErrorCode::VideoCommentsClosed => "comments for this video are closed",
            ErrorCode::App(_) => "application error",
            ErrorCode::Unknown(_) => "unknown error",
        }
    }

    /// The kind as text: named kinds render their fixed description; the
    /// vendor (`App`) and `Unknown` kinds append their numeric code in
    /// decimal, so the exact code stays visible (for example, code 150
    /// renders as `application error #150`).
    pub fn render(self) -> (r: String)
        ensures
            r@ == kind_text(self),
    {
        match self {
            ErrorCode::App(v) => {
                let mut s: String = "application error #".to_owned();
                let num = crate::query::dec_u64_string(v as u64);
                s.append(num.as_str());
                s
            },
            ErrorCode::Unknown(v) => {
                let mut s: String = "unknown error #".to_owned();
                let num = crate::query::dec_u64_string(v as u64);
                s.append(num.as_str());
                s
            },
            other => other.description().to_owned(),
        }
    }
}

/// Law: mapping a wire code to its symbolic kind and back returns the code
/// unchanged, for every code — named codes map through their named kind,
/// unnamed codes ride through `App` or `Unknown`.
pub proof fn lemma_code_round_trip(value: u32)
    ensures
        kind_to_code(code_to_kind(value)) == value,
{
}


// ---------------------------------------------------------------------------
// Requests, the response envelope, and the client's pure computations.
// ---------------------------------------------------------------------------

/// A generic request descriptor: the endpoint's fixed wire method name,
/// its parameters in declaration order, and the scopes it requires.  One
/// descriptor type serves every endpoint; per-endpoint constructors are
/// plain values built through the methods below.
#[derive(Debug, Clone, PartialEq, Eq)]
pub struct Request {
    pub method: String,
    pub fields: Vec<Field>,
    pub permissions: Permissions,
}

impl Request {
    /// Starts a request for a method, with no parameters and no required
    /// scopes.
    pub fn new(method: String) -> (r: Request)
        ensures
            r.method@ == method@,
            r.fields@ == Seq::<Field>::empty(),
            r.permissions.mask_spec() == 0,
    {
        proof {
            assert(0u32 & ALL_FLAGS_MASK == 0u32) by (bit_vector);
        }
        Request { method, fields: Vec::new(), permissions: Permissions::new(0) }
    }

    /// Adds a named parameter.
    pub fn field(self, name: &str, value: Param) -> (r: Request)
        ensures
            r.method == self.method,
            r.permissions == self.permissions,
            r.fields@.len() == self.fields@.len() + 1,
            forall|i: int| 0 <= i < self.fields@.len() ==> r.fields@[i] == self.fields@[i],
            r.fields@.last().name@ == name@,
            r.fields@.last().value == value,
    {
        let mut fields = self.fields;
        fields.push(Field { name: name.to_owned(), value });
        Request { method: self.method, fields, permissions: self.permissions }
    }

    /// Adds a boolean parameter, encoded as `1` or `0`.
    pub fn with_flag(self, name: &str, b: bool) -> (r: Request)
        ensures
            r.method == self.method,
            r.permissions == self.permissions,
            r.fields@.len() == self.fields@.len() + 1,
            forall|i: int| 0 <= i < self.fields@.len() ==> r.fields@[i] == self.fields@[i],
            r.fields@.last().name@ == name@,
            r.fields@.last().value == Param::One(Scalar::Flag(b)),
    {
        self.field(name, Param::One(Scalar::Flag(b)))
    }

    /// Adds an unsigned integer parameter.
    pub fn with_uint(self, name: &str, n: u64) -> (r: Request)
        ensures
            r.method == self.method,
            r.permissions == self.permissions,
            r.fields@.len() == self.fields@.len() + 1,
            forall|i: int| 0 <= i < self.fields@.len() ==> r.fields@[i] == self.fields@[i],
            r.fields@.last().name@ == name@,
            r.fields@.last().value == Param::One(Scalar::UInt(n)),
    {
        self.field(name, Param::One(Scalar::UInt(n)))
    }

    /// Adds a signed integer parameter.
    pub fn with_int(self, name: &str, n: i64) -> (r: Request)
        ensures
            r.method == self.method,
            r.permissions == self.permissions,
            r.fields@.len() == self.fields@.len() + 1,
            forall|i: int| 0 <= i < self.fields@.len() ==> r.fields@[i] == self.fields@[i],
            r.fields@.last().name@ == name@,
            r.fields@.last().value == Param::One(Scalar::Int(n)),
    {
        self.field(name, Param::One(Scalar::Int(n)))
    }

    /// Adds a string (or symbolic-enum word) parameter.
    pub fn with_text(self, name: &str, v: &str) -> (r: Request)
        ensures
            r.method == self.method,
            r.permissions == self.permissions,
            r.fields@.len() == self.fields@.len() + 1,
            forall|i: int| 0 <= i < self.fields@.len() ==> r.fields@[i] == self.fields@[i],
            r.fields@.last().name@ == name@,
            (match r.fields@.last().value {
                Param::One(s) => s matches Scalar::Text(t) && t@ == v@,
                _ => false,
            }),
    {
        self.field(name, Param::One(Scalar::Text(v.to_owned())))
    }

    /// Adds an optional unsigned integer parameter; `None` makes it
    /// absent.
    pub fn with_opt_uint(self, name: &str, n: Option<u64>) -> (r: Request)
        ensures
            r.method == self.method,
            r.permissions == self.permissions,
            r.fields@.len() == self.fields@.len() + 1,
            forall|i: int| 0 <= i < self.fields@.len() ==> r.fields@[i] == self.fields@[i],
            r.fields@.last().name@ == name@,
            r.fields@.last().value == (match n {
                Some(u) => Param::Opt(Some(Scalar::UInt(u))),
                None => Param::Opt(None::<Scalar>),
            }),
    {
        match n {
            Some(u) => self.field(name, Param::Opt(Some(Scalar::UInt(u)))),
            None => self.field(name, Param::Opt(None)),
        }
    }

    /// Adds an optional signed integer parameter; `None` makes it absent.
    pub fn with_opt_int(self, name: &str, n: Option<i64>) -> (r: Request)
        ensures
            r.method == self.method,
            r.permissions == self.permissions,
            r.fields@.len() == self.fields@.len() + 1,
            forall|i: int| 0 <= i < self.fields@.len() ==> r.fields@[i] == self.fields@[i],
            r.fields@.last().name@ == name@,
            r.fields@.last().value == (match n {
                Some(u) => Param::Opt(Some(Scalar::Int(u))),
                None => Param::Opt(None::<Scalar>),
            }),
    {
        match n {
            Some(u) => self.field(name, Param::Opt(Some(Scalar::Int(u)))),
            None => self.field(name, Param::Opt(None)),
        }
    }

    /// Adds a list parameter of unsigned integers, comma-joined; an empty
    /// list makes it absent.
    pub fn with_uint_list(self, name: &str, ns: &[u64]) -> (r: Request)
        ensures
            r.method == self.method,
            r.permissions == self.permissions,
            r.fields@.len() == self.fields@.len() + 1,
            forall|i: int| 0 <= i < self.fields@.len() ==> r.fields@[i] == self.fields@[i],
            r.fields@.last().name@ == name@,
            (match r.fields@.last().value {
                Param::List(l) => l@.len() == ns@.len() && forall|k: int|
                    0 <= k < ns@.len() ==> l@[k] == Scalar::UInt(#[trigger] ns@[k]),
                _ => false,
            }),
    {
        let mut items: Vec<Scalar> = Vec::new();
        let mut i: usize = 0;
        while i < ns.len()
            invariant
                i <= ns@.len(),
                items@.len() == i as int,
                forall|k: int| 0 <= k < i as int ==> items@[k] == Scalar::UInt(#[trigger] ns@[k]),
            decreases ns@.len() - i,
        {
            items.push(Scalar::UInt(ns[i]));
            i = i + 1;
        }
        self.field(name, Param::List(items))
    }

    /// Adds a list parameter of words (symbolic-enum wire words),
    /// comma-joined; an empty list makes it absent.
    pub fn with_text_list(self, name: &str, words: &Vec<String>) -> (r: Request)
        ensures
            r.method == self.method,
            r.permissions == self.permissions,
            r.fields@.len() == self.fields@.len() + 1,
            forall|i: int| 0 <= i < self.fields@.len() ==> r.fields@[i] == self.fields@[i],
            r.fields@.last().name@ == name@,
            (match r.fields@.last().value {
                Param::List(l) => l@.len() == words@.len() && forall|k: int|
                    0 <= k < words@.len() ==> ((#[trigger] l@[k]) matches Scalar::Text(t)
                        && t@ == words@[k]@),
                _ => false,
            }),
    {
        let mut items: Vec<Scalar> = Vec::new();
        let mut i: usize = 0;
        while i < words.len()
            invariant
                i <= words@.len(),
                items@.len() == i as int,
                forall|k: int|
                    0 <= k < i as int ==> ((#[trigger] items@[k]) matches Scalar::Text(t) && t@
                        == words@[k]@),
            decreases words@.len() - i,
        {
            items.push(Scalar::Text(words[i].clone()));
            i = i + 1;
        }
        self.field(name, Param::List(items))
    }

    /// Appends the fixed API version as the `v` parameter; every call
    /// must carry it, after the business parameters.
    pub fn with_version(self) -> (r: Request)
        ensures
            r.method == self.method,
            r.permissions == self.permissions,
            r.fields@.len() == self.fields@.len() + 1,
            forall|i: int| 0 <= i < self.fields@.len() ==> r.fields@[i] == self.fields@[i],
            r.fields@.last().name@ == "v"@,
            (match r.fields@.last().value {
                Param::One(s) => s matches Scalar::Text(t) && t@ == VK_API_VERSION@,
                _ => false,
            }),
    {
        self.with_text("v", VK_API_VERSION)
    }

    /// Declares the scopes this request needs.
    pub fn with_permissions(self, p: Permissions) -> (r: Request)
        ensures
            r.method == self.method,
            r.fields == self.fields,
            r.permissions == p,
    {
        Request { method: self.method, fields: self.fields, permissions: p }
    }

    /// The fixed wire method name.
    pub fn method_name(&self) -> (r: &str)
        ensures
            r@ == self.method@,
    {
        self.method.as_str()
    }

    /// The full endpoint URL for this request's method.
    pub fn to_url(&self) -> (r: String)
        ensures
            r@ == VK_BASE_API_URL@ + self.method@,
    {
        method_url(self.method.as_str())
    }

    /// This request's parameters as a canonical query string.
    pub fn to_query_string(&self) -> (r: String)
        ensures
            r@ == ascii_chars_of(qs_bytes(self.fields@)),
    {
        encode_query(&self.fields)
    }
}

/// The protocol version every call carries in its `v` parameter.
pub const VK_API_VERSION: &'static str = "5.44";

/// The shared base of every endpoint URL.
pub const VK_BASE_API_URL: &'static str = "https://api.vk.com/method/";

/// The API host.
pub const VK_DOMAIN: &'static str = "api.vk.com";

/// The path under which methods live.
pub const VK_PATH: &'static str = "method";

/// The full endpoint URL of a method: the shared base with the method
/// name appended.
pub fn method_url(method: &str) -> (r: String)
    ensures
        r@ == VK_BASE_API_URL@ + method@,
{
    let mut s: String = VK_BASE_API_URL.to_owned();
    s.append(method);
    s
}

/// The query key that carries the token, with its separator.
pub open spec fn seg_access_token() -> Seq<u8> {
    seq!['a' as u8, 'c' as u8, 'c' as u8, 'e' as u8, 's' as u8, 's' as u8, '_' as u8, 't' as u8, 'o' as u8, 'k' as u8, 'e' as u8, 'n' as u8, '=' as u8]
}

/// Appends `access_token=`.
fn push_seg_access_token(out: &mut Vec<u8>)
    ensures
        final(out)@ == old(out)@ + seg_access_token(),
{
    out.push('a' as u8);
    out.push('c' as u8);
    out.push('c' as u8);
    out.push('e' as u8);
    out.push('s' as u8);
    out.push('s' as u8);
    out.push('_' as u8);
    out.push('t' as u8);
    out.push('o' as u8);
    out.push('k' as u8);
    out.push('e' as u8);
    out.push('n' as u8);
    out.push('=' as u8);
    proof {
        assert(out@ =~= old(out)@ + seg_access_token());
    }
}

/// The encoded query with the credential appended: the token, when one
/// is supplied, goes in a trailing `access_token` pair — always last, so
/// a diagnostic dump of the query never shows it ahead of the business
/// parameters.
pub open spec fn query_with_token_bytes(fields: Seq<Field>, tok: Option<Seq<char>>) -> Seq<u8> {
    match tok {
        None => qs_bytes(fields),
        Some(t) => qs_bytes(fields) + (if qs_bytes(fields).len() == 0 {
            Seq::<u8>::empty()
        } else {
            seq![0x26u8]
        }) + seg_access_token() + pct(encode_utf8(t)),
    }
}

/// Encodes a request's parameters and appends the access token, when one
/// is supplied, as exactly one trailing `access_token` pair.
pub fn request_query(req: &Request, token: Option<&AccessToken>) -> (r: String)
    ensures
        r@ == ascii_chars_of(
            query_with_token_bytes(
                req.fields@,
                match token {
                    Some(t) => Some(t.token_spec()),
                    None => None,
                },
            ),
        ),
{
    let mut out = encode_fields(&req.fields);
    match token {
        Some(t) => {
            if out.len() > 0 {
                out.push(0x26);
            }
            push_seg_access_token(&mut out);
            push_pct(t.access_token().as_bytes(), &mut out);
            proof {
                lemma_qs_ascii(req.fields@, true);
                lemma_pct_ascii(encode_utf8(t.token_spec()));
                let sep: Seq<u8> = if qs_bytes(req.fields@).len() == 0 {
                    Seq::<u8>::empty()
                } else {
                    seq![0x26u8]
                };
                assert(out@ =~= query_with_token_bytes(req.fields@, Some(t.token_spec())));
                lemma_ascii_append(qs_bytes(req.fields@), sep);
                lemma_ascii_append(qs_bytes(req.fields@) + sep, seg_access_token());
                lemma_ascii_append(
                    (qs_bytes(req.fields@) + sep) + seg_access_token(),
                    pct(encode_utf8(t.token_spec())),
                );
                assert(ascii_bytes(out@));
            }
        },
        None => {},
    }
    string_from_ascii(out)
}


/// One echoed request parameter of a server-reported failure.
#[derive(Debug, PartialEq, Eq, Clone)]
pub struct KeyVal {
    pub key: String,
    pub value: String,
}

impl KeyVal {
    /// The pair as plain strings.
    pub fn into_pair(self) -> (r: (String, String))
        ensures
            r.0 == self.key,
            r.1 == self.value,
    {
        (self.key, self.value)
    }
}

impl FromJson for KeyVal {
    open spec fn decodes_to(j: Json, v: KeyVal) -> bool {
        &&& field_decodes_to::<String>(j, "key"@, v.key)
        &&& field_decodes_to::<String>(j, "value"@, v.value)
    }

    open spec fn decodable(j: Json) -> bool {
        &&& field_decodable::<String>(j, "key"@)
        &&& field_decodable::<String>(j, "value"@)
    }

    fn from_json(j: &Json) -> (r: Result<KeyVal, DecodeError>) {
        let key = match decode_field::<String>(j, "key") {
            Ok(v) => v,
            Err(e) => {
                return Err(e);
            },
        };
        let value = match decode_field::<String>(j, "value") {
            Ok(v) => v,
            Err(e) => {
                return Err(e);
            },
        };
        Ok(KeyVal { key, value })
    }
}

/// A server-reported failure: the symbolic kind of its wire code, the
/// human-readable message, and the echoed request parameters (diagnostic
/// only).
#[derive(Debug, PartialEq, Eq, Clone)]
pub struct ApiError {
    pub error_code: ErrorCode,
    pub error_msg: String,
    pub request_params: Vec<KeyVal>,
}

impl FromJson for ApiError {
    open spec fn decodes_to(j: Json, v: ApiError) -> bool {
        &&& match json_lookup(j, "error_code"@) {
            Some(Json::UInt(u)) => u <= 0xffff_ffff && v.error_code == code_to_kind(u as u32),
            _ => false,
        }
        &&& field_decodes_to::<String>(j, "error_msg"@, v.error_msg)
        &&& match json_lookup(j, "request_params"@) {
            Some(Json::Arr(items)) => items_decode_to::<KeyVal>(items@, v.request_params@),
            _ => false,
        }
    }

    open spec fn decodable(j: Json) -> bool {
        &&& match json_lookup(j, "error_code"@) {
            Some(Json::UInt(u)) => u <= 0xffff_ffff,
            _ => false,
        }
        &&& field_decodable::<String>(j, "error_msg"@)
        &&& match json_lookup(j, "request_params"@) {
            Some(Json::Arr(items)) => all_items_decodable::<KeyVal>(items@),
            _ => false,
        }
    }

    fn from_json(j: &Json) -> (r: Result<ApiError, DecodeError>) {
        let error_code = match j.lookup("error_code") {
            Some(Json::UInt(u)) => {
                if *u <= 0xffff_ffff {
                    ErrorCode::from_code(*u as u32)
                } else {
                    return Err(DecodeError::TypeMismatch);
                }
            },
            _ => {
                return Err(DecodeError::TypeMismatch);
            },
        };
        let error_msg = match decode_field::<String>(j, "error_msg") {
            Ok(v) => v,
            Err(e) => {
                return Err(e);
            },
        };
        let request_params = match j.lookup("request_params") {
            Some(params) => match params {
                Json::Arr(_) => match <Vec<KeyVal> as FromJson>::from_json(params) {
                    Ok(v) => v,
                    Err(e) => {
                        return Err(e);
                    },
                },
                _ => {
                    return Err(DecodeError::TypeMismatch);
                },
            },
            None => {
                return Err(DecodeError::TypeMismatch);
            },
        };
        Ok(ApiError { error_code, error_msg, request_params })
    }
}

/// The discriminated response envelope: every response body is an object
/// with exactly one of the keys `response` (the typed success payload)
/// or `error` (a structured server-reported failure).
#[derive(Debug, PartialEq, Eq, Clone)]
pub enum ApiResponse<T> {
    Response(T),
    Error(ApiError),
}

/// Whether the envelope has a `response` key.
pub open spec fn has_response(j: Json) -> bool {
    json_lookup(j, "response"@) is Some
}

/// Whether the envelope has an `error` key.
pub open spec fn has_error(j: Json) -> bool {
    json_lookup(j, "error"@) is Some
}

impl<T: FromJson> ApiResponse<T> {
    /// Decodes a response body.  Exactly one of the two keys must be
    /// present: a lone `response` decodes as the payload type, a lone
    /// `error` as a structured failure; neither key is a `MissingField`
    /// failure; both keys, a non-object body, or a value of the wrong
    /// shape is a `TypeMismatch`.
    pub fn decode(j: &Json) -> (r: Result<ApiResponse<T>, DecodeError>)
        ensures
            match r {
                Ok(resp) => match resp {
                    ApiResponse::Response(v) => has_response(*j) && !has_error(*j) && T::decodable(
                        json_lookup(*j, "response"@)->0,
                    ) && T::decodes_to(json_lookup(*j, "response"@)->0, v),
                    ApiResponse::Error(e) => has_error(*j) && !has_response(*j)
                        && <ApiError as FromJson>::decodable(json_lookup(*j, "error"@)->0)
                        && <ApiError as FromJson>::decodes_to(json_lookup(*j, "error"@)->0, e),
                },
                Err(DecodeError::MissingField) => *j is Obj && !has_response(*j) && !has_error(*j),
                Err(DecodeError::TypeMismatch) => {
                    ||| !(*j is Obj)
                    ||| has_response(*j) && has_error(*j)
                    ||| has_response(*j) && !has_error(*j) && !T::decodable(
                        json_lookup(*j, "response"@)->0,
                    )
                    ||| has_error(*j) && !has_response(*j) && !<ApiError as FromJson>::decodable(
                        json_lookup(*j, "error"@)->0,
                    )
                },
            },
    {
        match j {
            Json::Obj(_) => {
                let resp_val = j.lookup("response");
                let err_val = j.lookup("error");
                match (resp_val, err_val) {
                    (Some(_), Some(_)) => Err(DecodeError::TypeMismatch),
                    (Some(rv), None) => match T::from_json(rv) {
                        Ok(v) => Ok(ApiResponse::Response(v)),
                        Err(e) => Err(e),
                    },
                    (None, Some(ev)) => match <ApiError as FromJson>::from_json(ev) {
                        Ok(e) => Ok(ApiResponse::Error(e)),
                        Err(e) => Err(e),
                    },
                    (None, None) => Err(DecodeError::MissingField),
                }
            },
            _ => Err(DecodeError::TypeMismatch),
        }
    }

    /// Reduces the envelope to a plain result.
    pub fn into_result(self) -> (r: Result<T, ApiError>)
        ensures
            match self {
                ApiResponse::Response(v) => r == Ok::<T, ApiError>(v),
                ApiResponse::Error(e) => r == Err::<T, ApiError>(e),
            },
    {
        match self {
            ApiResponse::Response(v) => Ok(v),
            ApiResponse::Error(e) => Err(e),
        }
    }
}

/// What a call can fail with, by origin: a well-formed server-reported
/// failure, a body that does not decode (schema drift), or a transport
/// failure.  The kinds are never merged: only `Api` with kind
/// `Unauthorized` is caller-recoverable, by re-authorizing.
#[derive(Debug, PartialEq, Eq, Clone)]
pub enum Error {
    Api(ApiError),
    Decode(DecodeError),
    Transport(String),
}

impl From<ApiError> for Error {
    fn from(err: ApiError) -> (r: Error) {
        Error::Api(err)
    }
}

impl vstd::std_specs::convert::FromSpecImpl<ApiError> for Error {
    open spec fn obeys_from_spec() -> bool {
        true
    }

    open spec fn from_spec(err: ApiError) -> Error {
        Error::Api(err)
    }
}

impl From<DecodeError> for Error {
    fn from(err: DecodeError) -> (r: Error) {
        Error::Decode(err)
    }
}

impl vstd::std_specs::convert::FromSpecImpl<DecodeError> for Error {
    open spec fn obeys_from_spec() -> bool {
        true
    }

    open spec fn from_spec(err: DecodeError) -> Error {
        Error::Decode(err)
    }
}

/// Reduces a decoded envelope to the call's three-way outcome: payload,
/// server-reported failure, or decode failure.
pub fn reduce_response<T: FromJson>(decoded: Result<ApiResponse<T>, DecodeError>) -> (r: Result<
    T,
    Error,
>)
    ensures
        match decoded {
            Ok(ApiResponse::Response(v)) => r == Ok::<T, Error>(v),
            Ok(ApiResponse::Error(e)) => r == Err::<T, Error>(Error::Api(e)),
            Err(e) => r == Err::<T, Error>(Error::Decode(e)),
        },
{
    match decoded {
        Ok(ApiResponse::Response(v)) => Ok(v),
        Ok(ApiResponse::Error(e)) => Err(Error::Api(e)),
        Err(e) => Err(Error::Decode(e)),
    }
}


/// A counted page of items, as most listing endpoints return it.
#[derive(Debug, PartialEq, Eq, Clone)]
pub struct Collection<T> {
    pub count: u32,
    pub items: Vec<T>,
}

impl<T: FromJson> FromJson for Collection<T> {
    open spec fn decodes_to(j: Json, v: Collection<T>) -> bool {
        &&& field_decodes_to::<u32>(j, "count"@, v.count)
        &&& match json_lookup(j, "items"@) {
            Some(Json::Arr(items)) => items_decode_to::<T>(items@, v.items@),
            _ => false,
        }
    }

    open spec fn decodable(j: Json) -> bool {
        &&& field_decodable::<u32>(j, "count"@)
        &&& match json_lookup(j, "items"@) {
            Some(Json::Arr(items)) => all_items_decodable::<T>(items@),
            _ => false,
        }
    }

    fn from_json(j: &Json) -> (r: Result<Collection<T>, DecodeError>) {
        let count = match decode_field::<u32>(j, "count") {
            Ok(v) => v,
            Err(e) => {
                return Err(e);
            },
        };
        let items = match j.lookup("items") {
            Some(arr) => match arr {
                Json::Arr(_) => match <Vec<T> as FromJson>::from_json(arr) {
                    Ok(v) => v,
                    Err(e) => {
                        return Err(e);
                    },
                },
                _ => {
                    return Err(DecodeError::TypeMismatch);
                },
            },
            None => {
                return Err(DecodeError::TypeMismatch);
            },
        };
        Ok(Collection { count, items })
    }
}

/// A counted page of items together with the profiles and groups the
/// items refer to.
#[derive(Debug, PartialEq, Eq, Clone)]
pub struct RichCollection<T> {
    pub count: u32,
    pub items: Vec<T>,
    pub profiles: Vec<Profile>,
    pub groups: Vec<Group>,
}

/// How many likes an object has, and whether the current user is among
/// them.
#[derive(Debug, PartialEq, Eq, Copy, Clone, Structural)]
pub struct LikesCount {
    pub user_likes: u32,
    pub count: u32,
}

impl FromJson for LikesCount {
    open spec fn decodes_to(j: Json, v: LikesCount) -> bool {
        &&& field_decodes_to::<u32>(j, "user_likes"@, v.user_likes)
        &&& field_decodes_to::<u32>(j, "count"@, v.count)
    }

    open spec fn decodable(j: Json) -> bool {
        &&& field_decodable::<u32>(j, "user_likes"@)
        &&& field_decodable::<u32>(j, "count"@)
    }

    fn from_json(j: &Json) -> (r: Result<LikesCount, DecodeError>) {
        let user_likes = match decode_field::<u32>(j, "user_likes") {
            Ok(v) => v,
            Err(e) => {
                return Err(e);
            },
        };
        let count = match decode_field::<u32>(j, "count") {
            Ok(v) => v,
            Err(e) => {
                return Err(e);
            },
        };
        Ok(LikesCount { user_likes, count })
    }
}

/// A user as other objects reference one.
#[derive(Debug, PartialEq, Eq, Clone)]
pub struct Profile {
    pub id: OwnerId,
    pub first_name: String,
    pub last_name: String,
}

impl FromJson for Profile {
    open spec fn decodes_to(j: Json, v: Profile) -> bool {
        &&& field_decodes_to::<i64>(j, "id"@, v.id)
        &&& field_decodes_to::<String>(j, "first_name"@, v.first_name)
        &&& field_decodes_to::<String>(j, "last_name"@, v.last_name)
    }

    open spec fn decodable(j: Json) -> bool {
        &&& field_decodable::<i64>(j, "id"@)
        &&& field_decodable::<String>(j, "first_name"@)
        &&& field_decodable::<String>(j, "last_name"@)
    }

    fn from_json(j: &Json) -> (r: Result<Profile, DecodeError>) {
        let id = match decode_field::<i64>(j, "id") {
            Ok(v) => v,
            Err(e) => {
                return Err(e);
            },
        };
        let first_name = match decode_field::<String>(j, "first_name") {
            Ok(v) => v,
            Err(e) => {
                return Err(e);
            },
        };
        let last_name = match decode_field::<String>(j, "last_name") {
            Ok(v) => v,
            Err(e) => {
                return Err(e);
            },
        };
        Ok(Profile { id, first_name, last_name })
    }
}

/// A community as other objects reference one.
#[derive(Debug, PartialEq, Eq, Clone)]
pub struct Group {
    pub id: OwnerId,
    pub name: String,
    pub screen_name: String,
    pub is_closed: Bool,
    pub is_admin: Bool,
    pub is_member: Bool,
    pub kind: String,
    pub photo_50: String,
    pub photo_100: String,
    pub photo_200: String,
    pub status_audio: Option<crate::audio::Audio>,
}

/// The album an object was stored into.
#[derive(Debug, Clone, PartialEq, Eq, Copy, Structural)]
pub struct AlbumId {
    pub album_id: Id,
}

impl FromJson for AlbumId {
    open spec fn decodes_to(j: Json, v: AlbumId) -> bool {
        field_decodes_to::<u64>(j, "album_id"@, v.album_id)
    }

    open spec fn decodable(j: Json) -> bool {
        field_decodable::<u64>(j, "album_id"@)
    }

    fn from_json(j: &Json) -> (r: Result<AlbumId, DecodeError>) {
        match decode_field::<u64>(j, "album_id") {
            Ok(v) => Ok(AlbumId { album_id: v }),
            Err(e) => Err(e),
        }
    }
}

/// A comment on an object.
#[derive(Debug, Clone, PartialEq, Eq)]
pub struct Comment {
    pub id: Id,
    pub from_id: Id,
    pub date: Timestamp,
    pub text: String,
    pub likes: Option<LikesCount>,
}

impl FromJson for Comment {
    open spec fn decodes_to(j: Json, v: Comment) -> bool {
        &&& field_decodes_to::<u64>(j, "id"@, v.id)
        &&& field_decodes_to::<u64>(j, "from_id"@, v.from_id)
        &&& field_decodes_to::<u64>(j, "date"@, v.date)
        &&& field_decodes_to::<String>(j, "text"@, v.text)
        &&& opt_field_decodes_to::<LikesCount>(j, "likes"@, v.likes)
    }

    open spec fn decodable(j: Json) -> bool {
        &&& field_decodable::<u64>(j, "id"@)
        &&& field_decodable::<u64>(j, "from_id"@)
        &&& field_decodable::<u64>(j, "date"@)
        &&& field_decodable::<String>(j, "text"@)
        &&& opt_field_decodable::<LikesCount>(j, "likes"@)
    }

    fn from_json(j: &Json) -> (r: Result<Comment, DecodeError>) {
        let id = match decode_field::<u64>(j, "id") {
            Ok(v) => v,
            Err(e) => {
                return Err(e);
            },
        };
        let from_id = match decode_field::<u64>(j, "from_id") {
            Ok(v) => v,
            Err(e) => {
                return Err(e);
            },
        };
        let date = match decode_field::<u64>(j, "date") {
            Ok(v) => v,
            Err(e) => {
                return Err(e);
            },
        };
        let text = match decode_field::<String>(j, "text") {
            Ok(v) => v,
            Err(e) => {
                return Err(e);
            },
        };
        let likes = match decode_opt_field::<LikesCount>(j, "likes") {
            Ok(v) => v,
            Err(e) => {
                return Err(e);
            },
        };
        Ok(Comment { id, from_id, date, text, likes })
    }
}

/// An owner-qualified object id, written `owner_id` on the wire.
#[derive(Copy, Eq, Clone, PartialEq, Debug, Structural)]
pub struct FullId(pub OwnerId, pub Id);

impl Default for FullId {
    fn default() -> (r: FullId)
        ensures
            r == FullId(0i64, 0u64),
    {
        FullId(0, 0)
    }
}

impl From<(OwnerId, Id)> for FullId {
    fn from(pair: (OwnerId, Id)) -> (r: FullId) {
        FullId(pair.0, pair.1)
    }
}

impl vstd::std_specs::convert::FromSpecImpl<(OwnerId, Id)> for FullId {
    open spec fn obeys_from_spec() -> bool {
        true
    }

    open spec fn from_spec(pair: (OwnerId, Id)) -> FullId {
        FullId(pair.0, pair.1)
    }
}

impl FullId {
    /// The owner and object ids as a pair.
    pub fn pair(self) -> (r: (OwnerId, Id))
        ensures
            r == (self.0, self.1),
    {
        (self.0, self.1)
    }

    /// The wire text `owner_id`: both ids in decimal, joined by an
    /// underscore.
    pub fn render(&self) -> (r: String)
        ensures
            r@ == ascii_chars_of(
                dec_int(self.0 as int) + seq![0x5fu8] + dec_nat(self.1 as nat),
            ),
    {
        let mut out: Vec<u8> = Vec::new();
        push_dec_i64(self.0, &mut out);
        out.push(0x5f);
        push_dec_u64(self.1, &mut out);
        proof {
            crate::query::lemma_dec_int_ascii(self.0 as int);
            crate::query::lemma_dec_nat_ascii(self.1 as nat);
            assert(out@ =~= dec_int(self.0 as int) + seq![0x5fu8] + dec_nat(self.1 as nat));
            assert(ascii_bytes(seq![0x5fu8]));
            lemma_ascii_append(dec_int(self.0 as int), seq![0x5fu8]);
            lemma_ascii_append(dec_int(self.0 as int) + seq![0x5fu8], dec_nat(self.1 as nat));
        }
        string_from_ascii(out)
    }
}

/// Who may see or do something, as some endpoints express it.
#[derive(Debug, PartialEq, Eq, Copy, Clone, Structural)]
pub enum Privacy {
    All,
    Friends,
    FriendsOfFriends,
    FriendsOfFriendsOnly,
    Nobody,
    OnlyMe,
    List(u64),
    OnlyList(u64),
    User(u64),
    OnlyUser(u64),
}

/// An audio list's sort order.
#[derive(Debug, Clone, Copy, PartialEq, Eq, Structural)]
pub enum Sort {
    DateAdded,
    Length,
    Popularity,
}

/// The wire word of a `Sort` choice (this table is numeric strings).
pub open spec fn sort_wire(s: Sort) -> Seq<char> {
    match s {
        Sort::DateAdded => "0"@,
        Sort::Length => "1"@,
        Sort::Popularity => "2"@,
    }
}

impl Sort {
    /// The fixed wire word.
    pub fn as_str(&self) -> (r: &'static str)
        ensures
            r@ == sort_wire(*self),
    {
        match *self {
            Sort::DateAdded => "0",
            Sort::Length => "1",
            Sort::Popularity => "2",
        }
    }
}

/// Why content is being reported.
#[derive(Copy, Clone, Eq, PartialEq, Debug, Structural)]
pub enum ReportReason {
    Spam,
    ChildPorn,
    Extremism,
    Violence,
    Drugs,
    AdultOnly,
    Offence,
}

/// The wire word of a report reason (this table is numeric strings).
pub open spec fn report_reason_wire(r: ReportReason) -> Seq<char> {
    match r {
        ReportReason::Spam => "0"@,
        ReportReason::ChildPorn => "1"@,
        ReportReason::Extremism => "2"@,
        ReportReason::Violence => "3"@,
        ReportReason::Drugs => "4"@,
        ReportReason::AdultOnly => "5"@,
        ReportReason::Offence => "6"@,
    }
}

impl ReportReason {
    /// The fixed wire word.
    pub fn as_str(&self) -> (r: &'static str)
        ensures
            r@ == report_reason_wire(*self),
    {
        match *self {
            ReportReason::Spam => "0",
            ReportReason::ChildPorn => "1",
            ReportReason::Extremism => "2",
            ReportReason::Violence => "3",
            ReportReason::Drugs => "4",
            ReportReason::AdultOnly => "5",
            ReportReason::Offence => "6",
        }
    }
}

impl Default for ReportReason {
    fn default() -> (r: ReportReason)
        ensures
            r == ReportReason::Spam,
    {
        ReportReason::Spam
    }
}

/// Ascending or descending.
#[derive(Copy, Clone, PartialEq, Eq, Debug, Structural)]
pub enum SortOrder {
    Asc,
    Desc,
}

/// The wire word of a sort order.
pub open spec fn sort_order_wire(s: SortOrder) -> Seq<char> {
    match s {
        SortOrder::Asc => "asc"@,
        SortOrder::Desc => "desc"@,
    }
}

impl SortOrder {
    /// The fixed wire word.
    pub fn as_str(&self) -> (r: &'static str)
        ensures
            r@ == sort_order_wire(*self),
    {
        match *self {
            SortOrder::Asc => "asc",
            SortOrder::Desc => "desc",
        }
    }

    /// The choice a wire word names, if any.
    pub fn from_str(s: &str) -> (r: Result<SortOrder, ()>)
        ensures
            match r {
                Ok(v) => sort_order_wire(v) == s@,
                Err(_) => s@ != "asc"@ && s@ != "desc"@,
            },
    {
        if crate::json::str_eq(s, "asc") {
            Ok(SortOrder::Asc)
        } else if crate::json::str_eq(s, "desc") {
            Ok(SortOrder::Desc)
        } else {
            Err(())
        }
    }
}

impl Default for SortOrder {
    fn default() -> (r: SortOrder)
        ensures
            r == SortOrder::Asc,
    {
        SortOrder::Asc
    }
}

/// What kind of media an attachment refers to.
#[derive(Copy, Clone, PartialEq, Eq, Debug, Structural)]
pub enum AttachmentKind {
    Photo,
    Video,
    Audio,
    Document,
}

/// The wire word of an attachment kind.
pub open spec fn attachment_kind_wire(k: AttachmentKind) -> Seq<char> {
    match k {
        AttachmentKind::Photo => "photo"@,
        AttachmentKind::Video => "video"@,
        AttachmentKind::Audio => "audio"@,
        AttachmentKind::Document => "doc"@,
    }
}

impl AttachmentKind {
    /// The fixed wire word.
    pub fn as_str(&self) -> (r: &'static str)
        ensures
            r@ == attachment_kind_wire(*self),
    {
        match *self {
            AttachmentKind::Photo => "photo",
            AttachmentKind::Video => "video",
            AttachmentKind::Audio => "audio",
            AttachmentKind::Document => "doc",
        }
    }

    /// The kind a wire word names, if any.
    pub fn from_str(s: &str) -> (r: Result<AttachmentKind, ()>)
        ensures
            match r {
                Ok(v) => attachment_kind_wire(v) == s@,
                Err(_) => s@ != "photo"@ && s@ != "video"@ && s@ != "audio"@ && s@ != "doc"@,
            },
    {
        if crate::json::str_eq(s, "photo") {
            Ok(AttachmentKind::Photo)
        } else if crate::json::str_eq(s, "video") {
            Ok(AttachmentKind::Video)
        } else if crate::json::str_eq(s, "audio") {
            Ok(AttachmentKind::Audio)
        } else if crate::json::str_eq(s, "doc") {
            Ok(AttachmentKind::Document)
        } else {
            Err(())
        }
    }
}

/// A media object attached to a post or message.
#[derive(Eq, Copy, Clone, PartialEq, Debug, Structural)]
pub struct Attachment {
    pub kind: AttachmentKind,
    pub owner_id: OwnerId,
    pub media_id: Id,
}

impl Attachment {
    /// The wire text: the kind's word, then owner and media ids joined
    /// by an underscore.
    pub fn render(&self) -> (r: String)
        ensures
            r@ == attachment_kind_wire(self.kind) + ascii_chars_of(
                dec_int(self.owner_id as int) + seq![0x5fu8] + dec_nat(self.media_id as nat),
            ),
    {
        let mut s: String = self.kind.as_str().to_owned();
        let ids = FullId(self.owner_id, self.media_id).render();
        s.append(ids.as_str());
        s
    }
}


/// The one caller-recoverable failure: a server-reported `Unauthorized`.
/// The caller is expected to re-run the authorization flow for a fresh
/// token and re-issue the same request a bounded number of times; the
/// core never retries on its own.
pub fn needs_reauthorization(e: &Error) -> (r: bool)
    ensures
        r == match e {
            Error::Api(a) => a.error_code == ErrorCode::Unauthorized,
            _ => false,
        },
{
    match e {
        Error::Api(a) => match a.error_code {
            ErrorCode::Unauthorized => true,
            _ => false,
        },
        _ => false,
    }
}

impl ApiError {
    /// The failure as text: the kind's rendered text — with the numeric
    /// code of an `App` or `Unknown` kind — then the server's message.
    pub fn message(&self) -> (r: String)
        ensures
            r@ == kind_text(self.error_code) + ": "@ + self.error_msg@,
    {
        let mut s: String = self.error_code.render();
        s.append(": ");
        s.append(self.error_msg.as_str());
        s
    }
}
} // verus!
