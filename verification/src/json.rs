//! A plain model of JSON values, and typed decoding out of it.
//!
//! The wire protocol's bodies are JSON.  Tokenizing is a collaborator's
//! job: the surrounding program parses the raw text and hands the library
//! a `Json` value — a tree of plain Rust data — and every rule about what
//! the tree must look like lives here, verified.  `FromJson` is the
//! typed-decoding interface: one implementation per payload type, all
//! driven by the same generic envelope decoder.

use vstd::prelude::*;
use vstd::utf8::encode_utf8;
use vstd::string::StringSliceAdditionalSpecFns;

verus! {

/// A JSON value as plain data.  Numbers are split by sign: non-negative
/// integers in `UInt`, negative ones in `Int`.  (The protocol's bodies
/// carry only integral numbers.)  An object is its entries in document
/// order.
pub enum Json {
    Null,
    Bool(bool),
    UInt(u64),
    Int(i64),
    Str(String),
    Arr(Vec<Json>),
    Obj(Vec<(String, Json)>),
}

/// Failure to decode a body: a required key is missing, or a value does
/// not match the expected shape.  Distinct from a server-reported error:
/// this means the client and server disagree about the schema.
#[derive(Debug, PartialEq, Eq, Copy, Clone, Structural)]
pub enum DecodeError {
    MissingField,
    TypeMismatch,
}

/// First entry with the given key, if any.
pub open spec fn obj_lookup(entries: Seq<(String, Json)>, key: Seq<char>) -> Option<Json>
    decreases entries.len(),
{
    if entries.len() == 0 {
        None
    } else if entries[0].0@ == key {
        Some(entries[0].1)
    } else {
        obj_lookup(entries.drop_first(), key)
    }
}

/// Looks a key up in a value: `None` unless the value is an object with
/// that key.
pub open spec fn json_lookup(j: Json, key: Seq<char>) -> Option<Json> {
    match j {
        Json::Obj(entries) => obj_lookup(entries@, key),
        _ => None,
    }
}

/// Compares two byte slices.
fn bytes_eq(a: &[u8], b: &[u8]) -> (r: bool)
    ensures
        r == (a@ == b@),
{
    if a.len() != b.len() {
        proof {
            assert(a@ != b@);
        }
        return false;
    }
    let mut i: usize = 0;
    while i < a.len()
        invariant
            a@.len() == b@.len(),
            i <= a@.len(),
            forall|j: int| 0 <= j < i ==> a@[j] == b@[j],
        decreases a@.len() - i,
    {
        if a[i] != b[i] {
            proof {
                assert(a@ != b@);
            }
            return false;
        }
        i = i + 1;
    }
    proof {
        assert(a@ =~= b@);
    }
    true
}

/// UTF-8 encoding is injective: equal encodings mean equal strings.
proof fn lemma_encode_utf8_injective(a: Seq<char>, b: Seq<char>)
    requires
        encode_utf8(a) == encode_utf8(b),
    ensures
        a == b,
{
    vstd::utf8::encode_utf8_decode_utf8(a);
    vstd::utf8::encode_utf8_decode_utf8(b);
}

/// Compares two string slices by their UTF-8 bytes.
pub fn str_eq(a: &str, b: &str) -> (r: bool)
    ensures
        r == (a@ == b@),
{
    let r = bytes_eq(a.as_bytes(), b.as_bytes());
    proof {
        if r {
            lemma_encode_utf8_injective(a@, b@);
        }
    }
    r
}

impl Json {
    /// The value under a key, if this is an object that has it.  When the
    /// key repeats, the first entry wins.
    pub fn lookup<'a>(&'a self, key: &str) -> (r: Option<&'a Json>)
        ensures
            match r {
                Some(v) => json_lookup(*self, key@) == Some(*v),
                None => json_lookup(*self, key@) is None,
            },
    {
        match self {
            Json::Obj(entries) => {
                let mut i: usize = 0;
                proof {
                    assert(entries@.skip(0) =~= entries@);
                }
                while i < entries.len()
                    invariant
                        i <= entries@.len(),
                        *self == Json::Obj(*entries),
                        obj_lookup(entries@, key@) == obj_lookup(entries@.skip(i as int), key@),
                    decreases entries@.len() - i,
                {
                    proof {
                        assert(entries@.skip(i as int).drop_first() =~= entries@.skip(i as int + 1));
                        assert(entries@.skip(i as int)[0] == entries@[i as int]);
                    }
                    if str_eq(entries[i].0.as_str(), key) {
                        proof {
                            assert(entries@.skip(i as int)[0].0@ == key@);
                            assert(obj_lookup(entries@.skip(i as int), key@) == Some(
                                entries@[i as int].1,
                            ));
                        }
                        return Some(&entries[i].1);
                    }
                    i = i + 1;
                }
                proof {
                    assert(entries@.skip(entries@.len() as int) =~= Seq::<(String, Json)>::empty());
                }
                None
            },
            _ => None,
        }
    }
}

/// A type that decodes from a `Json` value.  `decodes_to` says which
/// values a tree decodes to; `decodable` says whether it decodes at all.
/// The executable decoder succeeds on exactly the decodable trees and
/// returns `TypeMismatch` on the rest.
pub trait FromJson: Sized {
    spec fn decodes_to(j: Json, v: Self) -> bool;

    spec fn decodable(j: Json) -> bool;

    fn from_json(j: &Json) -> (r: Result<Self, DecodeError>)
        ensures
            match r {
                Ok(v) => Self::decodable(*j) && Self::decodes_to(*j, v),
                Err(e) => !Self::decodable(*j) && e == DecodeError::TypeMismatch,
            },
    ;
}

impl FromJson for bool {
    open spec fn decodes_to(j: Json, v: bool) -> bool {
        j == Json::Bool(v)
    }

    open spec fn decodable(j: Json) -> bool {
        j is Bool
    }

    fn from_json(j: &Json) -> (r: Result<bool, DecodeError>) {
        match j {
            Json::Bool(b) => Ok(*b),
            _ => Err(DecodeError::TypeMismatch),
        }
    }
}

impl FromJson for u8 {
    open spec fn decodes_to(j: Json, v: u8) -> bool {
        j == Json::UInt(v as u64)
    }

    open spec fn decodable(j: Json) -> bool {
        match j {
            Json::UInt(u) => u <= 0xff,
            _ => false,
        }
    }

    fn from_json(j: &Json) -> (r: Result<u8, DecodeError>) {
        match j {
            Json::UInt(u) => if *u <= 0xff {
                Ok(*u as u8)
            } else {
                Err(DecodeError::TypeMismatch)
            },
            _ => Err(DecodeError::TypeMismatch),
        }
    }
}

impl FromJson for u16 {
    open spec fn decodes_to(j: Json, v: u16) -> bool {
        j == Json::UInt(v as u64)
    }

    open spec fn decodable(j: Json) -> bool {
        match j {
            Json::UInt(u) => u <= 0xffff,
            _ => false,
        }
    }

    fn from_json(j: &Json) -> (r: Result<u16, DecodeError>) {
        match j {
            Json::UInt(u) => if *u <= 0xffff {
                Ok(*u as u16)
            } else {
                Err(DecodeError::TypeMismatch)
            },
            _ => Err(DecodeError::TypeMismatch),
        }
    }
}

impl FromJson for u32 {
    open spec fn decodes_to(j: Json, v: u32) -> bool {
        j == Json::UInt(v as u64)
    }

    open spec fn decodable(j: Json) -> bool {
        match j {
            Json::UInt(u) => u <= 0xffff_ffff,
            _ => false,
        }
    }

    fn from_json(j: &Json) -> (r: Result<u32, DecodeError>) {
        match j {
            Json::UInt(u) => if *u <= 0xffff_ffff {
                Ok(*u as u32)
            } else {
                Err(DecodeError::TypeMismatch)
            },
            _ => Err(DecodeError::TypeMismatch),
        }
    }
}

impl FromJson for u64 {
    open spec fn decodes_to(j: Json, v: u64) -> bool {
        j == Json::UInt(v)
    }

    open spec fn decodable(j: Json) -> bool {
        j is UInt
    }

    fn from_json(j: &Json) -> (r: Result<u64, DecodeError>) {
        match j {
            Json::UInt(u) => Ok(*u),
            _ => Err(DecodeError::TypeMismatch),
        }
    }
}

impl FromJson for i64 {
    open spec fn decodes_to(j: Json, v: i64) -> bool {
        if v < 0 {
            j == Json::Int(v)
        } else {
            j == Json::UInt(v as u64)
        }
    }

    open spec fn decodable(j: Json) -> bool {
        match j {
            Json::Int(i) => i < 0,
            Json::UInt(u) => u <= 0x7fff_ffff_ffff_ffff,
            _ => false,
        }
    }

    fn from_json(j: &Json) -> (r: Result<i64, DecodeError>) {
        match j {
            Json::Int(i) => if *i < 0 {
                Ok(*i)
            } else {
                Err(DecodeError::TypeMismatch)
            },
            Json::UInt(u) => if *u <= 0x7fff_ffff_ffff_ffff {
                Ok(*u as i64)
            } else {
                Err(DecodeError::TypeMismatch)
            },
            _ => Err(DecodeError::TypeMismatch),
        }
    }
}

impl FromJson for String {
    open spec fn decodes_to(j: Json, v: String) -> bool {
        match j {
            Json::Str(s) => v@ == s@,
            _ => false,
        }
    }

    open spec fn decodable(j: Json) -> bool {
        j is Str
    }

    fn from_json(j: &Json) -> (r: Result<String, DecodeError>) {
        match j {
            Json::Str(s) => Ok(s.clone()),
            _ => Err(DecodeError::TypeMismatch),
        }
    }
}

impl<T: FromJson> FromJson for Option<T> {
    open spec fn decodes_to(j: Json, v: Option<T>) -> bool {
        if j is Null {
            v is None
        } else {
            v is Some && T::decodes_to(j, v->0)
        }
    }

    open spec fn decodable(j: Json) -> bool {
        j is Null || T::decodable(j)
    }

    fn from_json(j: &Json) -> (r: Result<Option<T>, DecodeError>) {
        match j {
            Json::Null => Ok(None),
            _ => match T::from_json(j) {
                Ok(v) => Ok(Some(v)),
                Err(e) => Err(e),
            },
        }
    }
}

/// Every item of an array decodes as `T`.
pub open spec fn all_items_decodable<T: FromJson>(items: Seq<Json>) -> bool {
    forall|k: int| 0 <= k < items.len() ==> T::decodable(#[trigger] items[k])
}

/// The items decode element-wise to the given values.
pub open spec fn items_decode_to<T: FromJson>(items: Seq<Json>, vs: Seq<T>) -> bool {
    vs.len() == items.len() && forall|k: int|
        0 <= k < items.len() ==> T::decodes_to(#[trigger] items[k], vs[k])
}

impl<T: FromJson> FromJson for Vec<T> {
    open spec fn decodes_to(j: Json, v: Vec<T>) -> bool {
        match j {
            Json::Arr(items) => items_decode_to::<T>(items@, v@),
            _ => false,
        }
    }

    open spec fn decodable(j: Json) -> bool {
        match j {
            Json::Arr(items) => all_items_decodable::<T>(items@),
            _ => false,
        }
    }

    fn from_json(j: &Json) -> (r: Result<Vec<T>, DecodeError>) {
        match j {
            Json::Arr(items) => {
                let mut out: Vec<T> = Vec::new();
                let mut i: usize = 0;
                while i < items.len()
                    invariant
                        i <= items@.len(),
                        *j == Json::Arr(*items),
                        out@.len() == i as int,
                        forall|k: int|
                            0 <= k < i as int ==> T::decodes_to(#[trigger] items@[k], out@[k]),
                        forall|k: int| 0 <= k < i as int ==> T::decodable(#[trigger] items@[k]),
                    decreases items@.len() - i,
                {
                    match T::from_json(&items[i]) {
                        Ok(v) => {
                            out.push(v);
                        },
                        Err(_) => {
                            proof {
                                assert(!T::decodable(items@[i as int]));
                                assert(!all_items_decodable::<T>(items@));
                            }
                            return Err(DecodeError::TypeMismatch);
                        },
                    }
                    i = i + 1;
                }
                Ok(out)
            },
            _ => Err(DecodeError::TypeMismatch),
        }
    }
}

/// A required field: present under the key and decodable as `T`.
pub open spec fn field_decodes_to<T: FromJson>(j: Json, key: Seq<char>, v: T) -> bool {
    match json_lookup(j, key) {
        Some(x) => T::decodes_to(x, v),
        None => false,
    }
}

/// Whether a required field is present and decodable.
pub open spec fn field_decodable<T: FromJson>(j: Json, key: Seq<char>) -> bool {
    match json_lookup(j, key) {
        Some(x) => T::decodable(x),
        None => false,
    }
}

/// An optional field: a missing key (or a null value) decodes to `None`.
pub open spec fn opt_field_decodes_to<T: FromJson>(j: Json, key: Seq<char>, v: Option<T>) -> bool {
    match json_lookup(j, key) {
        Some(x) => <Option<T> as FromJson>::decodes_to(x, v),
        None => v is None,
    }
}

/// Whether an optional field is absent or decodable.
pub open spec fn opt_field_decodable<T: FromJson>(j: Json, key: Seq<char>) -> bool {
    match json_lookup(j, key) {
        Some(x) => <Option<T> as FromJson>::decodable(x),
        None => true,
    }
}

/// Decodes a required field of an object.
pub fn decode_field<T: FromJson>(j: &Json, key: &str) -> (r: Result<T, DecodeError>)
    ensures
        match r {
            Ok(v) => field_decodable::<T>(*j, key@) && field_decodes_to::<T>(*j, key@, v),
            Err(e) => !field_decodable::<T>(*j, key@) && e == DecodeError::TypeMismatch,
        },
{
    match j.lookup(key) {
        Some(x) => T::from_json(x),
        None => Err(DecodeError::TypeMismatch),
    }
}

/// Decodes an optional field of an object: a missing key or a null value
/// yields `None`.
pub fn decode_opt_field<T: FromJson>(j: &Json, key: &str) -> (r: Result<Option<T>, DecodeError>)
    ensures
        match r {
            Ok(v) => opt_field_decodable::<T>(*j, key@) && opt_field_decodes_to::<T>(*j, key@, v),
            Err(e) => !opt_field_decodable::<T>(*j, key@) && e == DecodeError::TypeMismatch,
        },
{
    match j.lookup(key) {
        Some(x) => <Option<T> as FromJson>::from_json(x),
        None => Ok(None),
    }
}

} // verus!
