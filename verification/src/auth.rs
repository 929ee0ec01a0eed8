//! Authorization: capability scopes and the access-token lifecycle.
//!
//! A `Permissions` value is a fixed-width unsigned bitmask over the known
//! flag table.  Every construction path masks against the all-known-flags
//! constant, so stray bits from legacy wire integers can never reach a
//! comparison or the wire.  The wire form of a permission set is the
//! comma-joined list of the set flags' symbolic names, in the table's
//! declaration order.

use vstd::prelude::*;
use vstd::utf8::encode_utf8;
use vstd::string::StringSliceAdditionalSpecFns;

use crate::query::{ascii_bytes, ascii_chars_of, pct, lemma_pct_ascii, lemma_ascii_append};
use crate::query::{push_pct, string_from_ascii};
use crate::json::{Json, json_lookup};

verus! {

/// One capability scope of the API.  `NoHttps` is unofficial and occupies
/// the high bit of the 32-bit mask.
#[derive(Debug, PartialEq, Eq, Copy, Clone, Structural)]
pub enum Permission {
    Notify,
    Friends,
    Photos,
    Audio,
    Video,
    Docs,
    Notes,
    Pages,
    Menu,
    Status,
    Offers,
    Questions,
    Wall,
    Groups,
    Messages,
    Email,
    Notifications,
    Stats,
    Ads,
    Market,
    Offline,
    NoHttps,
}

/// The union of every known flag's bit.
pub const ALL_FLAGS_MASK: u32 = 0x885fbdff;

/// The bit of one flag.
pub open spec fn flag_mask(p: Permission) -> u32 {
    match p {
        Permission::Notify => 0x1,
        Permission::Friends => 0x2,
        Permission::Photos => 0x4,
        Permission::Audio => 0x8,
        Permission::Video => 0x10,
        Permission::Docs => 0x20000,
        Permission::Notes => 0x800,
        Permission::Pages => 0x80,
        Permission::Menu => 0x100,
        Permission::Status => 0x400,
        Permission::Offers => 0x20,
        Permission::Questions => 0x40,
        Permission::Wall => 0x2000,
        Permission::Groups => 0x40000,
        Permission::Messages => 0x1000,
        Permission::Email => 0x400000,
        Permission::Notifications => 0x80000,
        Permission::Stats => 0x100000,
        Permission::Ads => 0x8000,
        Permission::Market => 0x8000000,
        Permission::Offline => 0x10000,
        Permission::NoHttps => 0x80000000,
    }
}

/// The symbolic wire name of one flag.
pub open spec fn flag_name(p: Permission) -> Seq<char> {
    match p {
        Permission::Notify => "notify"@,
        Permission::Friends => "friends"@,
        Permission::Photos => "photos"@,
        Permission::Audio => "audio"@,
        Permission::Video => "video"@,
        Permission::Docs => "docs"@,
        Permission::Notes => "notes"@,
        Permission::Pages => "pages"@,
        Permission::Menu => "menu"@,
        Permission::Status => "status"@,
        Permission::Offers => "offers"@,
        Permission::Questions => "questions"@,
        Permission::Wall => "wall"@,
        Permission::Groups => "groups"@,
        Permission::Messages => "messages"@,
        Permission::Email => "email"@,
        Permission::Notifications => "notifications"@,
        Permission::Stats => "stats"@,
        Permission::Ads => "ads"@,
        Permission::Market => "market"@,
        Permission::Offline => "offline"@,
        Permission::NoHttps => "nohttps"@,
    }
}

/// The wire name of one flag, as ASCII bytes.
pub open spec fn name_bytes(p: Permission) -> Seq<u8> {
    match p {
        Permission::Notify => seq!['n' as u8, 'o' as u8, 't' as u8, 'i' as u8, 'f' as u8, 'y' as u8],
        Permission::Friends => seq![
            'f' as u8,
            'r' as u8,
            'i' as u8,
            'e' as u8,
            'n' as u8,
            'd' as u8,
            's' as u8,
        ],
        Permission::Photos => seq!['p' as u8, 'h' as u8, 'o' as u8, 't' as u8, 'o' as u8, 's' as u8],
        Permission::Audio => seq!['a' as u8, 'u' as u8, 'd' as u8, 'i' as u8, 'o' as u8],
        Permission::Video => seq!['v' as u8, 'i' as u8, 'd' as u8, 'e' as u8, 'o' as u8],
        Permission::Docs => seq!['d' as u8, 'o' as u8, 'c' as u8, 's' as u8],
        Permission::Notes => seq!['n' as u8, 'o' as u8, 't' as u8, 'e' as u8, 's' as u8],
        Permission::Pages => seq!['p' as u8, 'a' as u8, 'g' as u8, 'e' as u8, 's' as u8],
        Permission::Menu => seq!['m' as u8, 'e' as u8, 'n' as u8, 'u' as u8],
        Permission::Status => seq!['s' as u8, 't' as u8, 'a' as u8, 't' as u8, 'u' as u8, 's' as u8],
        Permission::Offers => seq!['o' as u8, 'f' as u8, 'f' as u8, 'e' as u8, 'r' as u8, 's' as u8],
        Permission::Questions => seq![
            'q' as u8,
            'u' as u8,
            'e' as u8,
            's' as u8,
            't' as u8,
            'i' as u8,
            'o' as u8,
            'n' as u8,
            's' as u8,
        ],
        Permission::Wall => seq!['w' as u8, 'a' as u8, 'l' as u8, 'l' as u8],
        Permission::Groups => seq!['g' as u8, 'r' as u8, 'o' as u8, 'u' as u8, 'p' as u8, 's' as u8],
        Permission::Messages => seq![
            'm' as u8,
            'e' as u8,
            's' as u8,
            's' as u8,
            'a' as u8,
            'g' as u8,
            'e' as u8,
            's' as u8,
        ],
        Permission::Email => seq!['e' as u8, 'm' as u8, 'a' as u8, 'i' as u8, 'l' as u8],
        Permission::Notifications => seq![
            'n' as u8,
            'o' as u8,
            't' as u8,
            'i' as u8,
            'f' as u8,
            'i' as u8,
            'c' as u8,
            'a' as u8,
            't' as u8,
            'i' as u8,
            'o' as u8,
            'n' as u8,
            's' as u8,
        ],
        Permission::Stats => seq!['s' as u8, 't' as u8, 'a' as u8, 't' as u8, 's' as u8],
        Permission::Ads => seq!['a' as u8, 'd' as u8, 's' as u8],
        Permission::Market => seq!['m' as u8, 'a' as u8, 'r' as u8, 'k' as u8, 'e' as u8, 't' as u8],
        Permission::Offline => seq![
            'o' as u8,
            'f' as u8,
            'f' as u8,
            'l' as u8,
            'i' as u8,
            'n' as u8,
            'e' as u8,
        ],
        Permission::NoHttps => seq![
            'n' as u8,
            'o' as u8,
            'h' as u8,
            't' as u8,
            't' as u8,
            'p' as u8,
            's' as u8,
        ],
    }
}

/// The known flags in canonical declaration order.
pub open spec fn flag_table() -> Seq<Permission> {
    seq![
        Permission::Notify,
        Permission::Friends,
        Permission::Photos,
        Permission::Audio,
        Permission::Video,
        Permission::Docs,
        Permission::Notes,
        Permission::Pages,
        Permission::Menu,
        Permission::Status,
        Permission::Offers,
        Permission::Questions,
        Permission::Wall,
        Permission::Groups,
        Permission::Messages,
        Permission::Email,
        Permission::Notifications,
        Permission::Stats,
        Permission::Ads,
        Permission::Market,
        Permission::Offline,
        Permission::NoHttps,
    ]
}

impl Permission {
    /// Every known flag, in canonical declaration order.
    pub fn variants() -> (r: Vec<Permission>)
        ensures
            r@ == flag_table(),
    {
        let mut v: Vec<Permission> = Vec::new();
        v.push(Permission::Notify);
        v.push(Permission::Friends);
        v.push(Permission::Photos);
        v.push(Permission::Audio);
        v.push(Permission::Video);
        v.push(Permission::Docs);
        v.push(Permission::Notes);
        v.push(Permission::Pages);
        v.push(Permission::Menu);
        v.push(Permission::Status);
        v.push(Permission::Offers);
        v.push(Permission::Questions);
        v.push(Permission::Wall);
        v.push(Permission::Groups);
        v.push(Permission::Messages);
        v.push(Permission::Email);
        v.push(Permission::Notifications);
        v.push(Permission::Stats);
        v.push(Permission::Ads);
        v.push(Permission::Market);
        v.push(Permission::Offline);
        v.push(Permission::NoHttps);
        proof {
            assert(v@ =~= flag_table());
        }
        v
    }

    /// This flag's bit in the mask.
    pub fn mask(&self) -> (r: u32)
        ensures
            r == flag_mask(*self),
    {
        match *self {
            Permission::Notify => 0x1,
            Permission::Friends => 0x2,
            Permission::Photos => 0x4,
            Permission::Audio => 0x8,
            Permission::Video => 0x10,
            Permission::Docs => 0x20000,
            Permission::Notes => 0x800,
            Permission::Pages => 0x80,
            Permission::Menu => 0x100,
            Permission::Status => 0x400,
            Permission::Offers => 0x20,
            Permission::Questions => 0x40,
            Permission::Wall => 0x2000,
            Permission::Groups => 0x40000,
            Permission::Messages => 0x1000,
            Permission::Email => 0x400000,
            Permission::Notifications => 0x80000,
            Permission::Stats => 0x100000,
            Permission::Ads => 0x8000,
            Permission::Market => 0x8000000,
            Permission::Offline => 0x10000,
            Permission::NoHttps => 0x80000000,
        }
    }

    /// The union of every known flag's bit.
    pub fn mask_all() -> (r: u32)
        ensures
            r == ALL_FLAGS_MASK,
    {
        ALL_FLAGS_MASK
    }

    /// The flag a wire name denotes, if any: the name is matched
    /// exactly, with no trimming.
    pub fn from_str(s: &str) -> (r: Result<Permission, ()>)
        ensures
            match r {
                Ok(p) => parse_flag(encode_utf8(s@)) == Some(p),
                Err(_) => parse_flag(encode_utf8(s@)) is None,
            },
    {
        match flag_of_exact(s.as_bytes()) {
            Some(p) => Ok(p),
            None => Err(()),
        }
    }

    /// The flag's symbolic wire name.
    pub fn to_str(&self) -> (r: &'static str)
        ensures
            r@ == flag_name(*self),
    {
        match *self {
            Permission::Notify => "notify",
            Permission::Friends => "friends",
            Permission::Photos => "photos",
            Permission::Audio => "audio",
            Permission::Video => "video",
            Permission::Docs => "docs",
            Permission::Notes => "notes",
            Permission::Pages => "pages",
            Permission::Menu => "menu",
            Permission::Status => "status",
            Permission::Offers => "offers",
            Permission::Questions => "questions",
            Permission::Wall => "wall",
            Permission::Groups => "groups",
            Permission::Messages => "messages",
            Permission::Email => "email",
            Permission::Notifications => "notifications",
            Permission::Stats => "stats",
            Permission::Ads => "ads",
            Permission::Market => "market",
            Permission::Offline => "offline",
            Permission::NoHttps => "nohttps",
        }
    }

    /// The flag's wire name as bytes.
    fn name_vec(&self) -> (r: Vec<u8>)
        ensures
            r@ == name_bytes(*self),
    {
        let mut v: Vec<u8> = Vec::new();
        match *self {
            Permission::Notify => {
                v.push('n' as u8);
                v.push('o' as u8);
                v.push('t' as u8);
                v.push('i' as u8);
                v.push('f' as u8);
                v.push('y' as u8);
            },
            Permission::Friends => {
                v.push('f' as u8);
                v.push('r' as u8);
                v.push('i' as u8);
                v.push('e' as u8);
                v.push('n' as u8);
                v.push('d' as u8);
                v.push('s' as u8);
            },
            Permission::Photos => {
                v.push('p' as u8);
                v.push('h' as u8);
                v.push('o' as u8);
                v.push('t' as u8);
                v.push('o' as u8);
                v.push('s' as u8);
            },
            Permission::Audio => {
                v.push('a' as u8);
                v.push('u' as u8);
                v.push('d' as u8);
                v.push('i' as u8);
                v.push('o' as u8);
            },
            Permission::Video => {
                v.push('v' as u8);
                v.push('i' as u8);
                v.push('d' as u8);
                v.push('e' as u8);
                v.push('o' as u8);
            },
            Permission::Docs => {
                v.push('d' as u8);
                v.push('o' as u8);
                v.push('c' as u8);
                v.push('s' as u8);
            },
            Permission::Notes => {
                v.push('n' as u8);
                v.push('o' as u8);
                v.push('t' as u8);
                v.push('e' as u8);
                v.push('s' as u8);
            },
            Permission::Pages => {
                v.push('p' as u8);
                v.push('a' as u8);
                v.push('g' as u8);
                v.push('e' as u8);
                v.push('s' as u8);
            },
            Permission::Menu => {
                v.push('m' as u8);
                v.push('e' as u8);
                v.push('n' as u8);
                v.push('u' as u8);
            },
            Permission::Status => {
                v.push('s' as u8);
                v.push('t' as u8);
                v.push('a' as u8);
                v.push('t' as u8);
                v.push('u' as u8);
                v.push('s' as u8);
            },
            Permission::Offers => {
                v.push('o' as u8);
                v.push('f' as u8);
                v.push('f' as u8);
                v.push('e' as u8);
                v.push('r' as u8);
                v.push('s' as u8);
            },
            Permission::Questions => {
                v.push('q' as u8);
                v.push('u' as u8);
                v.push('e' as u8);
                v.push('s' as u8);
                v.push('t' as u8);
                v.push('i' as u8);
                v.push('o' as u8);
                v.push('n' as u8);
                v.push('s' as u8);
            },
            Permission::Wall => {
                v.push('w' as u8);
                v.push('a' as u8);
                v.push('l' as u8);
                v.push('l' as u8);
            },
            Permission::Groups => {
                v.push('g' as u8);
                v.push('r' as u8);
                v.push('o' as u8);
                v.push('u' as u8);
                v.push('p' as u8);
                v.push('s' as u8);
            },
            Permission::Messages => {
                v.push('m' as u8);
                v.push('e' as u8);
                v.push('s' as u8);
                v.push('s' as u8);
                v.push('a' as u8);
                v.push('g' as u8);
                v.push('e' as u8);
                v.push('s' as u8);
            },
            Permission::Email => {
                v.push('e' as u8);
                v.push('m' as u8);
                v.push('a' as u8);
                v.push('i' as u8);
                v.push('l' as u8);
            },
            Permission::Notifications => {
                v.push('n' as u8);
                v.push('o' as u8);
                v.push('t' as u8);
                v.push('i' as u8);
                v.push('f' as u8);
                v.push('i' as u8);
                v.push('c' as u8);
                v.push('a' as u8);
                v.push('t' as u8);
                v.push('i' as u8);
                v.push('o' as u8);
                v.push('n' as u8);
                v.push('s' as u8);
            },
            Permission::Stats => {
                v.push('s' as u8);
                v.push('t' as u8);
                v.push('a' as u8);
                v.push('t' as u8);
                v.push('s' as u8);
            },
            Permission::Ads => {
                v.push('a' as u8);
                v.push('d' as u8);
                v.push('s' as u8);
            },
            Permission::Market => {
                v.push('m' as u8);
                v.push('a' as u8);
                v.push('r' as u8);
                v.push('k' as u8);
                v.push('e' as u8);
                v.push('t' as u8);
            },
            Permission::Offline => {
                v.push('o' as u8);
                v.push('f' as u8);
                v.push('f' as u8);
                v.push('l' as u8);
                v.push('i' as u8);
                v.push('n' as u8);
                v.push('e' as u8);
            },
            Permission::NoHttps => {
                v.push('n' as u8);
                v.push('o' as u8);
                v.push('h' as u8);
                v.push('t' as u8);
                v.push('t' as u8);
                v.push('p' as u8);
                v.push('s' as u8);
            },
        }
        proof {
            assert(v@ =~= name_bytes(*self));
        }
        v
    }
}

/// A set of capability scopes, held as a bitmask over the known flag
/// table.  The invariant — only known bits are ever set — is established
/// by every constructor.
#[derive(Debug, PartialEq, Eq, Copy, Clone, Structural, Default)]
pub struct Permissions(u32);

/// The union of the masks of a sequence of flags.
pub open spec fn or_masks(flags: Seq<Permission>) -> u32
    decreases flags.len(),
{
    if flags.len() == 0 {
        0u32
    } else {
        flag_mask(flags[0]) | or_masks(flags.drop_first())
    }
}

impl Permissions {
    /// The held mask.
    pub closed spec fn mask_spec(self) -> u32 {
        self.0
    }

    /// The invariant: only known bits are set.
    pub open spec fn wf(self) -> bool {
        self.mask_spec() & ALL_FLAGS_MASK == self.mask_spec()
    }

    /// Wraps a raw mask, keeping only the known bits.
    pub fn new(n: u32) -> (r: Permissions)
        ensures
            r.mask_spec() == n & ALL_FLAGS_MASK,
            r.wf(),
    {
        proof {
            assert((n & ALL_FLAGS_MASK) & ALL_FLAGS_MASK == n & ALL_FLAGS_MASK) by (bit_vector);
        }
        Permissions(n & ALL_FLAGS_MASK)
    }

    /// The raw mask value.
    pub fn raw_mask(&self) -> (r: u32)
        ensures
            r == self.mask_spec(),
    {
        self.0
    }

    /// Whether a flag is in the set.
    pub fn contains(&self, p: Permission) -> (r: bool)
        ensures
            r == (self.mask_spec() & flag_mask(p) != 0),
    {
        self.0 & p.mask() != 0
    }

    /// The union of the bits of the given flags.
    pub fn from_flags(flags: &[Permission]) -> (r: Permissions)
        ensures
            r.mask_spec() == or_masks(flags@),
            r.wf(),
    {
        let mut m: u32 = 0;
        let mut i: usize = 0;
        proof {
            assert(flags@.skip(0) =~= flags@);
            assert(0u32 & ALL_FLAGS_MASK == 0u32) by (bit_vector);
            lemma_zero_or(or_masks(flags@));
        }
        while i < flags.len()
            invariant
                i <= flags@.len(),
                or_masks(flags@) == m | or_masks(flags@.skip(i as int)),
                m & ALL_FLAGS_MASK == m,
            decreases flags@.len() - i,
        {
            let p = flags[i];
            proof {
                assert(flags@.skip(i as int).drop_first() =~= flags@.skip(i as int + 1));
                lemma_flag_mask_props(flags@[i as int]);
                lemma_or_assoc(m, flag_mask(flags@[i as int]), or_masks(flags@.skip(i as int + 1)));
                lemma_or_keeps_known(m, flag_mask(flags@[i as int]));
            }
            m = m | p.mask();
            i = i + 1;
        }
        proof {
            assert(flags@.skip(flags@.len() as int) =~= Seq::<Permission>::empty());
            assert(m | 0u32 == m) by (bit_vector);
        }
        Permissions(m)
    }

    /// The union of two sets.
    pub fn union(self, other: Permissions) -> (r: Permissions)
        requires
            self.wf(),
            other.wf(),
        ensures
            r.mask_spec() == self.mask_spec() | other.mask_spec(),
            r.wf(),
    {
        proof {
            lemma_or_keeps_known(self.0, other.0);
        }
        Permissions(self.0 | other.0)
    }

    /// The set flags, in canonical declaration order.
    pub fn to_flags(&self) -> (r: Vec<Permission>)
        ensures
            r@ == flags_of_mask(self.mask_spec()),
    {
        let table = Permission::variants();
        let mut r: Vec<Permission> = Vec::new();
        let mut i: usize = 0;
        proof {
            assert(flag_table().skip(0) =~= flag_table());
        }
        while i < table.len()
            invariant
                i <= flag_table().len(),
                table@ == flag_table(),
                flags_of_mask(self.mask_spec()) == r@ + flags_from(self.mask_spec(), flag_table().skip(i as int)),
            decreases flag_table().len() - i,
        {
            proof {
                assert(flag_table().skip(i as int).drop_first() =~= flag_table().skip(i as int + 1));
            }
            let p = table[i];
            if self.0 & p.mask() != 0 {
                r.push(p);
            }
            i = i + 1;
        }
        proof {
            assert(flag_table().skip(flag_table().len() as int) =~= Seq::<Permission>::empty());
        }
        r
    }
}

/// The flags of a mask, restricted to a table suffix.
pub open spec fn flags_from(m: u32, table: Seq<Permission>) -> Seq<Permission>
    decreases table.len(),
{
    if table.len() == 0 {
        Seq::empty()
    } else if m & flag_mask(table[0]) != 0 {
        seq![table[0]] + flags_from(m, table.drop_first())
    } else {
        flags_from(m, table.drop_first())
    }
}

/// The set flags of a mask, in canonical declaration order.
pub open spec fn flags_of_mask(m: u32) -> Seq<Permission> {
    flags_from(m, flag_table())
}

/// Each flag's bit is a single, known, non-zero bit.
proof fn lemma_flag_mask_props(p: Permission)
    ensures
        flag_mask(p) != 0,
        flag_mask(p) & ((flag_mask(p) - 1) as u32) == 0,
        flag_mask(p) & ALL_FLAGS_MASK == flag_mask(p),
{
    assert(0x1u32 & ((0x1u32 - 1) as u32) == 0 && 0x1u32 & 0x885fbdffu32 == 0x1u32 && 0x2u32 & ((0x2u32 - 1) as u32) == 0 && 0x2u32 & 0x885fbdffu32 == 0x2u32 && 0x4u32 & ((0x4u32 - 1) as u32) == 0 && 0x4u32 & 0x885fbdffu32 == 0x4u32 && 0x8u32 & ((0x8u32 - 1) as u32) == 0 && 0x8u32 & 0x885fbdffu32 == 0x8u32 && 0x10u32 & ((0x10u32 - 1) as u32) == 0 && 0x10u32 & 0x885fbdffu32 == 0x10u32 && 0x20000u32 & ((0x20000u32 - 1) as u32) == 0 && 0x20000u32 & 0x885fbdffu32 == 0x20000u32 && 0x800u32 & ((0x800u32 - 1) as u32) == 0 && 0x800u32 & 0x885fbdffu32 == 0x800u32 && 0x80u32 & ((0x80u32 - 1) as u32) == 0 && 0x80u32 & 0x885fbdffu32 == 0x80u32 && 0x100u32 & ((0x100u32 - 1) as u32) == 0 && 0x100u32 & 0x885fbdffu32 == 0x100u32 && 0x400u32 & ((0x400u32 - 1) as u32) == 0 && 0x400u32 & 0x885fbdffu32 == 0x400u32 && 0x20u32 & ((0x20u32 - 1) as u32) == 0 && 0x20u32 & 0x885fbdffu32 == 0x20u32 && 0x40u32 & ((0x40u32 - 1) as u32) == 0 && 0x40u32 & 0x885fbdffu32 == 0x40u32 && 0x2000u32 & ((0x2000u32 - 1) as u32) == 0 && 0x2000u32 & 0x885fbdffu32 == 0x2000u32 && 0x40000u32 & ((0x40000u32 - 1) as u32) == 0 && 0x40000u32 & 0x885fbdffu32 == 0x40000u32 && 0x1000u32 & ((0x1000u32 - 1) as u32) == 0 && 0x1000u32 & 0x885fbdffu32 == 0x1000u32 && 0x400000u32 & ((0x400000u32 - 1) as u32) == 0 && 0x400000u32 & 0x885fbdffu32 == 0x400000u32 && 0x80000u32 & ((0x80000u32 - 1) as u32) == 0 && 0x80000u32 & 0x885fbdffu32 == 0x80000u32 && 0x100000u32 & ((0x100000u32 - 1) as u32) == 0 && 0x100000u32 & 0x885fbdffu32 == 0x100000u32 && 0x8000u32 & ((0x8000u32 - 1) as u32) == 0 && 0x8000u32 & 0x885fbdffu32 == 0x8000u32 && 0x8000000u32 & ((0x8000000u32 - 1) as u32) == 0 && 0x8000000u32 & 0x885fbdffu32 == 0x8000000u32 && 0x10000u32 & ((0x10000u32 - 1) as u32) == 0 && 0x10000u32 & 0x885fbdffu32 == 0x10000u32 && 0x80000000u32 & ((0x80000000u32 - 1) as u32) == 0 && 0x80000000u32 & 0x885fbdffu32 == 0x80000000u32) by (bit_vector);
}

/// Zero is the identity of bitwise or.
proof fn lemma_zero_or(x: u32)
    ensures
        0u32 | x == x,
{
    assert(0u32 | x == x) by (bit_vector);
}

/// Bitwise or is associative.
proof fn lemma_or_assoc(a: u32, b: u32, c: u32)
    ensures
        a | (b | c) == (a | b) | c,
{
    assert(a | (b | c) == (a | b) | c) by (bit_vector);
}

/// The union of two masks of known bits has only known bits.
proof fn lemma_or_keeps_known(a: u32, b: u32)
    requires
        a & ALL_FLAGS_MASK == a,
        b & ALL_FLAGS_MASK == b,
    ensures
        (a | b) & ALL_FLAGS_MASK == (a | b),
{
    assert(a & ALL_FLAGS_MASK == a && b & ALL_FLAGS_MASK == b ==> (a | b) & ALL_FLAGS_MASK == (a
        | b)) by (bit_vector);
}


/// ASCII whitespace, trimmed from the ends of each wire token.
pub open spec fn is_ws(b: u8) -> bool {
    b == 0x20 || b == 0x09 || b == 0x0a || b == 0x0d
}

/// Drops leading ASCII whitespace.
pub open spec fn trim_start(t: Seq<u8>) -> Seq<u8>
    decreases t.len(),
{
    if t.len() > 0 && is_ws(t[0]) {
        trim_start(t.drop_first())
    } else {
        t
    }
}

/// Drops trailing ASCII whitespace.
pub open spec fn trim_end(t: Seq<u8>) -> Seq<u8>
    decreases t.len(),
{
    if t.len() > 0 && is_ws(t.last()) {
        trim_end(t.drop_last())
    } else {
        t
    }
}

/// Drops leading and trailing ASCII whitespace.
pub open spec fn trim_bytes(t: Seq<u8>) -> Seq<u8> {
    trim_end(trim_start(t))
}

/// Looks a token up in the flag table, from entry `i` on.
pub open spec fn parse_flag_from(t: Seq<u8>, i: int) -> Option<Permission>
    decreases 22 - i,
{
    if i < 0 || i >= 22 {
        None
    } else if t == name_bytes(flag_table()[i]) {
        Some(flag_table()[i])
    } else {
        parse_flag_from(t, i + 1)
    }
}

/// Looks a token up in the flag table.
pub open spec fn parse_flag(t: Seq<u8>) -> Option<Permission> {
    parse_flag_from(t, 0)
}

/// Scans a wire string: accumulates the current token's bytes, and at
/// each comma (and at the end) resolves the trimmed token to a flag,
/// failing on the first token that matches none.
pub open spec fn wire_scan(b: Seq<u8>, tok: Seq<u8>, m: u32) -> Option<u32>
    decreases b.len(),
{
    if b.len() == 0 {
        match parse_flag(trim_bytes(tok)) {
            Some(p) => Some(m | flag_mask(p)),
            None => None,
        }
    } else if b[0] == 0x2c {
        match parse_flag(trim_bytes(tok)) {
            Some(p) => wire_scan(b.drop_first(), Seq::empty(), m | flag_mask(p)),
            None => None,
        }
    } else {
        wire_scan(b.drop_first(), tok.push(b[0]), m)
    }
}

/// Parses a wire permission list: the mask of the named flags, or `None`
/// if any comma-separated token (trimmed) names no known flag.  The empty
/// string holds one empty token and therefore fails.
pub open spec fn from_wire_bytes(b: Seq<u8>) -> Option<u32> {
    wire_scan(b, Seq::empty(), 0)
}

/// The union of the bits of the table entries from `i` on.
pub open spec fn rest_mask(i: int) -> u32
    decreases 22 - i,
{
    if i < 0 || i >= 22 {
        0u32
    } else {
        flag_mask(flag_table()[i]) | rest_mask(i + 1)
    }
}

/// The wire form of a mask, considering table entries from `i` on: the
/// names of the set flags in table order, joined by commas.
pub open spec fn to_wire_from(m: u32, i: int) -> Seq<u8>
    decreases 22 - i,
{
    if i < 0 || i >= 22 {
        Seq::empty()
    } else if m & flag_mask(flag_table()[i]) == 0 {
        to_wire_from(m, i + 1)
    } else if m & rest_mask(i + 1) == 0 {
        name_bytes(flag_table()[i])
    } else {
        name_bytes(flag_table()[i]) + seq![0x2cu8] + to_wire_from(m, i + 1)
    }
}

/// The wire form of a mask: comma-joined names of the set flags, in
/// canonical declaration order.
pub open spec fn to_wire_bytes(m: u32) -> Seq<u8> {
    to_wire_from(m, 0)
}

/// Failure of `Permissions::from_wire`: some token names no known flag.
#[derive(Debug, PartialEq, Eq, Copy, Clone, Structural)]
pub enum ParseError {
    UnknownFlag,
}

/// Compares two byte slices.
fn bytes_eq(a: &[u8], b: &[u8]) -> (r: bool)
    ensures
        r == (a@ == b@),
{
    if a.len() != b.len() {
        proof {
            assert(a@ != b@);
        }
        return false;
    }
    let mut i: usize = 0;
    while i < a.len()
        invariant
            a@.len() == b@.len(),
            i <= a@.len(),
            forall|j: int| 0 <= j < i ==> a@[j] == b@[j],
        decreases a@.len() - i,
    {
        if a[i] != b[i] {
            proof {
                assert(a@ != b@);
            }
            return false;
        }
        i = i + 1;
    }
    proof {
        assert(a@ =~= b@);
    }
    true
}

/// Whether a byte is ASCII whitespace.
fn is_ws_byte(b: u8) -> (r: bool)
    ensures
        r == is_ws(b),
{
    b == 0x20 || b == 0x09 || b == 0x0a || b == 0x0d
}

/// Copies a slice's bytes with leading and trailing ASCII whitespace
/// dropped.
fn trim_vec(t: &[u8]) -> (r: Vec<u8>)
    ensures
        r@ == trim_bytes(t@),
{
    let mut lo: usize = 0;
    proof {
        assert(t@.skip(0) =~= t@);
    }
    while lo < t.len() && is_ws_byte(t[lo])
        invariant
            lo <= t@.len(),
            trim_start(t@) == trim_start(t@.skip(lo as int)),
        decreases t@.len() - lo,
    {
        proof {
            assert(t@.skip(lo as int).drop_first() =~= t@.skip(lo as int + 1));
        }
        lo = lo + 1;
    }
    proof {
        if lo < t.len() {
            assert(trim_start(t@.skip(lo as int)) == t@.skip(lo as int));
        } else {
            assert(t@.skip(lo as int) =~= Seq::<u8>::empty());
        }
    }
    let ghost suffix = t@.skip(lo as int);
    let mut hi: usize = t.len();
    proof {
        assert(suffix.take((hi - lo) as int) =~= suffix);
    }
    while hi > lo && is_ws_byte(t[hi - 1])
        invariant
            lo <= hi <= t@.len(),
            suffix == t@.skip(lo as int),
            trim_end(suffix) == trim_end(suffix.take((hi - lo) as int)),
        decreases hi,
    {
        proof {
            assert(suffix.take((hi - lo) as int).last() == t@[hi - 1]);
            assert(suffix.take((hi - lo) as int).drop_last() =~= suffix.take((hi - 1 - lo) as int));
        }
        hi = hi - 1;
    }
    proof {
        if hi > lo {
            assert(suffix.take((hi - lo) as int).last() == t@[hi - 1]);
            assert(trim_end(suffix.take((hi - lo) as int)) == suffix.take((hi - lo) as int));
        } else {
            assert(suffix.take(0) =~= Seq::<u8>::empty());
        }
    }
    let mut r: Vec<u8> = Vec::new();
    let mut j: usize = lo;
    while j < hi
        invariant
            lo <= j <= hi <= t@.len(),
            r@ == t@.subrange(lo as int, j as int),
        decreases hi - j,
    {
        r.push(t[j]);
        proof {
            assert(t@.subrange(lo as int, j as int).push(t@[j as int]) =~= t@.subrange(
                lo as int,
                j as int + 1,
            ));
        }
        j = j + 1;
    }
    proof {
        assert(t@.subrange(lo as int, hi as int) =~= suffix.take((hi - lo) as int));
    }
    r
}

/// Resolves a token to a flag through the table, byte for byte.
fn flag_of_exact(t: &[u8]) -> (r: Option<Permission>)
    ensures
        r == parse_flag(t@),
{
    let table = Permission::variants();
    let mut i: usize = 0;
    while i < table.len()
        invariant
            i <= 22,
            table@ == flag_table(),
            parse_flag(t@) == parse_flag_from(t@, i as int),
        decreases 22 - i,
    {
        let name = table[i].name_vec();
        if bytes_eq(t, name.as_slice()) {
            return Some(table[i]);
        }
        i = i + 1;
    }
    None
}

/// Resolves one token to a flag through the table, after trimming.
fn flag_of_token(tok: &[u8]) -> (r: Option<Permission>)
    ensures
        r == parse_flag(trim_bytes(tok@)),
{
    let trimmed = trim_vec(tok);
    flag_of_exact(trimmed.as_slice())
}

impl Permissions {
    /// Writes the set in its wire form: the symbolic names of exactly the
    /// set flags, comma-joined, ordered by the table's declaration order.
    /// The empty set yields the empty string.
    pub fn to_wire(&self) -> (r: String)
        ensures
            r@ == ascii_chars_of(to_wire_bytes(self.mask_spec())),
    {
        let out = self.to_wire_vec();
        proof {
            lemma_wire_bytes_ascii(self.mask_spec(), 0);
        }
        string_from_ascii(out)
    }

    /// The wire form as bytes.
    pub fn to_wire_vec(&self) -> (r: Vec<u8>)
        ensures
            r@ == to_wire_bytes(self.mask_spec()),
    {
        let ghost m = self.mask_spec();
        let table = Permission::variants();
        let mut out: Vec<u8> = Vec::new();
        let mut started = false;
        let mut i: usize = 0;
        while i < table.len()
            invariant
                i <= 22,
                table@ == flag_table(),
                m == self.mask_spec(),
                started ==> to_wire_bytes(m) == out@ + (if m & rest_mask(i as int) != 0 {
                    seq![0x2cu8] + to_wire_from(m, i as int)
                } else {
                    Seq::<u8>::empty()
                }),
                !started ==> out@ == Seq::<u8>::empty() && to_wire_bytes(m) == to_wire_from(
                    m,
                    i as int,
                ),
            decreases 22 - i,
        {
            let p = table[i];
            proof {
                lemma_rest_step(m, flag_mask(p), rest_mask(i as int), rest_mask(i as int + 1));
            }
            if self.0 & p.mask() != 0 {
                if started {
                    out.push(0x2c);
                }
                let name = p.name_vec();
                out.extend_from_slice(name.as_slice());
                started = true;
            }
            i = i + 1;
        }
        proof {
            lemma_and_zero(m);
        }
        out
    }

    /// Parses the wire form: splits on commas, trims each token, and
    /// resolves it through the flag table, failing on the first token
    /// that names no known flag (so the empty string fails: its one
    /// token is empty).  Exactly the named flags end up set.
    pub fn from_wire(s: &str) -> (r: Result<Permissions, ParseError>)
        ensures
            match r {
                Ok(p) => from_wire_bytes(encode_utf8(s@)) == Some(p.mask_spec()) && p.wf(),
                Err(_) => from_wire_bytes(encode_utf8(s@)) is None,
            },
    {
        let bytes: &[u8] = s.as_bytes();
        let mut tok: Vec<u8> = Vec::new();
        let mut m: u32 = 0;
        let mut i: usize = 0;
        proof {
            assert(bytes@.skip(0) =~= bytes@);
            assert(0u32 & ALL_FLAGS_MASK == 0u32) by (bit_vector);
        }
        while i < bytes.len()
            invariant
                i <= bytes@.len(),
                bytes@ == encode_utf8(s@),
                from_wire_bytes(bytes@) == wire_scan(bytes@.skip(i as int), tok@, m),
                m & ALL_FLAGS_MASK == m,
            decreases bytes@.len() - i,
        {
            let b = bytes[i];
            proof {
                assert(bytes@.skip(i as int).drop_first() =~= bytes@.skip(i as int + 1));
                assert(bytes@.skip(i as int)[0] == bytes@[i as int]);
            }
            if b == 0x2c {
                match flag_of_token(tok.as_slice()) {
                    Some(p) => {
                        proof {
                            lemma_flag_mask_props(p);
                            lemma_or_keeps_known(m, flag_mask(p));
                        }
                        m = m | p.mask();
                        tok = Vec::new();
                    },
                    None => {
                        return Err(ParseError::UnknownFlag);
                    },
                }
            } else {
                tok.push(b);
            }
            i = i + 1;
        }
        proof {
            assert(bytes@.skip(bytes@.len() as int) =~= Seq::<u8>::empty());
        }
        match flag_of_token(tok.as_slice()) {
            Some(p) => {
                proof {
                    lemma_flag_mask_props(p);
                    lemma_or_keeps_known(m, flag_mask(p));
                }
                Ok(Permissions(m | p.mask()))
            },
            None => Err(ParseError::UnknownFlag),
        }
    }
}

/// Every byte of a mask's wire form is ASCII.
proof fn lemma_wire_bytes_ascii(m: u32, i: int)
    ensures
        ascii_bytes(to_wire_from(m, i)),
    decreases 22 - i,
{
    if 0 <= i < 22 {
        let p = flag_table()[i];
        lemma_name_props(p);
        lemma_wire_bytes_ascii(m, i + 1);
        let name = name_bytes(p);
        let rest = to_wire_from(m, i + 1);
        if m & flag_mask(p) != 0 && m & rest_mask(i + 1) != 0 {
            assert forall|j: int| 0 <= j < to_wire_from(m, i).len() implies to_wire_from(m, i)[j]
                < 0x80 by {
                if j < name.len() {
                    assert(to_wire_from(m, i)[j] == name[j]);
                } else if j == name.len() {
                    assert(to_wire_from(m, i)[j] == 0x2c);
                } else {
                    assert(to_wire_from(m, i)[j] == rest[j - name.len() - 1]);
                }
            }
        }
    }
}

/// A mask bit that is zero or one known bit: how it meets a suffix union.
proof fn lemma_rest_step(m: u32, b: u32, rest: u32, r1: u32)
    requires
        rest == b | r1,
    ensures
        m & b == 0 ==> m & rest == m & r1,
        m & b != 0 ==> m & rest != 0,
{
    assert((m & b == 0 ==> m & (b | r1) == m & r1) && (m & b != 0 ==> m & (b | r1) != 0))
        by (bit_vector);
}

/// Meeting a mask with zero gives zero.
proof fn lemma_and_zero(m: u32)
    ensures
        m & 0u32 == 0,
{
    assert(m & 0u32 == 0) by (bit_vector);
}

/// Splitting one set single-bit flag off a suffix union.
proof fn lemma_set_split(m: u32, b: u32, r1: u32)
    requires
        b & ((b - 1) as u32) == 0,
        m & b != 0,
    ensures
        m & (b | r1) == b | (m & r1),
        m & r1 == 0 ==> m & (b | r1) == b,
{
    assert((b & ((b - 1) as u32) == 0 && m & b != 0 ==> m & (b | r1) == b | (m & r1)) && (b & ((b
        - 1) as u32) == 0 && m & b != 0 && m & r1 == 0 ==> m & (b | r1) == b)) by (bit_vector);
}

/// Names are non-empty, free of commas and whitespace, parse back to
/// their own flag, and trim to themselves.
proof fn lemma_name_props(p: Permission)
    ensures
        name_bytes(p).len() > 0,
        forall|j: int|
            0 <= j < name_bytes(p).len() ==> !is_ws(name_bytes(p)[j]) && name_bytes(p)[j] != 0x2c
                && name_bytes(p)[j] < 0x80,
        trim_bytes(name_bytes(p)) == name_bytes(p),
        parse_flag(name_bytes(p)) == Some(p),
{
    reveal_with_fuel(parse_flag_from, 23);
    let t = name_bytes(p);
    assert(name_bytes(p).len() > 0 && forall|j: int|
        0 <= j < name_bytes(p).len() ==> !is_ws(name_bytes(p)[j]) && name_bytes(p)[j] != 0x2c
            && name_bytes(p)[j] < 0x80);
    assert(trim_start(t) == t);
    assert(trim_end(t) == t);
    assert(parse_flag(t) == Some(p));
}

/// Scanning a comma-free stretch only grows the current token.
proof fn lemma_scan_token(t: Seq<u8>, r: Seq<u8>, tok: Seq<u8>, m: u32)
    requires
        forall|j: int| 0 <= j < t.len() ==> t[j] != 0x2c,
    ensures
        wire_scan(t + r, tok, m) == wire_scan(r, tok + t, m),
    decreases t.len(),
{
    if t.len() == 0 {
        assert(t + r =~= r);
        assert(tok + t =~= tok);
    } else {
        assert((t + r)[0] == t[0]);
        assert((t + r).drop_first() =~= t.drop_first() + r);
        assert(tok.push(t[0]) =~= tok + seq![t[0]]);
        lemma_scan_token(t.drop_first(), r, tok + seq![t[0]], m);
        assert((tok + seq![t[0]]) + t.drop_first() =~= tok + t);
    }
}

/// The heart of the round trip: parsing the wire form of the suffix from
/// table entry `i` on adds exactly the suffix's share of the mask.
proof fn lemma_round_trip_from(m: u32, i: int, acc: u32)
    requires
        0 <= i <= 22,
        m & rest_mask(i) != 0,
    ensures
        wire_scan(to_wire_from(m, i), Seq::empty(), acc) == Some(acc | (m & rest_mask(i))),
    decreases 22 - i,
{
    if i == 22 {
        lemma_and_zero(m);
        assert(false);
    } else {
        let p = flag_table()[i];
        let b = flag_mask(p);
        lemma_rest_step(m, b, rest_mask(i), rest_mask(i + 1));
        if m & b == 0 {
            lemma_round_trip_from(m, i + 1, acc);
        } else {
            lemma_name_props(p);
            lemma_flag_mask_props(p);
            let name = name_bytes(p);
            if m & rest_mask(i + 1) == 0 {
                lemma_scan_token(name, Seq::empty(), Seq::empty(), acc);
                assert(name + Seq::<u8>::empty() =~= name);
                assert(Seq::<u8>::empty() + name =~= name);
                assert(wire_scan(Seq::empty(), name, acc) == Some(acc | b));
                lemma_set_split(m, b, rest_mask(i + 1));
            } else {
                let rest = seq![0x2cu8] + to_wire_from(m, i + 1);
                lemma_scan_token(name, rest, Seq::empty(), acc);
                assert(name + rest =~= to_wire_from(m, i));
                assert(Seq::<u8>::empty() + name =~= name);
                assert(rest[0] == 0x2c);
                assert(rest.drop_first() =~= to_wire_from(m, i + 1));
                assert(wire_scan(rest, name, acc) == wire_scan(
                    to_wire_from(m, i + 1),
                    Seq::empty(),
                    acc | b,
                ));
                lemma_round_trip_from(m, i + 1, acc | b);
                lemma_set_split(m, b, rest_mask(i + 1));
                lemma_or_assoc(acc, b, m & rest_mask(i + 1));
            }
        }
    }
}

/// The whole table's suffix union is the all-known-flags constant.
proof fn lemma_rest_mask_all()
    ensures
        rest_mask(0) == ALL_FLAGS_MASK,
{
    reveal_with_fuel(rest_mask, 23);
    assert((0x80000000u32 | 0u32) == 0x80000000u32 && (0x10000u32 | 0x80000000u32) == 0x80010000u32
        && (0x8000000u32 | 0x80010000u32) == 0x88010000u32 && (0x8000u32 | 0x88010000u32)
        == 0x88018000u32 && (0x100000u32 | 0x88018000u32) == 0x88118000u32 && (0x80000u32
        | 0x88118000u32) == 0x88198000u32 && (0x400000u32 | 0x88198000u32) == 0x88598000u32 && (
    0x1000u32 | 0x88598000u32) == 0x88599000u32 && (0x40000u32 | 0x88599000u32) == 0x885d9000u32
        && (0x2000u32 | 0x885d9000u32) == 0x885db000u32 && (0x40u32 | 0x885db000u32)
        == 0x885db040u32 && (0x20u32 | 0x885db040u32) == 0x885db060u32 && (0x400u32
        | 0x885db060u32) == 0x885db460u32 && (0x100u32 | 0x885db460u32) == 0x885db560u32 && (
    0x80u32 | 0x885db560u32) == 0x885db5e0u32 && (0x800u32 | 0x885db5e0u32) == 0x885dbde0u32 && (
    0x20000u32 | 0x885dbde0u32) == 0x885fbde0u32 && (0x10u32 | 0x885fbde0u32) == 0x885fbdf0u32
        && (0x8u32 | 0x885fbdf0u32) == 0x885fbdf8u32 && (0x4u32 | 0x885fbdf8u32) == 0x885fbdfcu32
        && (0x2u32 | 0x885fbdfcu32) == 0x885fbdfeu32 && (0x1u32 | 0x885fbdfeu32) == 0x885fbdffu32)
        by (bit_vector);
    assert(rest_mask(21) == 0x80000000u32);
    assert(rest_mask(20) == 0x80010000u32);
    assert(rest_mask(19) == 0x88010000u32);
    assert(rest_mask(18) == 0x88018000u32);
    assert(rest_mask(17) == 0x88118000u32);
    assert(rest_mask(16) == 0x88198000u32);
    assert(rest_mask(15) == 0x88598000u32);
    assert(rest_mask(14) == 0x88599000u32);
    assert(rest_mask(13) == 0x885d9000u32);
    assert(rest_mask(12) == 0x885db000u32);
    assert(rest_mask(11) == 0x885db040u32);
    assert(rest_mask(10) == 0x885db060u32);
    assert(rest_mask(9) == 0x885db460u32);
    assert(rest_mask(8) == 0x885db560u32);
    assert(rest_mask(7) == 0x885db5e0u32);
    assert(rest_mask(6) == 0x885dbde0u32);
    assert(rest_mask(5) == 0x885fbde0u32);
    assert(rest_mask(4) == 0x885fbdf0u32);
    assert(rest_mask(3) == 0x885fbdf8u32);
    assert(rest_mask(2) == 0x885fbdfcu32);
    assert(rest_mask(1) == 0x885fbdfeu32);
    assert(rest_mask(0) == 0x885fbdffu32);
}

/// Law: every non-empty set of known flags survives the wire round trip —
/// writing its comma-joined wire form and parsing that back yields
/// exactly the same mask.  (The empty set does not: its wire form is the
/// empty string, which parses as one empty token and is rejected.)
pub proof fn lemma_wire_round_trip(m: u32)
    requires
        m & ALL_FLAGS_MASK == m,
        m != 0,
    ensures
        from_wire_bytes(to_wire_bytes(m)) == Some(m),
{
    lemma_rest_mask_all();
    lemma_round_trip_from(m, 0, 0);
    lemma_zero_or(m & rest_mask(0));
}

/// Law: the round trip holds of the strings the executable pair
/// produces and consumes — parsing the written wire string recovers the
/// mask exactly, for every non-empty set of known flags.
pub proof fn lemma_wire_round_trip_strings(m: u32, wire: Seq<char>)
    requires
        m & ALL_FLAGS_MASK == m,
        m != 0,
        wire == ascii_chars_of(to_wire_bytes(m)),
    ensures
        from_wire_bytes(encode_utf8(wire)) == Some(m),
{
    lemma_wire_bytes_ascii(m, 0);
    crate::query::lemma_encode_ascii_chars(to_wire_bytes(m));
    lemma_wire_round_trip(m);
}

/// Law: the empty set's wire form is the empty string.
pub proof fn lemma_empty_wire()
    ensures
        to_wire_bytes(0) == Seq::<u8>::empty(),
{
    lemma_to_wire_zero(0);
}

/// No flag is set in the zero mask, so nothing is written.
proof fn lemma_to_wire_zero(i: int)
    ensures
        to_wire_from(0, i) == Seq::<u8>::empty(),
    decreases 22 - i,
{
    if 0 <= i < 22 {
        lemma_and_zero(0);
        assert(0u32 & flag_mask(flag_table()[i]) == 0) by (bit_vector);
        lemma_to_wire_zero(i + 1);
    }
}


// ---------------------------------------------------------------------------
// Access tokens and the authorization-code flow.
// ---------------------------------------------------------------------------

/// The authorization endpoint and the first query key.
pub open spec fn seg_auth_base() -> Seq<u8> {
    seq!['h' as u8, 't' as u8, 't' as u8, 'p' as u8, 's' as u8, ':' as u8, '/' as u8, '/' as u8, 'o' as u8, 'a' as u8, 'u' as u8, 't' as u8, 'h' as u8, '.' as u8, 'v' as u8, 'k' as u8, '.' as u8, 'c' as u8, 'o' as u8, 'm' as u8, '/' as u8, 'a' as u8, 'u' as u8, 't' as u8, 'h' as u8, 'o' as u8, 'r' as u8, 'i' as u8, 'z' as u8, 'e' as u8, '?' as u8, 'c' as u8, 'l' as u8, 'i' as u8, 'e' as u8, 'n' as u8, 't' as u8, '_' as u8, 'i' as u8, 'd' as u8, '=' as u8]
}

/// Appends the bytes of `seg_auth_base`.
fn push_seg_auth_base(out: &mut Vec<u8>)
    ensures
        final(out)@ == old(out)@ + seg_auth_base(),
{
    out.push('h' as u8);
    out.push('t' as u8);
    out.push('t' as u8);
    out.push('p' as u8);
    out.push('s' as u8);
    out.push(':' as u8);
    out.push('/' as u8);
    out.push('/' as u8);
    out.push('o' as u8);
    out.push('a' as u8);
    out.push('u' as u8);
    out.push('t' as u8);
    out.push('h' as u8);
    out.push('.' as u8);
    out.push('v' as u8);
    out.push('k' as u8);
    out.push('.' as u8);
    out.push('c' as u8);
    out.push('o' as u8);
    out.push('m' as u8);
    out.push('/' as u8);
    out.push('a' as u8);
    out.push('u' as u8);
    out.push('t' as u8);
    out.push('h' as u8);
    out.push('o' as u8);
    out.push('r' as u8);
    out.push('i' as u8);
    out.push('z' as u8);
    out.push('e' as u8);
    out.push('?' as u8);
    out.push('c' as u8);
    out.push('l' as u8);
    out.push('i' as u8);
    out.push('e' as u8);
    out.push('n' as u8);
    out.push('t' as u8);
    out.push('_' as u8);
    out.push('i' as u8);
    out.push('d' as u8);
    out.push('=' as u8);
    proof {
        assert(out@ =~= old(out)@ + seg_auth_base());
    }
}

/// The redirect-uri query key.
pub open spec fn seg_redirect() -> Seq<u8> {
    seq!['&' as u8, 'r' as u8, 'e' as u8, 'd' as u8, 'i' as u8, 'r' as u8, 'e' as u8, 'c' as u8, 't' as u8, '_' as u8, 'u' as u8, 'r' as u8, 'i' as u8, '=' as u8]
}

/// Appends the bytes of `seg_redirect`.
fn push_seg_redirect(out: &mut Vec<u8>)
    ensures
        final(out)@ == old(out)@ + seg_redirect(),
{
    out.push('&' as u8);
    out.push('r' as u8);
    out.push('e' as u8);
    out.push('d' as u8);
    out.push('i' as u8);
    out.push('r' as u8);
    out.push('e' as u8);
    out.push('c' as u8);
    out.push('t' as u8);
    out.push('_' as u8);
    out.push('u' as u8);
    out.push('r' as u8);
    out.push('i' as u8);
    out.push('=' as u8);
    proof {
        assert(out@ =~= old(out)@ + seg_redirect());
    }
}

/// The display choice and the scope query key.
pub open spec fn seg_display_scope() -> Seq<u8> {
    seq!['&' as u8, 'd' as u8, 'i' as u8, 's' as u8, 'p' as u8, 'l' as u8, 'a' as u8, 'y' as u8, '=' as u8, 'p' as u8, 'a' as u8, 'g' as u8, 'e' as u8, '&' as u8, 's' as u8, 'c' as u8, 'o' as u8, 'p' as u8, 'e' as u8, '=' as u8]
}

/// Appends the bytes of `seg_display_scope`.
fn push_seg_display_scope(out: &mut Vec<u8>)
    ensures
        final(out)@ == old(out)@ + seg_display_scope(),
{
    out.push('&' as u8);
    out.push('d' as u8);
    out.push('i' as u8);
    out.push('s' as u8);
    out.push('p' as u8);
    out.push('l' as u8);
    out.push('a' as u8);
    out.push('y' as u8);
    out.push('=' as u8);
    out.push('p' as u8);
    out.push('a' as u8);
    out.push('g' as u8);
    out.push('e' as u8);
    out.push('&' as u8);
    out.push('s' as u8);
    out.push('c' as u8);
    out.push('o' as u8);
    out.push('p' as u8);
    out.push('e' as u8);
    out.push('=' as u8);
    proof {
        assert(out@ =~= old(out)@ + seg_display_scope());
    }
}

/// The fixed tail: response type and API version.
pub open spec fn seg_auth_tail() -> Seq<u8> {
    seq!['&' as u8, 'r' as u8, 'e' as u8, 's' as u8, 'p' as u8, 'o' as u8, 'n' as u8, 's' as u8, 'e' as u8, '_' as u8, 't' as u8, 'y' as u8, 'p' as u8, 'e' as u8, '=' as u8, 'c' as u8, 'o' as u8, 'd' as u8, 'e' as u8, '&' as u8, 'v' as u8, '=' as u8, '5' as u8, '.' as u8, '4' as u8, '4' as u8]
}

/// Appends the bytes of `seg_auth_tail`.
fn push_seg_auth_tail(out: &mut Vec<u8>)
    ensures
        final(out)@ == old(out)@ + seg_auth_tail(),
{
    out.push('&' as u8);
    out.push('r' as u8);
    out.push('e' as u8);
    out.push('s' as u8);
    out.push('p' as u8);
    out.push('o' as u8);
    out.push('n' as u8);
    out.push('s' as u8);
    out.push('e' as u8);
    out.push('_' as u8);
    out.push('t' as u8);
    out.push('y' as u8);
    out.push('p' as u8);
    out.push('e' as u8);
    out.push('=' as u8);
    out.push('c' as u8);
    out.push('o' as u8);
    out.push('d' as u8);
    out.push('e' as u8);
    out.push('&' as u8);
    out.push('v' as u8);
    out.push('=' as u8);
    out.push('5' as u8);
    out.push('.' as u8);
    out.push('4' as u8);
    out.push('4' as u8);
    proof {
        assert(out@ =~= old(out)@ + seg_auth_tail());
    }
}

/// The token-exchange body's first key.
pub open spec fn seg_tok_client() -> Seq<u8> {
    seq!['c' as u8, 'l' as u8, 'i' as u8, 'e' as u8, 'n' as u8, 't' as u8, '_' as u8, 'i' as u8, 'd' as u8, '=' as u8]
}

/// Appends the bytes of `seg_tok_client`.
fn push_seg_tok_client(out: &mut Vec<u8>)
    ensures
        final(out)@ == old(out)@ + seg_tok_client(),
{
    out.push('c' as u8);
    out.push('l' as u8);
    out.push('i' as u8);
    out.push('e' as u8);
    out.push('n' as u8);
    out.push('t' as u8);
    out.push('_' as u8);
    out.push('i' as u8);
    out.push('d' as u8);
    out.push('=' as u8);
    proof {
        assert(out@ =~= old(out)@ + seg_tok_client());
    }
}

/// The client-secret body key.
pub open spec fn seg_tok_secret() -> Seq<u8> {
    seq!['&' as u8, 'c' as u8, 'l' as u8, 'i' as u8, 'e' as u8, 'n' as u8, 't' as u8, '_' as u8, 's' as u8, 'e' as u8, 'c' as u8, 'r' as u8, 'e' as u8, 't' as u8, '=' as u8]
}

/// Appends the bytes of `seg_tok_secret`.
fn push_seg_tok_secret(out: &mut Vec<u8>)
    ensures
        final(out)@ == old(out)@ + seg_tok_secret(),
{
    out.push('&' as u8);
    out.push('c' as u8);
    out.push('l' as u8);
    out.push('i' as u8);
    out.push('e' as u8);
    out.push('n' as u8);
    out.push('t' as u8);
    out.push('_' as u8);
    out.push('s' as u8);
    out.push('e' as u8);
    out.push('c' as u8);
    out.push('r' as u8);
    out.push('e' as u8);
    out.push('t' as u8);
    out.push('=' as u8);
    proof {
        assert(out@ =~= old(out)@ + seg_tok_secret());
    }
}

/// The one-time-code body key.
pub open spec fn seg_tok_code() -> Seq<u8> {
    seq!['&' as u8, 'c' as u8, 'o' as u8, 'd' as u8, 'e' as u8, '=' as u8]
}

/// Appends the bytes of `seg_tok_code`.
fn push_seg_tok_code(out: &mut Vec<u8>)
    ensures
        final(out)@ == old(out)@ + seg_tok_code(),
{
    out.push('&' as u8);
    out.push('c' as u8);
    out.push('o' as u8);
    out.push('d' as u8);
    out.push('e' as u8);
    out.push('=' as u8);
    proof {
        assert(out@ =~= old(out)@ + seg_tok_code());
    }
}

/// The authorization URL: the interactive endpoint with `client_id`,
/// `redirect_uri`, `display`, `scope`, `response_type` and version in its
/// query, each value percent-encoded.
pub open spec fn auth_uri_bytes(cid: Seq<char>, redirect: Seq<char>, m: u32) -> Seq<u8> {
    seg_auth_base() + pct(encode_utf8(cid)) + seg_redirect() + pct(encode_utf8(redirect))
        + seg_display_scope() + pct(to_wire_bytes(m)) + seg_auth_tail()
}

/// The token-exchange request body: `client_id`, `client_secret`,
/// `redirect_uri` and the one-time `code`, each value percent-encoded.
pub open spec fn token_body_bytes(
    cid: Seq<char>,
    secret: Seq<char>,
    redirect: Seq<char>,
    code: Seq<char>,
) -> Seq<u8> {
    seg_tok_client() + pct(encode_utf8(cid)) + seg_tok_secret() + pct(encode_utf8(secret))
        + seg_redirect() + pct(encode_utf8(redirect)) + seg_tok_code() + pct(encode_utf8(code))
}

/// The redirect URI used when none is given.
pub const OAUTH_DEFAULT_REDIRECT_URI: &'static str = "https://oauth.vk.com/blank.html";

/// The token-exchange endpoint.
pub const OAUTH_TOKEN_URL: &'static str = "https://oauth.vk.com/access_token";

/// An access credential: the opaque token string, the owning user's id,
/// the account email when the server reported one, and the expiry instant
/// in Unix seconds — `None` when the token never expires (the `offline`
/// scope's convention).
#[derive(Debug, PartialEq, Eq, Clone)]
pub struct AccessToken {
    access_token: String,
    pub user_id: u64,
    pub email: Option<String>,
    expires: Option<i64>,
}

impl AccessToken {
    /// The token string.
    pub closed spec fn token_spec(self) -> Seq<char> {
        self.access_token@
    }

    /// The expiry instant, `None` for a never-expiring token.
    pub closed spec fn expires_spec(self) -> Option<i64> {
        self.expires
    }

    /// The owning user's id.
    pub closed spec fn user_id_spec(self) -> u64 {
        self.user_id
    }

    /// The account email, when the server reported one.
    pub closed spec fn email_spec(self) -> Option<Seq<char>> {
        match self.email {
            Some(s) => Some(s@),
            None => None,
        }
    }

    /// Assembles a token from its parts.
    pub fn new(
        access_token: String,
        user_id: u64,
        email: Option<String>,
        expires: Option<i64>,
    ) -> (r: AccessToken)
        ensures
            r.token_spec() == access_token@,
            r.user_id_spec() == user_id,
            match email {
                Some(e) => r.email_spec() == Some(e@),
                None => r.email_spec() is None,
            },
            r.expires_spec() == expires,
    {
        AccessToken { access_token, user_id, email, expires }
    }

    /// The token string, as attached to authorized calls.
    pub fn access_token(&self) -> (r: &str)
        ensures
            r@ == self.token_spec(),
    {
        self.access_token.as_str()
    }

    /// The expiry instant.
    pub fn expires_at(&self) -> (r: Option<i64>)
        ensures
            r == self.expires_spec(),
    {
        self.expires
    }

    /// Whether the token is expired at the given instant: never for a
    /// token without an expiry, else exactly when the instant has reached
    /// the expiry.
    pub fn expired_at(&self, now: i64) -> (r: bool)
        ensures
            r == match self.expires_spec() {
                None => false,
                Some(e) => e <= now,
            },
    {
        match self.expires {
            None => false,
            Some(e) => e <= now,
        }
    }

    /// Whether the token is expired at the present moment, by the local
    /// clock.  A token without an expiry never reports expired.
    pub fn expired(&self) -> (r: bool)
        ensures
            self.expires_spec() is None ==> r == false,
    {
        self.expired_at(now_unix_seconds())
    }
}

/// Reads the current Unix time in seconds.
///
/// Relies on chrono's `From<SystemTime>` conversion for `DateTime<Utc>`
/// and on `DateTime::timestamp`: the conversion handles a system clock
/// set before the Unix epoch without panicking (it yields negative
/// seconds, where `Utc::now` would abort).  The result depends on the
/// wall clock, so nothing is promised of it.
#[verifier::external_body]
fn now_unix_seconds() -> i64 {
    chrono::DateTime::<chrono::Utc>::from(std::time::SystemTime::now()).timestamp()
}

/// Failure of the interactive grant or the code exchange: the endpoint
/// could not be reached, its body did not decode, or it answered with a
/// structured `{error, error_description}` rejection.  None of these is
/// retried automatically; each needs a fresh human authorization.
#[derive(Debug, PartialEq, Eq, Clone)]
pub enum OAuthError {
    Transport(String),
    Decode(crate::json::DecodeError),
    Rejected { error: String, description: String },
}

/// The authorization-code flow's configuration: client credentials and
/// the redirect URI.  It builds the interactive authorization URL and
/// the token-exchange request, and decodes the token endpoint's answer;
/// the HTTP round trip itself is the transport collaborator's job.
#[derive(Debug, PartialEq, Eq, Clone)]
pub struct OAuth {
    key: String,
    secret: String,
    redirect_uri: String,
}

/// The expiry instant derived from `expires_in`: non-positive means a
/// never-expiring token; a sum past the representable range saturates.
pub open spec fn expiry_of(now: i64, e: int) -> Option<i64> {
    if e <= 0 {
        None
    } else if now + e > 0x7fff_ffff_ffff_ffff {
        Some(0x7fff_ffff_ffff_ffffi64)
    } else {
        Some((now + e) as i64)
    }
}

/// The wire's optional email: a string value, anything else (including a
/// missing key) is no email.
pub open spec fn email_of(j: Json) -> Option<Seq<char>> {
    match json_lookup(j, "email"@) {
        Some(Json::Str(s)) => Some(s@),
        _ => None,
    }
}

/// Whether the success shape holds: `access_token` a string, `user_id` a
/// non-negative integer, `expires_in` an integer that fits `i64`.
pub open spec fn token_decodable(j: Json) -> bool {
    &&& match json_lookup(j, "access_token"@) {
        Some(Json::Str(_)) => true,
        _ => false,
    }
    &&& match json_lookup(j, "user_id"@) {
        Some(Json::UInt(_)) => true,
        _ => false,
    }
    &&& match json_lookup(j, "expires_in"@) {
        Some(Json::UInt(u)) => u <= 0x7fff_ffff_ffff_ffff,
        Some(Json::Int(_)) => true,
        _ => false,
    }
}

/// The token a success body decodes to, given the moment of the call.
pub open spec fn token_decodes_to(j: Json, now: i64, t: AccessToken) -> bool {
    &&& match json_lookup(j, "access_token"@) {
        Some(Json::Str(s)) => t.token_spec() == s@,
        _ => false,
    }
    &&& match json_lookup(j, "user_id"@) {
        Some(Json::UInt(u)) => t.user_id_spec() == u,
        _ => false,
    }
    &&& match json_lookup(j, "expires_in"@) {
        Some(Json::UInt(u)) => t.expires_spec() == expiry_of(now, u as int),
        Some(Json::Int(i)) => t.expires_spec() == expiry_of(now, i as int),
        _ => false,
    }
    &&& match email_of(j) {
        Some(s) => t.email_spec() == Some(s),
        None => t.email_spec() is None,
    }
}

/// Whether the body is a structured rejection: an `error` key is present.
pub open spec fn token_rejected(j: Json) -> bool {
    json_lookup(j, "error"@) is Some
}

impl OAuth {
    /// The client id.
    pub closed spec fn key_spec(self) -> Seq<char> {
        self.key@
    }

    /// The client secret.
    pub closed spec fn secret_spec(self) -> Seq<char> {
        self.secret@
    }

    /// The redirect URI.
    pub closed spec fn redirect_spec(self) -> Seq<char> {
        self.redirect_uri@
    }

    /// Sets up the flow with the client's credentials and the default
    /// redirect URI.
    pub fn new(key: String, secret: String) -> (r: OAuth)
        ensures
            r.key_spec() == key@,
            r.secret_spec() == secret@,
            r.redirect_spec() == OAUTH_DEFAULT_REDIRECT_URI@,
    {
        OAuth { key, secret, redirect_uri: OAUTH_DEFAULT_REDIRECT_URI.to_owned() }
    }

    /// Builds the interactive authorization URL for the given scopes.
    /// The caller must drive the out-of-band step: a human visits the
    /// URL, authorizes, and comes back with a one-time code.
    pub fn auth_uri(&self, scope: Permissions) -> (r: String)
        ensures
            r@ == ascii_chars_of(
                auth_uri_bytes(self.key_spec(), self.redirect_spec(), scope.mask_spec()),
            ),
    {
        let mut out: Vec<u8> = Vec::new();
        push_seg_auth_base(&mut out);
        push_pct(self.key.as_str().as_bytes(), &mut out);
        push_seg_redirect(&mut out);
        push_pct(self.redirect_uri.as_str().as_bytes(), &mut out);
        push_seg_display_scope(&mut out);
        let wire = scope.to_wire_vec();
        push_pct(wire.as_slice(), &mut out);
        push_seg_auth_tail(&mut out);
        proof {
            lemma_auth_segs_ascii();
            lemma_pct_ascii(encode_utf8(self.key_spec()));
            lemma_pct_ascii(encode_utf8(self.redirect_spec()));
            lemma_pct_ascii(to_wire_bytes(scope.mask_spec()));
            assert(out@ =~= auth_uri_bytes(
                self.key_spec(),
                self.redirect_spec(),
                scope.mask_spec(),
            ));
            lemma_ascii_append(seg_auth_base(), pct(encode_utf8(self.key_spec())));
            lemma_ascii_append((seg_auth_base() + pct(encode_utf8(self.key_spec()))), seg_redirect());
            lemma_ascii_append(((seg_auth_base() + pct(encode_utf8(self.key_spec()))) + seg_redirect()), pct(encode_utf8(self.redirect_spec())));
            lemma_ascii_append((((seg_auth_base() + pct(encode_utf8(self.key_spec()))) + seg_redirect()) + pct(encode_utf8(self.redirect_spec()))), seg_display_scope());
            lemma_ascii_append(((((seg_auth_base() + pct(encode_utf8(self.key_spec()))) + seg_redirect()) + pct(encode_utf8(self.redirect_spec()))) + seg_display_scope()), pct(to_wire_bytes(scope.mask_spec())));
            lemma_ascii_append((((((seg_auth_base() + pct(encode_utf8(self.key_spec()))) + seg_redirect()) + pct(encode_utf8(self.redirect_spec()))) + seg_display_scope()) + pct(to_wire_bytes(scope.mask_spec()))), seg_auth_tail());
        }
        string_from_ascii(out)
    }

    /// Builds the authorization URL for the scopes a request needs.
    pub fn auth_uri_for(&self, req: &crate::api::Request) -> (r: String)
        ensures
            r@ == ascii_chars_of(
                auth_uri_bytes(
                    self.key_spec(),
                    self.redirect_spec(),
                    req.permissions.mask_spec(),
                ),
            ),
    {
        self.auth_uri(req.permissions)
    }

    /// Builds the token-exchange request body for a one-time code.  The
    /// transport collaborator posts it to the token endpoint and hands
    /// the answer to `parse_token_response`.
    pub fn token_request_body(&self, code: &str) -> (r: String)
        ensures
            r@ == ascii_chars_of(
                token_body_bytes(self.key_spec(), self.secret_spec(), self.redirect_spec(), code@),
            ),
    {
        let mut out: Vec<u8> = Vec::new();
        push_seg_tok_client(&mut out);
        push_pct(self.key.as_str().as_bytes(), &mut out);
        push_seg_tok_secret(&mut out);
        push_pct(self.secret.as_str().as_bytes(), &mut out);
        push_seg_redirect(&mut out);
        push_pct(self.redirect_uri.as_str().as_bytes(), &mut out);
        push_seg_tok_code(&mut out);
        push_pct(code.as_bytes(), &mut out);
        proof {
            lemma_auth_segs_ascii();
            lemma_pct_ascii(encode_utf8(self.key_spec()));
            lemma_pct_ascii(encode_utf8(self.secret_spec()));
            lemma_pct_ascii(encode_utf8(self.redirect_spec()));
            lemma_pct_ascii(encode_utf8(code@));
            assert(out@ =~= token_body_bytes(
                self.key_spec(),
                self.secret_spec(),
                self.redirect_spec(),
                code@,
            ));
            lemma_ascii_append(seg_tok_client(), pct(encode_utf8(self.key_spec())));
            lemma_ascii_append((seg_tok_client() + pct(encode_utf8(self.key_spec()))), seg_tok_secret());
            lemma_ascii_append(((seg_tok_client() + pct(encode_utf8(self.key_spec()))) + seg_tok_secret()), pct(encode_utf8(self.secret_spec())));
            lemma_ascii_append((((seg_tok_client() + pct(encode_utf8(self.key_spec()))) + seg_tok_secret()) + pct(encode_utf8(self.secret_spec()))), seg_redirect());
            lemma_ascii_append(((((seg_tok_client() + pct(encode_utf8(self.key_spec()))) + seg_tok_secret()) + pct(encode_utf8(self.secret_spec()))) + seg_redirect()), pct(encode_utf8(self.redirect_spec())));
            lemma_ascii_append((((((seg_tok_client() + pct(encode_utf8(self.key_spec()))) + seg_tok_secret()) + pct(encode_utf8(self.secret_spec()))) + seg_redirect()) + pct(encode_utf8(self.redirect_spec()))), seg_tok_code());
            lemma_ascii_append(((((((seg_tok_client() + pct(encode_utf8(self.key_spec()))) + seg_tok_secret()) + pct(encode_utf8(self.secret_spec()))) + seg_redirect()) + pct(encode_utf8(self.redirect_spec()))) + seg_tok_code()), pct(encode_utf8(code@)));
        }
        string_from_ascii(out)
    }

    /// Decodes the token endpoint's answer, taken at instant `now`: the
    /// success shape yields the access token with its expiry derived from
    /// `expires_in`; a structured `{error, error_description}` body is a
    /// rejection; anything else is a decode failure.  Transport failures
    /// never originate here.
    pub fn parse_token_response(j: &Json, now: i64) -> (r: Result<AccessToken, OAuthError>)
        ensures
            match r {
                Ok(t) => !token_rejected(*j) && token_decodable(*j) && token_decodes_to(
                    *j,
                    now,
                    t,
                ),
                Err(OAuthError::Rejected { error, description }) => {
                    &&& token_rejected(*j)
                    &&& match json_lookup(*j, "error"@) {
                        Some(Json::Str(s)) => error@ == s@,
                        _ => false,
                    }
                    &&& match json_lookup(*j, "error_description"@) {
                        Some(Json::Str(s)) => description@ == s@,
                        _ => description@.len() == 0,
                    }
                },
                Err(OAuthError::Decode(_)) => {
                    ||| token_rejected(*j) && !(match json_lookup(*j, "error"@) {
                        Some(Json::Str(_)) => true,
                        _ => false,
                    })
                    ||| !token_rejected(*j) && !token_decodable(*j)
                },
                Err(OAuthError::Transport(_)) => false,
            },
    {
        match j.lookup("error") {
            Some(err_val) => {
                match err_val {
                    Json::Str(s) => {
                        let description: String = match j.lookup("error_description") {
                            Some(Json::Str(d)) => d.clone(),
                            _ => String::new(),
                        };
                        Err(OAuthError::Rejected { error: s.clone(), description })
                    },
                    _ => Err(OAuthError::Decode(crate::json::DecodeError::TypeMismatch)),
                }
            },
            None => {
                let token: String = match j.lookup("access_token") {
                    Some(Json::Str(s)) => s.clone(),
                    _ => {
                        return Err(OAuthError::Decode(crate::json::DecodeError::TypeMismatch));
                    },
                };
                let user_id: u64 = match j.lookup("user_id") {
                    Some(Json::UInt(u)) => *u,
                    _ => {
                        return Err(OAuthError::Decode(crate::json::DecodeError::TypeMismatch));
                    },
                };
                let expires_in: i64 = match j.lookup("expires_in") {
                    Some(Json::UInt(u)) => {
                        if *u <= 0x7fff_ffff_ffff_ffff {
                            *u as i64
                        } else {
                            return Err(OAuthError::Decode(crate::json::DecodeError::TypeMismatch));
                        }
                    },
                    Some(Json::Int(i)) => *i,
                    _ => {
                        return Err(OAuthError::Decode(crate::json::DecodeError::TypeMismatch));
                    },
                };
                let email: Option<String> = match j.lookup("email") {
                    Some(Json::Str(s)) => Some(s.clone()),
                    _ => None,
                };
                let expires: Option<i64> = if expires_in <= 0 {
                    None
                } else if now > 0x7fff_ffff_ffff_ffff - expires_in {
                    Some(0x7fff_ffff_ffff_ffff)
                } else {
                    Some(now + expires_in)
                };
                Ok(AccessToken { access_token: token, user_id, email, expires })
            },
        }
    }
}

/// The fixed URL and body segments are ASCII.
proof fn lemma_auth_segs_ascii()
    ensures
        ascii_bytes(seg_auth_base()),
        ascii_bytes(seg_redirect()),
        ascii_bytes(seg_display_scope()),
        ascii_bytes(seg_auth_tail()),
        ascii_bytes(seg_tok_client()),
        ascii_bytes(seg_tok_secret()),
        ascii_bytes(seg_tok_code()),
{
}

/// Where the flow stands, judged by the token at hand and the local
/// clock.  Renewal is interactive only: an expired token leads back to a
/// fresh authorization, never to a silent refresh.
#[derive(Debug, PartialEq, Eq, Clone)]
pub enum AuthStage {
    /// No token held.
    Unauthenticated,
    /// The authorization URL has been produced; a human must visit it
    /// and come back with a one-time code.
    AwaitingUserCode,
    /// A live token is held.
    Authenticated(AccessToken),
    /// The held token's expiry has passed.
    Expired(AccessToken),
}

impl AuthStage {
    /// Judges the current stage from the held token and the clock.
    pub fn assess(token: Option<AccessToken>, now: i64) -> (r: AuthStage)
        ensures
            match token {
                None => r == AuthStage::Unauthenticated,
                Some(t) => {
                    if (match t.expires_spec() {
                        None => false,
                        Some(e) => e <= now,
                    }) {
                        r == AuthStage::Expired(t)
                    } else {
                        r == AuthStage::Authenticated(t)
                    }
                },
            },
    {
        match token {
            None => AuthStage::Unauthenticated,
            Some(t) => {
                if t.expired_at(now) {
                    AuthStage::Expired(t)
                } else {
                    AuthStage::Authenticated(t)
                }
            },
        }
    }

    /// Starts (or restarts) the interactive step: without a live token
    /// the flow moves to awaiting the user's code; a live token stays.
    pub fn begin_authorization(self) -> (r: AuthStage)
        ensures
            match self {
                AuthStage::Unauthenticated => r == AuthStage::AwaitingUserCode,
                AuthStage::Expired(_) => r == AuthStage::AwaitingUserCode,
                _ => r == self,
            },
    {
        match self {
            AuthStage::Unauthenticated => AuthStage::AwaitingUserCode,
            AuthStage::Expired(_) => AuthStage::AwaitingUserCode,
            other => other,
        }
    }

    /// Applies the outcome of the code exchange: success while awaiting
    /// the code authenticates; failure leaves the stage as it was.
    pub fn complete_exchange(self, outcome: Result<AccessToken, OAuthError>) -> (r: AuthStage)
        ensures
            match self {
                AuthStage::AwaitingUserCode => match outcome {
                    Ok(t) => r == AuthStage::Authenticated(t),
                    Err(_) => r == AuthStage::AwaitingUserCode,
                },
                _ => r == self,
            },
    {
        match self {
            AuthStage::AwaitingUserCode => match outcome {
                Ok(t) => AuthStage::Authenticated(t),
                Err(_) => AuthStage::AwaitingUserCode,
            },
            other => other,
        }
    }
}


/// The provider description of this API's authorization service: where
/// its two endpoints live, and that client credentials travel in the
/// request body.
#[derive(Debug, PartialEq, Eq, Copy, Clone, Structural)]
pub struct Auth;

impl Auth {
    /// The interactive authorization endpoint.
    pub fn auth_uri() -> (r: &'static str)
        ensures
            r@ == "https://oauth.vk.com/authorize"@,
    {
        "https://oauth.vk.com/authorize"
    }

    /// The token-exchange endpoint.
    pub fn token_uri() -> (r: &'static str)
        ensures
            r@ == OAUTH_TOKEN_URL@,
    {
        OAUTH_TOKEN_URL
    }

    /// Client credentials go in the request body, not the URL.
    pub fn credentials_in_body() -> (r: bool)
        ensures
            r == true,
    {
        true
    }
}

} // verus!
