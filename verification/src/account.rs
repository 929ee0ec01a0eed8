//! Account-setting parameter tables.

use vstd::prelude::*;

verus! {

/// How a birth date is shown on a profile, as the wire numbers it.
#[derive(Debug, Clone, Copy, Eq, PartialEq, Structural)]
pub enum BirthdateVisibility {
    Hide,
    ShowYMD,
    ShowMD,
}

/// The visibility a wire number denotes, if any.
pub open spec fn birthdate_visibility_of(v: u64) -> Option<BirthdateVisibility> {
    if v == 0 {
        Some(BirthdateVisibility::Hide)
    } else if v == 1 {
        Some(BirthdateVisibility::ShowYMD)
    } else if v == 2 {
        Some(BirthdateVisibility::ShowMD)
    } else {
        None
    }
}

/// The wire word of a visibility choice (this table is numeric strings).
pub open spec fn birthdate_visibility_wire(b: BirthdateVisibility) -> Seq<char> {
    match b {
        BirthdateVisibility::Hide => "0"@,
        BirthdateVisibility::ShowYMD => "1"@,
        BirthdateVisibility::ShowMD => "2"@,
    }
}

impl BirthdateVisibility {
    /// The fixed wire word.
    pub fn as_str(&self) -> (r: &'static str)
        ensures
            r@ == birthdate_visibility_wire(*self),
    {
        match *self {
            BirthdateVisibility::Hide => "0",
            BirthdateVisibility::ShowYMD => "1",
            BirthdateVisibility::ShowMD => "2",
        }
    }

    /// Maps a wire number to the visibility; numbers outside the table
    /// map to nothing.
    pub fn from_id(v: u64) -> (r: Option<BirthdateVisibility>)
        ensures
            r == birthdate_visibility_of(v),
    {
        match v {
            0 => Some(BirthdateVisibility::Hide),
            1 => Some(BirthdateVisibility::ShowYMD),
            2 => Some(BirthdateVisibility::ShowMD),
            _ => None,
        }
    }
}

} // verus!
