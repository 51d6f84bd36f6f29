//! Kinds and availability of seats, as the store spells them, and the
//! grouping of seats by kind for the start page.

use crate::text::bytes_eq;
use crate::text::str_eq;
use vstd::prelude::*;
use vstd::utf8::*;

verus! {

/// The kind of a seat.
#[derive(Clone, Copy, Debug, PartialEq, Eq, Structural)]
pub enum SeatType {
    Desk,
    Chair,
    ComputerChair,
    Pouf,
}

/// Whether a seat can be booked.
#[derive(Clone, Copy, Debug, PartialEq, Eq, Structural)]
pub enum AvailabilityStatus {
    Unavailable,
    Taken,
    Free,
}

/// The seats of each kind, as indices into the list that was grouped, in
/// the order of that list.
#[derive(Debug, PartialEq, Eq)]
pub struct SeatGroups {
    pub chairs: Vec<usize>,
    pub computer_chairs: Vec<usize>,
    pub desks: Vec<usize>,
    pub poufs: Vec<usize>,
}

/// The kind that a stored value spells; an unknown value is a chair.
pub open spec fn seat_type_of(value: Seq<u8>) -> SeatType {
    if value == encode_utf8("desk"@) {
        SeatType::Desk
    } else if value == encode_utf8("computer_chair"@) {
        SeatType::ComputerChair
    } else if value == encode_utf8("pouf"@) {
        SeatType::Pouf
    } else {
        SeatType::Chair
    }
}

/// The availability that a stored value spells, the old misspelling `talen`
/// included; an unknown value is unavailable.
pub open spec fn availability_of(value: Seq<u8>) -> AvailabilityStatus {
    if value == encode_utf8("free"@) {
        AvailabilityStatus::Free
    } else if value == encode_utf8("taken"@) || value == encode_utf8("talen"@) {
        AvailabilityStatus::Taken
    } else {
        AvailabilityStatus::Unavailable
    }
}

/// The kind under which a seat is listed: its own, or chair without one.
pub open spec fn listed_as(kind: Option<SeatType>) -> SeatType {
    match kind {
        Some(kind) => kind,
        None => SeatType::Chair,
    }
}

/// The indices of the seats that are listed as `wanted`, in rising order.
pub open spec fn indices_of(kinds: Seq<Option<SeatType>>, wanted: SeatType) -> Seq<usize>
    decreases kinds.len(),
{
    if kinds.len() == 0 {
        Seq::empty()
    } else if listed_as(kinds.last()) == wanted {
        indices_of(kinds.drop_last(), wanted).push((kinds.len() - 1) as usize)
    } else {
        indices_of(kinds.drop_last(), wanted)
    }
}

impl SeatType {
    /// How the store spells this kind.
    pub open spec fn spec_name(self) -> Seq<char> {
        match self {
            SeatType::Desk => "desk"@,
            SeatType::Chair => "chair"@,
            SeatType::ComputerChair => "computer_chair"@,
            SeatType::Pouf => "pouf"@,
        }
    }

    /// Reads a kind from the bytes of a stored value.
    pub fn from_sql(value: &[u8]) -> (kind: SeatType)
        ensures
            kind == seat_type_of(value@),
    {
        if bytes_eq(value, "desk".as_bytes()) {
            SeatType::Desk
        } else if bytes_eq(value, "computer_chair".as_bytes()) {
            SeatType::ComputerChair
        } else if bytes_eq(value, "pouf".as_bytes()) {
            SeatType::Pouf
        } else {
            SeatType::Chair
        }
    }

    /// Whether a column of the store's type `column_type` holds kinds of seats.
    pub fn accepts(column_type: &str) -> (ok: bool)
        ensures
            ok == (column_type@ == "seat_type"@),
    {
        str_eq(column_type, "seat_type")
    }

    /// How the store spells this kind.
    pub fn name(&self) -> (text: &'static str)
        ensures
            text@ == self.spec_name(),
    {
        match self {
            SeatType::Desk => "desk",
            SeatType::Chair => "chair",
            SeatType::ComputerChair => "computer_chair",
            SeatType::Pouf => "pouf",
        }
    }
}

impl AvailabilityStatus {
    /// How the store spells this availability.
    pub open spec fn spec_name(self) -> Seq<char> {
        match self {
            AvailabilityStatus::Unavailable => "unavailable"@,
            AvailabilityStatus::Taken => "taken"@,
            AvailabilityStatus::Free => "free"@,
        }
    }

    /// Reads an availability from the bytes of a stored value.
    pub fn from_sql(value: &[u8]) -> (status: AvailabilityStatus)
        ensures
            status == availability_of(value@),
    {
        if bytes_eq(value, "free".as_bytes()) {
            AvailabilityStatus::Free
        } else if bytes_eq(value, "taken".as_bytes()) || bytes_eq(value, "talen".as_bytes()) {
            AvailabilityStatus::Taken
        } else {
            AvailabilityStatus::Unavailable
        }
    }

    /// Whether a column of the store's type `column_type` holds availabilities.
    pub fn accepts(column_type: &str) -> (ok: bool)
        ensures
            ok == (column_type@ == "availability_status"@),
    {
        str_eq(column_type, "availability_status")
    }

    /// How the store spells this availability.
    pub fn name(&self) -> (text: &'static str)
        ensures
            text@ == self.spec_name(),
    {
        match self {
            AvailabilityStatus::Unavailable => "unavailable",
            AvailabilityStatus::Taken => "taken",
            AvailabilityStatus::Free => "free",
        }
    }
}

/// Groups seats by kind for the start page. A seat without a kind is listed
/// with the chairs; every seat is in exactly one group.
pub fn group_by_type(kinds: &Vec<Option<SeatType>>) -> (groups: SeatGroups)
    ensures
        groups.chairs@ == indices_of(kinds@, SeatType::Chair),
        groups.computer_chairs@ == indices_of(kinds@, SeatType::ComputerChair),
        groups.desks@ == indices_of(kinds@, SeatType::Desk),
        groups.poufs@ == indices_of(kinds@, SeatType::Pouf),
        groups.chairs@.len() + groups.computer_chairs@.len() + groups.desks@.len()
            + groups.poufs@.len() == kinds@.len(),
{
    let mut chairs: Vec<usize> = Vec::new();
    let mut computer_chairs: Vec<usize> = Vec::new();
    let mut desks: Vec<usize> = Vec::new();
    let mut poufs: Vec<usize> = Vec::new();
    let mut i: usize = 0;
    while i < kinds.len()
        invariant
            i <= kinds@.len(),
            chairs@ == indices_of(kinds@.subrange(0, i as int), SeatType::Chair),
            computer_chairs@ == indices_of(kinds@.subrange(0, i as int), SeatType::ComputerChair),
            desks@ == indices_of(kinds@.subrange(0, i as int), SeatType::Desk),
            poufs@ == indices_of(kinds@.subrange(0, i as int), SeatType::Pouf),
            chairs@.len() + computer_chairs@.len() + desks@.len() + poufs@.len() == i,
        decreases kinds@.len() - i,
    {
        proof {
            let next = kinds@.subrange(0, i + 1);
            assert(next.drop_last() =~= kinds@.subrange(0, i as int));
            assert(next.last() == kinds@[i as int]);
        }
        let kind = match kinds[i] {
            Some(kind) => kind,
            None => SeatType::Chair,
        };
        match kind {
            SeatType::Desk => desks.push(i),
            SeatType::Chair => chairs.push(i),
            SeatType::ComputerChair => computer_chairs.push(i),
            SeatType::Pouf => poufs.push(i),
        }
        i += 1;
    }
    assert(kinds@.subrange(0, i as int) =~= kinds@);
    SeatGroups { chairs, computer_chairs, desks, poufs }
}

} // verus!
