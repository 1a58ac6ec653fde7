use vstd::prelude::*;

verus! {

/// The first offset that no longer fits beside the location tag (2^61).
pub const OFFSET_LIMIT: u64 = 0x2000_0000_0000_0000;

/// The memory space that a packed address points into.
#[derive(Clone, Copy, Debug, PartialEq, Eq, Structural)]
pub enum AddressLocation {
    Program,
    Register,
    Stack,
    Heap,
    External,
}

impl AddressLocation {
    /// The 3-bit tag stored in the top bits of a packed address.
    pub open spec fn tag(self) -> u64 {
        match self {
            AddressLocation::Program => 0,
            AddressLocation::Register => 1,
            AddressLocation::Stack => 2,
            AddressLocation::Heap => 3,
            AddressLocation::External => 4,
        }
    }

    pub open spec fn of_tag(t: u64) -> Option<AddressLocation> {
        match t {
            0 => Some(AddressLocation::Program),
            1 => Some(AddressLocation::Register),
            2 => Some(AddressLocation::Stack),
            3 => Some(AddressLocation::Heap),
            4 => Some(AddressLocation::External),
            _ => None,
        }
    }

    pub fn tag_value(self) -> (r: u64)
        ensures
            r == self.tag(),
    {
        match self {
            AddressLocation::Program => 0,
            AddressLocation::Register => 1,
            AddressLocation::Stack => 2,
            AddressLocation::Heap => 3,
            AddressLocation::External => 4,
        }
    }

    pub fn from_tag(t: u64) -> (r: Option<AddressLocation>)
        ensures
            r == AddressLocation::of_tag(t),
    {
        match t {
            0 => Some(AddressLocation::Program),
            1 => Some(AddressLocation::Register),
            2 => Some(AddressLocation::Stack),
            3 => Some(AddressLocation::Heap),
            4 => Some(AddressLocation::External),
            _ => None,
        }
    }
}

/// A location tag in the top three bits above a 61-bit offset.
pub open spec fn packed(loc: AddressLocation, offset: u64) -> int {
    loc.tag() * OFFSET_LIMIT + offset
}

/// The location and offset held in a packed address; `None` where the top
/// three bits name no location.
pub open spec fn unpacked(v: u64) -> Option<(AddressLocation, u64)> {
    match AddressLocation::of_tag(v / OFFSET_LIMIT) {
        Some(loc) => Some((loc, (v % OFFSET_LIMIT) as u64)),
        None => None,
    }
}

pub fn pack_address(loc: AddressLocation, offset: u64) -> (r: u64)
    requires
        offset < OFFSET_LIMIT,
    ensures
        r == packed(loc, offset),
{
    loc.tag_value() * OFFSET_LIMIT + offset
}

pub fn unpack_address(v: u64) -> (r: Option<(AddressLocation, u64)>)
    ensures
        r == unpacked(v),
{
    match AddressLocation::from_tag(v / OFFSET_LIMIT) {
        Some(loc) => Some((loc, v % OFFSET_LIMIT)),
        None => None,
    }
}

/// Packing a location with an offset below 2^61 and unpacking the result
/// gives back that location and offset.
pub proof fn lemma_address_round_trip(loc: AddressLocation, offset: u64)
    requires
        offset < OFFSET_LIMIT,
    ensures
        packed(loc, offset) <= u64::MAX,
        unpacked(packed(loc, offset) as u64) == Some((loc, offset)),
{
    let t = loc.tag();
    let v = packed(loc, offset);
    assert(v / (OFFSET_LIMIT as int) == t && v % (OFFSET_LIMIT as int) == offset) by (nonlinear_arith)
        requires
            v == t * OFFSET_LIMIT + offset,
            0 <= offset < OFFSET_LIMIT,
            0 <= t,
    ;
}

} // verus!
