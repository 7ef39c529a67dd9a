//! The fixed table of supported US time zones and the effective-offset rule.
//!
//! Each zone carries a constant base offset from UTC in whole hours and a
//! short display suffix. The effective offset applied to conversions is the
//! base offset, raised by exactly one hour when daylight saving is requested.

use vstd::prelude::*;

verus! {

/// One of the four supported named US time zones.
#[derive(Clone, Copy, PartialEq, Eq, Structural, Debug)]
pub enum TimeZone {
    Eastern,
    Central,
    Mountain,
    Pacific,
}

impl TimeZone {
    /// Base offset from UTC in whole hours, before any daylight-saving
    /// adjustment.
    pub open spec fn base_offset_spec(self) -> int {
        match self {
            TimeZone::Eastern => -5,
            TimeZone::Central => -6,
            TimeZone::Mountain => -7,
            TimeZone::Pacific => -8,
        }
    }

    /// The zone's display suffix, as appended to converted time strings.
    pub open spec fn suffix_spec(self) -> Seq<char> {
        match self {
            TimeZone::Eastern => seq!['E', 'T'],
            TimeZone::Central => seq!['C', 'T'],
            TimeZone::Mountain => seq!['M', 'T'],
            TimeZone::Pacific => seq!['P', 'T'],
        }
    }

    /// The zone's full display name.
    pub open spec fn name_spec(self) -> Seq<char> {
        match self {
            TimeZone::Eastern => seq!['E', 'a', 's', 't', 'e', 'r', 'n'],
            TimeZone::Central => seq!['C', 'e', 'n', 't', 'r', 'a', 'l'],
            TimeZone::Mountain => seq!['M', 'o', 'u', 'n', 't', 'a', 'i', 'n'],
            TimeZone::Pacific => seq!['P', 'a', 'c', 'i', 'f', 'i', 'c'],
        }
    }

    pub fn to_suffix(self) -> (s: &'static str)
        ensures
            s@ == self.suffix_spec(),
    {
        proof {
            reveal_strlit("ET");
            reveal_strlit("CT");
            reveal_strlit("MT");
            reveal_strlit("PT");
        }
        let s = match self {
            TimeZone::Eastern => "ET",
            TimeZone::Central => "CT",
            TimeZone::Mountain => "MT",
            TimeZone::Pacific => "PT",
        };
        assert(s@ =~= self.suffix_spec());
        s
    }

    /// The zone's full display name, for labels and zone pickers.
    pub fn name(self) -> (s: &'static str)
        ensures
            s@ == self.name_spec(),
    {
        proof {
            reveal_strlit("Eastern");
            reveal_strlit("Central");
            reveal_strlit("Mountain");
            reveal_strlit("Pacific");
        }
        let s = match self {
            TimeZone::Eastern => "Eastern",
            TimeZone::Central => "Central",
            TimeZone::Mountain => "Mountain",
            TimeZone::Pacific => "Pacific",
        };
        assert(s@ =~= self.name_spec());
        s
    }

    pub fn base_offset(self) -> (h: i32)
        ensures
            h as int == self.base_offset_spec(),
    {
        match self {
            TimeZone::Eastern => -5,
            TimeZone::Central => -6,
            TimeZone::Mountain => -7,
            TimeZone::Pacific => -8,
        }
    }
}

impl Default for TimeZone {
    /// Eastern is the zone preselected for a fresh session.
    fn default() -> (z: Self)
        ensures
            z == TimeZone::Eastern,
    {
        TimeZone::Eastern
    }
}

/// The signed hour offset actually applied to a conversion: the zone's base
/// offset, plus one hour when daylight saving is requested.
pub open spec fn resolve_spec(zone: TimeZone, daylight_saving: bool) -> int {
    zone.base_offset_spec() + if daylight_saving {
        1int
    } else {
        0int
    }
}

/// Combine a zone and a daylight-saving flag into the effective hour offset.
pub fn resolve(zone: TimeZone, daylight_saving: bool) -> (h: i32)
    ensures
        h as int == resolve_spec(zone, daylight_saving),
{
    let base = zone.base_offset();
    if daylight_saving {
        base + 1
    } else {
        base
    }
}

/// With daylight saving off the effective offset is exactly the zone's base
/// offset; with it on, exactly one hour more. Holds for every zone.
pub proof fn lemma_resolve_offsets(zone: TimeZone)
    ensures
        resolve_spec(zone, false) == zone.base_offset_spec(),
        resolve_spec(zone, true) == zone.base_offset_spec() + 1,
{
}

} // verus!
