//! Names for fixed offsets from UTC: a small table of common abbreviations,
//! and a scan of the time-zone catalog for a zone that is at the asked
//! offset at this moment.

use vstd::prelude::*;
use vstd::string::*;

verus! {

/// The abbreviation of a common fixed offset, given in seconds east of
/// Greenwich.
pub open spec fn common_abbreviation(seconds: int) -> Option<Seq<char>> {
    if seconds == 0 {
        Some("UTC"@)
    } else if seconds == -18000 {
        Some("EST"@)
    } else if seconds == -21600 {
        Some("CST"@)
    } else if seconds == -25200 {
        Some("MST"@)
    } else if seconds == -28800 {
        Some("PST"@)
    } else if seconds == -32400 {
        Some("AKST"@)
    } else if seconds == -36000 {
        Some("HST"@)
    } else {
        None
    }
}

/// The abbreviation of a common fixed offset, if `seconds` is one.
pub fn find_common_tz_from_seconds(seconds: i32) -> (r: Option<&'static str>)
    ensures
        r.is_some() == common_abbreviation(seconds as int).is_some(),
        r.is_some() ==> r.unwrap()@ == common_abbreviation(seconds as int).unwrap(),
{
    if seconds == 0 {
        Some("UTC")
    } else if seconds == -18000 {
        Some("EST")
    } else if seconds == -21600 {
        Some("CST")
    } else if seconds == -25200 {
        Some("MST")
    } else if seconds == -28800 {
        Some("PST")
    } else if seconds == -32400 {
        Some("AKST")
    } else if seconds == -36000 {
        Some("HST")
    } else {
        None
    }
}

/// The number of zones in the catalog of time zones, `chrono_tz::TZ_VARIANTS`,
/// as the crate ships it.
pub const CATALOG_ZONES: usize = 597;

/// The length of `chrono_tz::TZ_VARIANTS`, the catalog of time zones, which
/// the crate declares as an array of 597 zones.
#[verifier::external_body]
pub(crate) fn catalog_len() -> (r: usize)
    ensures
        r == CATALOG_ZONES,
{
    chrono_tz::TZ_VARIANTS.len()
}

/// The offset from UTC, in seconds east, that the zone at `index` of
/// `chrono_tz::TZ_VARIANTS` has at this moment: the zone's
/// `offset_from_utc_datetime` at `chrono::Utc::now`, through `fix` and
/// `local_minus_utc`. There is one for every index within the catalog and
/// none past its end. The clock decides the offset itself, so nothing is
/// claimed of it.
#[verifier::external_body]
pub(crate) fn catalog_zone_offset(index: usize) -> (r: Option<i32>)
    ensures
        r.is_some() == (index < CATALOG_ZONES),
{
    let zone = chrono_tz::TZ_VARIANTS.get(index)?;
    let now_utc = chrono::Utc::now().naive_utc();
    let offset = chrono::TimeZone::offset_from_utc_datetime(zone, &now_utc);
    Some(chrono::Offset::fix(&offset).local_minus_utc())
}

/// The name (`Tz::name`) of the zone at `index` of
/// `chrono_tz::TZ_VARIANTS`; `None` past the end of the catalog.
#[verifier::external_body]
pub(crate) fn catalog_zone_name(index: usize) -> (r: Option<String>) {
    let zone = chrono_tz::TZ_VARIANTS.get(index)?;
    Some(zone.name().to_string())
}

/// The offsets that the zones of the catalog have at this moment, in the
/// catalog's order: one for each zone.
pub fn current_catalog_offsets() -> (r: Vec<Option<i32>>)
    ensures
        r@.len() == CATALOG_ZONES,
        forall|i: int| 0 <= i < r@.len() ==> (#[trigger] r@[i]).is_some(),
{
    let len: usize = catalog_len();
    let mut offsets: Vec<Option<i32>> = Vec::new();
    let mut i: usize = 0;
    while i < len
        invariant
            i <= len,
            len == CATALOG_ZONES,
            offsets@.len() == i,
            forall|j: int| 0 <= j < i ==> (#[trigger] offsets@[j]).is_some(),
        decreases len - i,
    {
        offsets.push(catalog_zone_offset(i));
        i = i + 1;
    }
    offsets
}

/// The index of the first zone in `offsets` that is at `seconds`, if there
/// is one.
pub fn first_zone_with_offset(offsets: &Vec<Option<i32>>, seconds: i32) -> (r: Option<usize>)
    ensures
        match r {
            Some(i) => i < offsets@.len() && offsets@[i as int] == Some(seconds) && forall|j: int|
                0 <= j < i ==> offsets@[j] != Some(seconds),
            None => forall|j: int| 0 <= j < offsets@.len() ==> offsets@[j] != Some(seconds),
        },
{
    let mut i: usize = 0;
    while i < offsets.len()
        invariant
            i <= offsets@.len(),
            forall|j: int| 0 <= j < i ==> offsets@[j] != Some(seconds),
        decreases offsets@.len() - i,
    {
        match offsets[i] {
            Some(offset) => {
                if offset == seconds {
                    return Some(i);
                }
            },
            None => {},
        }
        i = i + 1;
    }
    None
}

/// A name for the offset `seconds` east of Greenwich: the common
/// abbreviation where the table has one, else the name of the first zone of
/// the catalog that is at that offset at this moment, else nothing.
pub fn resolve_abbreviation(seconds: i32) -> (r: Option<String>)
    ensures
        common_abbreviation(seconds as int).is_some() ==> r.is_some() && r.unwrap()@
            == common_abbreviation(seconds as int).unwrap(),
{
    match find_common_tz_from_seconds(seconds) {
        Some(name) => Some(String::from_str(name)),
        None => {
            let offsets = current_catalog_offsets();
            match first_zone_with_offset(&offsets, seconds) {
                Some(index) => catalog_zone_name(index),
                None => None,
            }
        },
    }
}

} // verus!
