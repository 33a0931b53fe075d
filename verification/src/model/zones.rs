//! Time-zone lookups through `chrono` and `chrono_tz`. Wall-clock components
//! are mapped to UTC instants by the crates; the contracts name the mappings
//! that are functions of their arguments (fixed offsets and IANA zones) and
//! state only what holds of every outcome for the machine's own zone.

use vstd::prelude::*;

use crate::time::UtcTime;

verus! {

#[verifier::external_type_specification]
#[verifier::external_body]
pub struct ExTz(chrono_tz::Tz);

/// How a wall-clock time maps to instants in a zone (`chrono::LocalResult`).
#[derive(Debug, Clone, Copy, PartialEq, Eq, Structural)]
pub enum LocalTimeMapping {
    /// Exactly one instant.
    Single(UtcTime),
    /// Two instants (a fold, e.g. when clocks go back).
    Ambiguous(UtcTime, UtcTime),
    /// No instant: a gap (e.g. when clocks go forward) or an invalid date.
    Missing,
}

/// Every instant in the mapping is representable.
pub open spec fn mapping_valid(m: LocalTimeMapping) -> bool {
    match m {
        LocalTimeMapping::Single(t) => t.valid(),
        LocalTimeMapping::Ambiguous(a, b) => a.valid() && b.valid(),
        LocalTimeMapping::Missing => true,
    }
}

/// `chrono_tz::Tz::from_str(name).is_ok()`: `name` is a zone of the IANA database.
pub uninterp spec fn spec_zone_exists(name: Seq<char>) -> bool;

/// What `Tz::with_ymd_and_hms` gives, in UTC, for the IANA zone `zone`.
pub uninterp spec fn spec_zone_local_to_utc(
    zone: Seq<char>,
    year: i32,
    month: u32,
    day: u32,
    hour: u32,
    minute: u32,
    second: u32,
) -> LocalTimeMapping;

/// What `FixedOffset::with_ymd_and_hms` gives, in UTC, for an offset of
/// `offset` seconds east of UTC.
pub uninterp spec fn spec_fixed_local_to_utc(
    offset: i32,
    year: i32,
    month: u32,
    day: u32,
    hour: u32,
    minute: u32,
    second: u32,
) -> LocalTimeMapping;

/// A zone of the IANA database, by name.
#[derive(Debug, PartialEq, Eq)]
pub struct ZoneName {
    name: String,
    zone: chrono_tz::Tz,
}

impl View for ZoneName {
    type V = Seq<char>;

    closed spec fn view(&self) -> Seq<char> {
        self.name@
    }
}

impl Clone for ZoneName {
    fn clone(&self) -> (r: Self)
        ensures
            r@ == self@,
    {
        ZoneName { name: self.name.clone(), zone: self.zone }
    }
}

impl ZoneName {
    /// The zone's name.
    pub fn name(&self) -> (r: &str)
        ensures
            r@ == self@,
    {
        self.name.as_str()
    }
}

/// `chrono_tz::Tz::from_str`: the zone called `name`, if the database has one.
#[verifier::external_body]
pub(crate) fn parse_zone(name: &str) -> (r: Option<ZoneName>)
    ensures
        r.is_some() == spec_zone_exists(name@),
        r matches Some(z) ==> z@ == name@,
{
    name.parse::<chrono_tz::Tz>().ok().map(|zone| ZoneName { name: name.to_string(), zone })
}

/// `chrono_tz::UTC`, the zone named "UTC".
#[verifier::external_body]
pub(crate) fn utc_zone() -> (r: ZoneName)
    ensures
        r@ == "UTC"@,
{
    ZoneName { name: "UTC".to_string(), zone: chrono_tz::UTC }
}

/// `Tz::with_ymd_and_hms` followed by the conversion to UTC.
#[verifier::external_body]
pub(crate) fn zone_local_to_utc(
    zone: &ZoneName,
    year: i32,
    month: u32,
    day: u32,
    hour: u32,
    minute: u32,
    second: u32,
) -> (r: LocalTimeMapping)
    ensures
        r == spec_zone_local_to_utc(zone@, year, month, day, hour, minute, second),
        mapping_valid(r),
{
    let local = chrono::TimeZone::with_ymd_and_hms(&zone.zone, year, month, day, hour, minute, second);
    match local.map(|t| UtcTime::from_parts(t.timestamp(), t.timestamp_subsec_nanos())) {
        chrono::LocalResult::Single(t) => LocalTimeMapping::Single(t),
        chrono::LocalResult::Ambiguous(a, b) => LocalTimeMapping::Ambiguous(a, b),
        chrono::LocalResult::None => LocalTimeMapping::Missing,
    }
}

/// `FixedOffset::east_opt(offset)` then `with_ymd_and_hms`, converted to UTC.
/// A fixed offset never folds, so the result is never ambiguous.
#[verifier::external_body]
pub(crate) fn fixed_local_to_utc(
    offset: i32,
    year: i32,
    month: u32,
    day: u32,
    hour: u32,
    minute: u32,
    second: u32,
) -> (r: LocalTimeMapping)
    requires
        -86_400 < offset < 86_400,
    ensures
        r == spec_fixed_local_to_utc(offset, year, month, day, hour, minute, second),
        !(r is Ambiguous),
        mapping_valid(r),
{
    let fixed = chrono::FixedOffset::east_opt(offset).unwrap();
    let local = chrono::TimeZone::with_ymd_and_hms(&fixed, year, month, day, hour, minute, second);
    match local.map(|t| UtcTime::from_parts(t.timestamp(), t.timestamp_subsec_nanos())) {
        chrono::LocalResult::Single(t) => LocalTimeMapping::Single(t),
        chrono::LocalResult::Ambiguous(a, b) => LocalTimeMapping::Ambiguous(a, b),
        chrono::LocalResult::None => LocalTimeMapping::Missing,
    }
}

/// `Local::with_ymd_and_hms` converted to UTC: the machine's own time zone.
/// The zone is a setting of the machine, so the mapping is not named; only
/// that its instants are representable is stated (the order of the two
/// instants of a fold is not).
#[verifier::external_body]
pub(crate) fn local_to_utc(
    year: i32,
    month: u32,
    day: u32,
    hour: u32,
    minute: u32,
    second: u32,
) -> (r: LocalTimeMapping)
    ensures
        mapping_valid(r),
{
    let local = chrono::TimeZone::with_ymd_and_hms(&chrono::Local, year, month, day, hour, minute, second);
    match local.map(|t| UtcTime::from_parts(t.timestamp(), t.timestamp_subsec_nanos())) {
        chrono::LocalResult::Single(t) => LocalTimeMapping::Single(t),
        chrono::LocalResult::Ambiguous(a, b) => LocalTimeMapping::Ambiguous(a, b),
        chrono::LocalResult::None => LocalTimeMapping::Missing,
    }
}

} // verus!
