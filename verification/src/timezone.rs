//! Resolving vendor-style zone aliases to canonical zone identifiers.

use crate::model::ParamsText;
use crate::text::same_text;
use chrono_tz::Tz;
use vstd::prelude::*;

verus! {

/// The zones that the alias table knows.
#[derive(Clone, Copy, Debug, PartialEq, Eq, Structural)]
pub enum Zone {
    Guatemala,
    Berlin,
    Chicago,
    NewYork,
    London,
    Gmt,
    Denver,
    LosAngeles,
    Paris,
    Bogota,
    Phoenix,
    Utc,
}

/// The alias table: the zone that an alias stands for, if the table has it.
/// Aliases match exactly, letter case included.
pub open spec fn alias_zone(alias: Seq<char>) -> Option<Zone> {
    if alias == "Central America Standard Time"@ {
        Some(Zone::Guatemala)
    } else if alias == "Central Europe Standard Time"@ {
        Some(Zone::Berlin)
    } else if alias == "Central Standard Time"@ {
        Some(Zone::Chicago)
    } else if alias == "Eastern Standard Time"@ {
        Some(Zone::NewYork)
    } else if alias == "GMT Standard Time"@ {
        Some(Zone::London)
    } else if alias == "Greenwich Standard Time"@ {
        Some(Zone::Gmt)
    } else if alias == "Mountain Standard Time"@ {
        Some(Zone::Denver)
    } else if alias == "Pacific Standard Time"@ {
        Some(Zone::LosAngeles)
    } else if alias == "Romance Standard Time"@ {
        Some(Zone::Paris)
    } else if alias == "SA Pacific Standard Time"@ {
        Some(Zone::Bogota)
    } else if alias == "US Mountain Standard Time"@ {
        Some(Zone::Phoenix)
    } else if alias == "UTC"@ {
        Some(Zone::Utc)
    } else if alias == "W. Europe Standard Time"@ {
        Some(Zone::Berlin)
    } else {
        None
    }
}

/// Looks an alias up in the alias table.
pub fn map_timezone_name(tz_name: &str) -> (zone: Option<Zone>)
    ensures
        zone == alias_zone(tz_name@),
{
    if same_text(tz_name, "Central America Standard Time") {
        Some(Zone::Guatemala)
    } else if same_text(tz_name, "Central Europe Standard Time") {
        Some(Zone::Berlin)
    } else if same_text(tz_name, "Central Standard Time") {
        Some(Zone::Chicago)
    } else if same_text(tz_name, "Eastern Standard Time") {
        Some(Zone::NewYork)
    } else if same_text(tz_name, "GMT Standard Time") {
        Some(Zone::London)
    } else if same_text(tz_name, "Greenwich Standard Time") {
        Some(Zone::Gmt)
    } else if same_text(tz_name, "Mountain Standard Time") {
        Some(Zone::Denver)
    } else if same_text(tz_name, "Pacific Standard Time") {
        Some(Zone::LosAngeles)
    } else if same_text(tz_name, "Romance Standard Time") {
        Some(Zone::Paris)
    } else if same_text(tz_name, "SA Pacific Standard Time") {
        Some(Zone::Bogota)
    } else if same_text(tz_name, "US Mountain Standard Time") {
        Some(Zone::Phoenix)
    } else if same_text(tz_name, "UTC") {
        Some(Zone::Utc)
    } else if same_text(tz_name, "W. Europe Standard Time") {
        Some(Zone::Berlin)
    } else {
        None
    }
}

/// The canonical identifier of a zone.
pub open spec fn zone_identifier(zone: Zone) -> Seq<char> {
    match zone {
        Zone::Guatemala => "America/Guatemala"@,
        Zone::Berlin => "Europe/Berlin"@,
        Zone::Chicago => "America/Chicago"@,
        Zone::NewYork => "America/New_York"@,
        Zone::London => "Europe/London"@,
        Zone::Gmt => "Etc/GMT"@,
        Zone::Denver => "America/Denver"@,
        Zone::LosAngeles => "America/Los_Angeles"@,
        Zone::Paris => "Europe/Paris"@,
        Zone::Bogota => "America/Bogota"@,
        Zone::Phoenix => "America/Phoenix"@,
        Zone::Utc => "UTC"@,
    }
}

/// Calls `chrono_tz::Tz::name` on the zone's counterpart in the time zone
/// database. Trusted: that the name which the database gives for each of these
/// zones is the identifier listed in [`zone_identifier`].
#[verifier::external_body]
fn canonical_name(zone: Zone) -> (name: String)
    ensures
        name@ == zone_identifier(zone),
{
    let tz = match zone {
        Zone::Guatemala => Tz::America__Guatemala,
        Zone::Berlin => Tz::Europe__Berlin,
        Zone::Chicago => Tz::America__Chicago,
        Zone::NewYork => Tz::America__New_York,
        Zone::London => Tz::Europe__London,
        Zone::Gmt => Tz::Etc__GMT,
        Zone::Denver => Tz::America__Denver,
        Zone::LosAngeles => Tz::America__Los_Angeles,
        Zone::Paris => Tz::Europe__Paris,
        Zone::Bogota => Tz::America__Bogota,
        Zone::Phoenix => Tz::America__Phoenix,
        Zone::Utc => Tz::UTC,
    };
    tz.name().to_string()
}

/// The canonical identifier that an alias resolves to; `None` where the table
/// does not have the alias.
pub open spec fn resolve_alias(alias: Seq<char>) -> Option<Seq<char>> {
    match alias_zone(alias) {
        Some(zone) => Some(zone_identifier(zone)),
        None => None,
    }
}

/// Resolves an alias to its canonical zone identifier.
pub fn resolve_timezone(alias: &str) -> (identifier: Option<String>)
    ensures
        identifier.deep_view() == resolve_alias(alias@),
{
    match map_timezone_name(alias) {
        Some(zone) => Some(canonical_name(zone)),
        None => None,
    }
}

/// The alias that a parameter list names: the first value of the first `TZID`
/// parameter that has a value.
pub open spec fn tzid_alias(params: ParamsText) -> Option<Seq<char>>
    decreases params.len(),
{
    if params.len() == 0 {
        None
    } else if params[0].0 == "TZID"@ && params[0].1.len() > 0 {
        Some(params[0].1[0])
    } else {
        tzid_alias(params.drop_first())
    }
}

/// Finds the alias that a parameter list names.
pub fn find_tzid(params: &Vec<(String, Vec<String>)>) -> (alias: Option<String>)
    ensures
        alias.deep_view() == tzid_alias(params.deep_view()),
{
    let mut i: usize = 0;
    assert(params.deep_view().skip(0) =~= params.deep_view());
    while i < params.len()
        invariant
            i <= params.len(),
            tzid_alias(params.deep_view()) == tzid_alias(params.deep_view().skip(i as int)),
        decreases params.len() - i,
    {
        assert(params.deep_view().skip(i as int).drop_first() == params.deep_view().skip(i + 1));
        let entry = &params[i];
        if same_text(entry.0.as_str(), "TZID") && entry.1.len() > 0 {
            return Some(entry.1[0].clone());
        }
        i += 1;
    }
    None
}

/// The zone identifier for a property's parameters: absent where there are no
/// parameters, where none names an alias, and where the alias is not known.
pub open spec fn resolved_zone(params: Option<ParamsText>) -> Option<Seq<char>> {
    match params {
        Some(list) => match tzid_alias(list) {
            Some(alias) => resolve_alias(alias),
            None => None,
        },
        None => None,
    }
}

/// Resolves the zone identifier for a property's parameters.
pub fn resolve_params(params: &Option<Vec<(String, Vec<String>)>>) -> (identifier: Option<String>)
    ensures
        identifier.deep_view() == resolved_zone(params.deep_view()),
{
    match params {
        Some(list) => match find_tzid(list) {
            Some(alias) => resolve_timezone(alias.as_str()),
            None => None,
        },
        None => None,
    }
}

} // verus!
