use vstd::prelude::*;

use crate::location::{LocationRecord, LocationView};

verus! {

/// The country codes from which connections are accepted.
///
/// The list is configuration: it is built once and only read while requests are decided.
pub struct AllowList {
    countries: Vec<String>,
}

impl View for AllowList {
    type V = Seq<Seq<char>>;

    closed spec fn view(&self) -> Seq<Seq<char>> {
        self.countries@.map_values(|c: String| c@)
    }
}

/// The countries of the standard configuration: Israel, the United States and Japan.
pub open spec fn standard_countries() -> Seq<Seq<char>> {
    seq!["IL"@, "US"@, "JP"@]
}

impl AllowList {
    /// An allow-list of the given ISO 3166-1 alpha-2 codes.
    pub fn new(countries: Vec<String>) -> (r: AllowList)
        ensures
            r@ == countries@.map_values(|c: String| c@),
    {
        AllowList { countries }
    }

    /// The standard configuration: `IL`, `US` and `JP`.
    pub fn standard() -> (r: AllowList)
        ensures
            r@ == standard_countries(),
    {
        let mut countries: Vec<String> = Vec::new();
        countries.push(String::from_str("IL"));
        countries.push(String::from_str("US"));
        countries.push(String::from_str("JP"));
        let r = AllowList { countries };
        assert(r@ =~= standard_countries());
        r
    }

    /// Whether `country` is on the list; codes match exactly, case included.
    pub fn permits(&self, country: &String) -> (r: bool)
        ensures
            r == self@.contains(country@),
    {
        let mut i: usize = 0;
        while i < self.countries.len()
            invariant
                i <= self.countries@.len(),
                forall|j: int| 0 <= j < i ==> self@[j] != country@,
            decreases self.countries@.len() - i,
        {
            if self.countries[i] == *country {
                assert(self@[i as int] == country@);
                return true;
            }
            i += 1;
        }
        false
    }
}

/// The outcome of weighing one location against the allow-list.
pub struct PolicyDecision {
    pub allow: bool,
    pub reason: String,
}

/// The reason given when no location is known.
pub open spec fn unknown_reason() -> Seq<char> {
    "Unknown"@
}

/// The reason given when the location is on the allow-list.
pub open spec fn allowed_reason() -> Seq<char> {
    "OK"@
}

/// The reason given when the location is not on the allow-list; it names city and country.
pub open spec fn out_of_region_reason(city: Seq<char>, country: Seq<char>) -> Seq<char> {
    "Connection from "@ + city + ", "@ + country + " is not allowed."@
}

/// Whether a connection from `record` is allowed under `list`: only a known location whose
/// country is on the list is.
pub open spec fn allows(list: Seq<Seq<char>>, record: Option<LocationView>) -> bool {
    match record {
        Some(loc) => list.contains(loc.country),
        None => false,
    }
}

/// The reason that goes with the decision on `record` under `list`.
pub open spec fn reason_for(list: Seq<Seq<char>>, record: Option<LocationView>) -> Seq<char> {
    match record {
        Some(loc) => if list.contains(loc.country) {
            allowed_reason()
        } else {
            out_of_region_reason(loc.city, loc.country)
        },
        None => unknown_reason(),
    }
}

/// The model of an optional record.
pub open spec fn record_view(record: Option<&LocationRecord>) -> Option<LocationView> {
    match record {
        Some(loc) => Some(loc@),
        None => None,
    }
}

/// Decides on a location, or on its absence, which is always denied.
pub fn evaluate(list: &AllowList, record: Option<&LocationRecord>) -> (d: PolicyDecision)
    ensures
        d.allow == allows(list@, record_view(record)),
        d.reason@ == reason_for(list@, record_view(record)),
{
    match record {
        None => PolicyDecision { allow: false, reason: String::from_str("Unknown") },
        Some(loc) => {
            if list.permits(&loc.country) {
                PolicyDecision { allow: true, reason: String::from_str("OK") }
            } else {
                let mut reason = String::from_str("Connection from ");
                reason.append(loc.city.as_str());
                reason.append(", ");
                reason.append(loc.country.as_str());
                reason.append(" is not allowed.");
                PolicyDecision { allow: false, reason }
            }
        },
    }
}

} // verus!
