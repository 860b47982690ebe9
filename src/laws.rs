use vstd::prelude::*;

use crate::location::{LocationView, LookupError};
use crate::pipeline::decision;
use crate::policy::{standard_countries, AllowList};
use crate::request::{source_ip, ClientVpnConnectionHandlerRequest};
use crate::response::{posture_status, protocol_version};

verus! {

/// Whether `t` occurs in `s` as a contiguous run.
pub open spec fn occurs_in(t: Seq<char>, s: Seq<char>) -> bool {
    exists|i: int| 0 <= i && i + t.len() <= s.len() && #[trigger] s.subrange(i, i + t.len()) == t
}

/// A request without a source address is denied with the placeholder status, whatever the
/// geolocation service would have said.
pub proof fn lemma_missing_ip_denied(
    list: AllowList,
    req: ClientVpnConnectionHandlerRequest,
    lookup: Result<LocationView, LookupError>,
)
    requires
        source_ip(&req) is None,
    ensures
        !decision(list@, source_ip(&req), lookup).allow,
        decision(list@, source_ip(&req), lookup).statuses == seq![posture_status()],
{
}

/// Under the standard allow-list, a successful lookup that places the address in Israel, the
/// United States or Japan lets the connection through.
pub proof fn lemma_listed_country_allowed(
    req: ClientVpnConnectionHandlerRequest,
    loc: LocationView,
)
    requires
        source_ip(&req) is Some,
        loc.country == "IL"@ || loc.country == "US"@ || loc.country == "JP"@,
    ensures
        decision(standard_countries(), source_ip(&req), Ok(loc)).allow,
{
    let list = standard_countries();
    if loc.country == "IL"@ {
        assert(list[0] == loc.country);
    } else if loc.country == "US"@ {
        assert(list[1] == loc.country);
    } else {
        assert(list[2] == loc.country);
    }
}

/// A successful lookup that places the address outside the allow-list is denied, and the
/// message names both the city and the country that the service reported.
pub proof fn lemma_unlisted_country_denied(
    list: AllowList,
    req: ClientVpnConnectionHandlerRequest,
    loc: LocationView,
)
    requires
        source_ip(&req) is Some,
        !list@.contains(loc.country),
    ensures
        !decision(list@, source_ip(&req), Ok(loc)).allow,
        decision(list@, source_ip(&req), Ok(loc)).message matches Some(m) && occurs_in(loc.city, m)
            && occurs_in(loc.country, m),
{
    let a = "Connection from "@;
    let b = ", "@;
    let c = " is not allowed."@;
    let m = a + loc.city + b + loc.country + c;
    let i = a.len() as int;
    let j = (a.len() + loc.city.len() + b.len()) as int;
    assert(m.subrange(i, i + loc.city.len()) =~= loc.city);
    assert(m.subrange(j, j + loc.country.len()) =~= loc.country);
}

/// A lookup that fails, in transport or in decoding, ends in a denial with the placeholder
/// status.
pub proof fn lemma_failed_lookup_denied(
    list: AllowList,
    req: ClientVpnConnectionHandlerRequest,
    e: LookupError,
)
    ensures
        !decision(list@, source_ip(&req), Err(e)).allow,
        decision(list@, source_ip(&req), Err(e)).statuses == seq![posture_status()],
{
}

/// Every response carries the protocol version, whatever version the request declared.
pub proof fn lemma_fixed_schema_version(
    list: AllowList,
    req: ClientVpnConnectionHandlerRequest,
    lookup: Result<LocationView, LookupError>,
)
    ensures
        decision(list@, source_ip(&req), lookup).schema_version == Some(protocol_version()),
{
}

/// Two requests with the same source address, answered alike by the geolocation service,
/// get the same response: nothing else, and no state kept between requests, enters it.
pub proof fn lemma_same_input_same_response(
    list: AllowList,
    req1: ClientVpnConnectionHandlerRequest,
    req2: ClientVpnConnectionHandlerRequest,
    lookup1: Result<LocationView, LookupError>,
    lookup2: Result<LocationView, LookupError>,
)
    requires
        source_ip(&req1) == source_ip(&req2),
        lookup1 == lookup2,
    ensures
        decision(list@, source_ip(&req1), lookup1) == decision(list@, source_ip(&req2), lookup2),
{
}

} // verus!
