use vstd::prelude::*;

verus! {

/// The host of the geolocation service that is asked about each address.
pub open spec fn service_prefix() -> Seq<char> {
    "https://ipinfo.io/"@
}

/// The address at which the geolocation service answers for `ip`.
pub open spec fn lookup_url_spec(ip: Seq<char>) -> Seq<char> {
    service_prefix() + ip
}

/// What the geolocation service reports for one address.
pub struct LocationRecord {
    pub country: String,
    pub city: String,
    pub org: String,
}

/// The mathematical model of a [`LocationRecord`].
pub struct LocationView {
    pub country: Seq<char>,
    pub city: Seq<char>,
    pub org: Seq<char>,
}

impl View for LocationRecord {
    type V = LocationView;

    open spec fn view(&self) -> LocationView {
        LocationView { country: self.country@, city: self.city@, org: self.org@ }
    }
}

impl LocationRecord {
    pub fn new(country: String, city: String, org: String) -> (r: LocationRecord)
        ensures
            r.country@ == country@,
            r.city@ == city@,
            r.org@ == org@,
    {
        LocationRecord { country, city, org }
    }
}

/// Why a geolocation lookup produced no record.
#[derive(Clone, Copy, Debug, PartialEq, Eq, Structural)]
pub enum LookupError {
    /// The service could not be reached, timed out, or answered with a non-success status.
    TransportError,
    /// The service answered, but the body is not an object with `country`, `city` and `org`.
    DecodeError,
}

/// The address to fetch in order to look up `ip`; the address is a path parameter.
pub fn lookup_url(ip: &str) -> (r: String)
    ensures
        r@ == lookup_url_spec(ip@),
{
    let prefix = String::from_str("https://ipinfo.io/");
    prefix.concat(ip)
}

} // verus!
