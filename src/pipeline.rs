use vstd::prelude::*;

use crate::location::{lookup_url, lookup_url_spec, LocationRecord, LocationView, LookupError};
use crate::policy::{allows, evaluate, reason_for, AllowList};
use crate::request::{source_ip, validate, ClientVpnConnectionHandlerRequest};
use crate::response::{
    build,
    lookup_failure_message,
    missing_ip_message,
    response_spec,
    ClientVpnConnectionHandlerResponse,
    Outcome,
    ResponseView,
};

verus! {

/// What the caller does next with a request.
pub enum Step {
    /// Fetch the location from `url`, then hand the result to [`conclude`].
    Lookup { url: String },
    /// The decision is made without a lookup: return this response.
    Respond(ClientVpnConnectionHandlerResponse),
}

/// The model of what a lookup returned.
pub open spec fn lookup_view(lookup: &Result<LocationRecord, LookupError>) -> Result<
    LocationView,
    LookupError,
> {
    match lookup {
        Ok(loc) => Ok(loc@),
        Err(e) => Err(*e),
    }
}

/// The response once the lookup has returned `lookup`: a failed lookup is a denial, a
/// successful one is decided by the allow-list.
pub open spec fn conclusion(list: Seq<Seq<char>>, lookup: Result<LocationView, LookupError>) -> ResponseView {
    match lookup {
        Ok(loc) => response_spec(allows(list, Some(loc)), reason_for(list, Some(loc))),
        Err(e) => response_spec(false, lookup_failure_message(e)),
    }
}

/// The response to a request whose source address is `ip`, where the geolocation service
/// answers `lookup` for it. Without an address no lookup is made and the request is denied.
pub open spec fn decision(
    list: Seq<Seq<char>>,
    ip: Option<Seq<char>>,
    lookup: Result<LocationView, LookupError>,
) -> ResponseView {
    match ip {
        Some(_) => conclusion(list, lookup),
        None => response_spec(false, missing_ip_message()),
    }
}

/// First step for a request: deny it at once if it has no source address, else ask for the
/// lookup of that address.
pub fn begin(req: &ClientVpnConnectionHandlerRequest) -> (s: Step)
    ensures
        match source_ip(req) {
            Some(ip) => s is Lookup && s->url@ == lookup_url_spec(ip),
            None => s is Respond && s->Respond_0@ == response_spec(false, missing_ip_message()),
        },
{
    match validate(req) {
        Ok(ip) => Step::Lookup { url: lookup_url(ip.as_str()) },
        Err(e) => Step::Respond(build(&Outcome::Invalid(e))),
    }
}

/// Second step: the response once the lookup has returned `lookup`.
pub fn conclude(list: &AllowList, lookup: &Result<LocationRecord, LookupError>) -> (r:
    ClientVpnConnectionHandlerResponse)
    ensures
        r@ == conclusion(list@, lookup_view(lookup)),
{
    match lookup {
        Ok(loc) => build(&Outcome::Decided(evaluate(list, Some(loc)))),
        Err(e) => build(&Outcome::LookupFailed(*e)),
    }
}

/// The whole decision for `req`, where the geolocation service answers `lookup` for its
/// source address; `lookup` is not looked at when the request has none.
pub fn authorize(
    list: &AllowList,
    req: &ClientVpnConnectionHandlerRequest,
    lookup: &Result<LocationRecord, LookupError>,
) -> (r: ClientVpnConnectionHandlerResponse)
    ensures
        r@ == decision(list@, source_ip(req), lookup_view(lookup)),
{
    match begin(req) {
        Step::Respond(r) => r,
        Step::Lookup { .. } => conclude(list, lookup),
    }
}

} // verus!
