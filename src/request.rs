use vstd::prelude::*;

verus! {

/// The metadata of one client connection attempt, as the VPN endpoint sends it.
///
/// Every field is optional; only `public_ip` takes part in the decision.
pub struct ClientVpnConnectionHandlerRequest {
    pub connection_id: Option<String>,
    pub endpoint_id: Option<String>,
    pub common_name: Option<String>,
    pub username: Option<String>,
    pub os_platform: Option<String>,
    pub os_platform_version: Option<String>,
    pub public_ip: Option<String>,
    pub client_open_vpn_version: Option<String>,
    pub groups: Option<String>,
    pub schema_version: Option<String>,
}

/// Why a request cannot be evaluated.
#[derive(Clone, Copy, Debug, PartialEq, Eq, Structural)]
pub enum ValidationError {
    /// The request carries no source address, or an empty one.
    MissingSourceIP,
}

/// The source address of a request, where it has a non-empty one.
pub open spec fn source_ip(req: &ClientVpnConnectionHandlerRequest) -> Option<Seq<char>> {
    match req.public_ip {
        Some(ip) => if ip@.len() > 0 {
            Some(ip@)
        } else {
            None
        },
        None => None,
    }
}

/// Checks that the request names a source address before any lookup is made.
///
/// The address is not parsed: the geolocation service rejects malformed ones itself.
pub fn validate(req: &ClientVpnConnectionHandlerRequest) -> (r: Result<String, ValidationError>)
    ensures
        match source_ip(req) {
            Some(ip) => r is Ok && r->Ok_0@ == ip,
            None => r == Err::<String, ValidationError>(ValidationError::MissingSourceIP),
        },
{
    match &req.public_ip {
        Some(ip) => {
            if ip.as_str().is_empty() {
                Err(ValidationError::MissingSourceIP)
            } else {
                Ok(ip.clone())
            }
        },
        None => Err(ValidationError::MissingSourceIP),
    }
}

} // verus!
