use vstd::prelude::*;

use crate::location::LookupError;
use crate::policy::PolicyDecision;
use crate::request::ValidationError;

verus! {

/// The answer returned to the VPN endpoint for one connection attempt.
pub struct ClientVpnConnectionHandlerResponse {
    pub allow: bool,
    pub error_msg_on_failed_posture_compliance: Option<String>,
    pub posture_compliance_statuses: Vec<String>,
    pub schema_version: Option<String>,
}

/// The mathematical model of a [`ClientVpnConnectionHandlerResponse`].
pub struct ResponseView {
    pub allow: bool,
    pub message: Option<Seq<char>>,
    pub statuses: Seq<Seq<char>>,
    pub schema_version: Option<Seq<char>>,
}

/// The model of an optional string.
pub open spec fn opt_view(s: &Option<String>) -> Option<Seq<char>> {
    match s {
        Some(t) => Some(t@),
        None => None,
    }
}

impl View for ClientVpnConnectionHandlerResponse {
    type V = ResponseView;

    open spec fn view(&self) -> ResponseView {
        ResponseView {
            allow: self.allow,
            message: opt_view(&self.error_msg_on_failed_posture_compliance),
            statuses: self.posture_compliance_statuses@.map_values(|s: String| s@),
            schema_version: opt_view(&self.schema_version),
        }
    }
}

/// The posture-compliance status reported for every connection. Posture is not evaluated
/// here, so the status is a fixed placeholder.
pub open spec fn posture_status() -> Seq<char> {
    "Unknown"@
}

/// The protocol version of every response; it never depends on the request.
pub open spec fn protocol_version() -> Seq<char> {
    "v2"@
}

/// The message of a denial for want of a source address.
pub open spec fn missing_ip_message() -> Seq<char> {
    "Deny: no source IP address."@
}

/// The message of a denial because the location could not be looked up.
pub open spec fn lookup_failure_message(e: LookupError) -> Seq<char> {
    match e {
        LookupError::TransportError => "Deny: Unknown location, the lookup failed."@,
        LookupError::DecodeError => "Deny: Unknown location, the lookup answer could not be read."@,
    }
}

/// The response that carries `allow` and `message`: everything else is fixed.
pub open spec fn response_spec(allow: bool, message: Seq<char>) -> ResponseView {
    ResponseView {
        allow,
        message: Some(message),
        statuses: seq![posture_status()],
        schema_version: Some(protocol_version()),
    }
}

/// Where the evaluation of one request ended.
pub enum Outcome {
    /// The request could not be evaluated.
    Invalid(ValidationError),
    /// The location of the source address could not be looked up.
    LookupFailed(LookupError),
    /// The policy was applied to a known location.
    Decided(PolicyDecision),
}

/// Whether `o` lets the connection through: only an allowing policy decision does.
pub open spec fn outcome_allows(o: &Outcome) -> bool {
    match o {
        Outcome::Decided(d) => d.allow,
        _ => false,
    }
}

/// The message that reports `o`.
pub open spec fn outcome_message(o: &Outcome) -> Seq<char> {
    match o {
        Outcome::Invalid(ValidationError::MissingSourceIP) => missing_ip_message(),
        Outcome::LookupFailed(e) => lookup_failure_message(*e),
        Outcome::Decided(d) => d.reason@,
    }
}

/// The fixed list of posture-compliance statuses.
fn statuses() -> (r: Vec<String>)
    ensures
        r@.map_values(|s: String| s@) == seq![posture_status()],
{
    let mut r: Vec<String> = Vec::new();
    r.push(String::from_str("Unknown"));
    assert(r@.map_values(|s: String| s@) =~= seq![posture_status()]);
    r
}

/// Turns an outcome into the response: every failure is a denial, and every response has
/// a message, the placeholder status and the protocol version.
pub fn build(o: &Outcome) -> (r: ClientVpnConnectionHandlerResponse)
    ensures
        r@ == response_spec(outcome_allows(o), outcome_message(o)),
{
    let (allow, message) = match o {
        Outcome::Invalid(ValidationError::MissingSourceIP) => (
            false,
            String::from_str("Deny: no source IP address."),
        ),
        Outcome::LookupFailed(LookupError::TransportError) => (
            false,
            String::from_str("Deny: Unknown location, the lookup failed."),
        ),
        Outcome::LookupFailed(LookupError::DecodeError) => (
            false,
            String::from_str("Deny: Unknown location, the lookup answer could not be read."),
        ),
        Outcome::Decided(d) => (d.allow, d.reason.clone()),
    };
    ClientVpnConnectionHandlerResponse {
        allow,
        error_msg_on_failed_posture_compliance: Some(message),
        posture_compliance_statuses: statuses(),
        schema_version: Some(String::from_str("v2")),
    }
}

} // verus!
