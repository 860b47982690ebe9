use clientvpn_handler::location::{lookup_url, LocationRecord, LookupError};
use clientvpn_handler::pipeline::{authorize, begin, conclude, Step};
use clientvpn_handler::policy::{evaluate, AllowList};
use clientvpn_handler::request::{validate, ClientVpnConnectionHandlerRequest, ValidationError};
use clientvpn_handler::response::{build, ClientVpnConnectionHandlerResponse, Outcome};

fn request(public_ip: Option<&str>, schema_version: Option<&str>) -> ClientVpnConnectionHandlerRequest {
    ClientVpnConnectionHandlerRequest {
        connection_id: Some(String::from("cvpn-connection-04e7e1b2f0daf9460")),
        endpoint_id: Some(String::from("cvpn-endpoint-0a3f7de4b2c1")),
        common_name: Some(String::from("client.example.com")),
        username: Some(String::from("alice")),
        os_platform: Some(String::from("Linux")),
        os_platform_version: Some(String::from("6.1")),
        public_ip: public_ip.map(String::from),
        client_open_vpn_version: Some(String::from("2.6.0")),
        groups: None,
        schema_version: schema_version.map(String::from),
    }
}

fn located(country: &str, city: &str, org: &str) -> Result<LocationRecord, LookupError> {
    Ok(LocationRecord::new(String::from(country), String::from(city), String::from(org)))
}

fn assert_denied_unknown(r: &ClientVpnConnectionHandlerResponse) {
    assert!(!r.allow);
    assert_eq!(r.posture_compliance_statuses, vec![String::from("Unknown")]);
    assert_eq!(r.schema_version.as_deref(), Some("v2"));
    assert!(r.error_msg_on_failed_posture_compliance.is_some());
}

#[test]
fn missing_ip_is_denied() {
    let list = AllowList::standard();
    let r = authorize(&list, &request(None, Some("v1")), &located("US", "Mountain View", "Google"));
    assert_denied_unknown(&r);
    assert_eq!(
        r.error_msg_on_failed_posture_compliance.as_deref(),
        Some("Deny: no source IP address.")
    );
}

#[test]
fn empty_ip_is_denied() {
    let list = AllowList::standard();
    let r = authorize(&list, &request(Some(""), None), &located("US", "Mountain View", "Google"));
    assert_denied_unknown(&r);
}

#[test]
fn listed_country_is_allowed() {
    let list = AllowList::standard();
    let r = authorize(&list, &request(Some("8.8.8.8"), None), &located("US", "Mountain View", "Google"));
    assert!(r.allow);
    assert_eq!(r.error_msg_on_failed_posture_compliance.as_deref(), Some("OK"));
    assert_eq!(r.posture_compliance_statuses, vec![String::from("Unknown")]);
    assert_eq!(r.schema_version.as_deref(), Some("v2"));
}

#[test]
fn every_standard_country_is_allowed() {
    let list = AllowList::standard();
    for country in ["IL", "US", "JP"] {
        let r = authorize(&list, &request(Some("203.0.113.9"), None), &located(country, "City", "Org"));
        assert!(r.allow, "{} should be allowed", country);
    }
}

#[test]
fn unlisted_country_is_denied_with_city_and_country() {
    let list = AllowList::standard();
    let r = authorize(&list, &request(Some("1.2.3.4"), None), &located("FR", "Paris", "X"));
    assert!(!r.allow);
    assert_eq!(
        r.error_msg_on_failed_posture_compliance.as_deref(),
        Some("Connection from Paris, FR is not allowed.")
    );
    assert_eq!(r.posture_compliance_statuses, vec![String::from("Unknown")]);
}

#[test]
fn country_codes_match_case_sensitively() {
    let list = AllowList::standard();
    let r = authorize(&list, &request(Some("8.8.8.8"), None), &located("us", "Mountain View", "Google"));
    assert!(!r.allow);
    assert_eq!(
        r.error_msg_on_failed_posture_compliance.as_deref(),
        Some("Connection from Mountain View, us is not allowed.")
    );
}

#[test]
fn transport_failure_is_denied() {
    let list = AllowList::standard();
    let r = authorize(&list, &request(Some("8.8.8.8"), None), &Err(LookupError::TransportError));
    assert_denied_unknown(&r);
    assert_eq!(
        r.error_msg_on_failed_posture_compliance.as_deref(),
        Some("Deny: Unknown location, the lookup failed.")
    );
}

#[test]
fn decode_failure_is_denied() {
    let list = AllowList::standard();
    let r = authorize(&list, &request(Some("8.8.8.8"), None), &Err(LookupError::DecodeError));
    assert_denied_unknown(&r);
    assert_eq!(
        r.error_msg_on_failed_posture_compliance.as_deref(),
        Some("Deny: Unknown location, the lookup answer could not be read.")
    );
}

#[test]
fn schema_version_of_request_is_ignored() {
    let list = AllowList::standard();
    for declared in [None, Some("v1"), Some("v2"), Some("v3")] {
        let r = authorize(&list, &request(Some("8.8.8.8"), declared), &located("JP", "Tokyo", "Org"));
        assert_eq!(r.schema_version.as_deref(), Some("v2"));
        let r = authorize(&list, &request(None, declared), &located("JP", "Tokyo", "Org"));
        assert_eq!(r.schema_version.as_deref(), Some("v2"));
    }
}

#[test]
fn same_input_gives_same_response() {
    let list = AllowList::standard();
    let req = request(Some("1.2.3.4"), Some("v1"));
    let lookup = located("FR", "Paris", "X");
    let a = authorize(&list, &req, &lookup);
    let b = authorize(&list, &req, &lookup);
    assert_eq!(a.allow, b.allow);
    assert_eq!(a.error_msg_on_failed_posture_compliance, b.error_msg_on_failed_posture_compliance);
    assert_eq!(a.posture_compliance_statuses, b.posture_compliance_statuses);
    assert_eq!(a.schema_version, b.schema_version);
}

#[test]
fn begin_asks_for_lookup_of_source_ip() {
    match begin(&request(Some("8.8.8.8"), None)) {
        Step::Lookup { url } => assert_eq!(url, "https://ipinfo.io/8.8.8.8"),
        Step::Respond(_) => panic!("a request with an address needs a lookup"),
    }
}

#[test]
fn begin_denies_without_source_ip() {
    match begin(&request(None, None)) {
        Step::Respond(r) => assert_denied_unknown(&r),
        Step::Lookup { .. } => panic!("a request without an address needs no lookup"),
    }
}

#[test]
fn conclude_decides_on_lookup() {
    let list = AllowList::standard();
    assert!(conclude(&list, &located("IL", "Tel Aviv", "Org")).allow);
    assert!(!conclude(&list, &located("DE", "Berlin", "Org")).allow);
    assert_denied_unknown(&conclude(&list, &Err(LookupError::TransportError)));
}

#[test]
fn lookup_url_appends_address() {
    assert_eq!(lookup_url("1.2.3.4"), "https://ipinfo.io/1.2.3.4");
    assert_eq!(lookup_url("2001:db8::1"), "https://ipinfo.io/2001:db8::1");
}

#[test]
fn validate_requires_source_ip() {
    assert_eq!(validate(&request(Some("1.2.3.4"), None)), Ok(String::from("1.2.3.4")));
    assert_eq!(validate(&request(None, None)), Err(ValidationError::MissingSourceIP));
    assert_eq!(validate(&request(Some(""), None)), Err(ValidationError::MissingSourceIP));
}

#[test]
fn custom_allow_list_is_used() {
    let list = AllowList::new(vec![String::from("FR")]);
    assert!(list.permits(&String::from("FR")));
    assert!(!list.permits(&String::from("US")));
    let r = authorize(&list, &request(Some("1.2.3.4"), None), &located("FR", "Paris", "X"));
    assert!(r.allow);
    let empty = AllowList::new(Vec::new());
    assert!(!empty.permits(&String::from("US")));
}

#[test]
fn evaluate_absent_record_is_unknown() {
    let list = AllowList::standard();
    let d = evaluate(&list, None);
    assert!(!d.allow);
    assert_eq!(d.reason, "Unknown");
}

#[test]
fn build_reports_each_outcome() {
    let r = build(&Outcome::Invalid(ValidationError::MissingSourceIP));
    assert_denied_unknown(&r);
    let list = AllowList::standard();
    let allowed = evaluate(&list, Some(&LocationRecord::new(
        String::from("JP"),
        String::from("Osaka"),
        String::from("Org"),
    )));
    let r = build(&Outcome::Decided(allowed));
    assert!(r.allow);
    assert_eq!(r.error_msg_on_failed_posture_compliance.as_deref(), Some("OK"));
}
