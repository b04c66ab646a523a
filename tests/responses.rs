use ipgeolocation_io::client::{ip_outcome, ua_outcome, ErrorMessage, IpGeoError, ResultIP, ResultUA};
use ipgeolocation_io::ip::{Currency, IpAddress, TimeZone};
use ipgeolocation_io::ua::{Device, Engine, OperatingSystem, UserAgent};

const INVALID_KEY: &str =
    "Provided API key is not valid. Contact technical support for assistance at support@ipgeolocation.io";
const FREE_TIER: &str = "Custom User-Agent lookup is not supported on your free subscription. This feature is available to all paid subscriptions only.";

fn s(v: &str) -> String {
    v.to_string()
}

fn minimal_ip() -> IpAddress {
    IpAddress {
        ip: s("8.8.8.8"),
        hostname: None,
        continent_code: s("NA"),
        continent_name: s("North America"),
        country_code2: s("US"),
        country_code3: s("USA"),
        country_name: s("United States"),
        country_capital: s("Washington, D.C."),
        state_prov: s("California"),
        district: s("Santa Clara"),
        city: s("Mountain View"),
        zipcode: s("94043-1351"),
        latitude: s("37.42240"),
        longitude: s("-122.08421"),
        is_eu: false,
        calling_code: s("+1"),
        country_tld: s(".us"),
        languages: s("en-US,es-US,haw,fr"),
        country_flag: s("https://ipgeolocation.io/static/flags/us_64.png"),
        geoname_id: s("6301403"),
        isp: s("Google LLC"),
        connection_type: s(""),
        organization: s("Google LLC"),
        asn: None,
        currency: Currency { code: s("USD"), name: s("US Dollar"), symbol: s("$") },
        time_zone: TimeZone {
            name: s("America/Los_Angeles"),
            offset: -8,
            current_time: s("2021-12-01 07:44:34.123-0800"),
            current_time_unix_ms: 1638373474123,
            is_dst: false,
            dst_savings: 1,
        },
    }
}

fn safari() -> UserAgent {
    UserAgent {
        userAgentString: s("Mozilla/5.0 (Macintosh; Intel Mac OS X 10_11_2) AppleWebKit/601.3.9 (KHTML, like Gecko) Version/9.0.2 Safari/601.3.9"),
        name: s("Safari"),
        kind: s("Browser"),
        version: s("9.0.2"),
        versionMajor: s("9"),
        device: Device { name: s("Apple Macintosh"), kind: s("Desktop"), brand: s("Apple"), CPU: Some(s("Intel")) },
        engine: Engine {
            name: s("AppleWebKit"),
            kind: s("Browser"),
            version: s("601.3.9"),
            versionMajor: s("601"),
            build: s("Unknown"),
        },
        operatingSystem: OperatingSystem {
            name: s("Mac OS X"),
            kind: s("Desktop"),
            version: s("10.11.2"),
            versionMajor: s("10"),
        },
    }
}

fn transport_error() -> reqwest::Error {
    reqwest::Client::new().get("not a url").build().unwrap_err()
}

#[test]
fn minimal_ip_answer_leaves_optional_fields_unset() {
    match ip_outcome(Ok(ResultIP::Succ(minimal_ip()))) {
        Ok(a) => {
            assert_eq!(a, minimal_ip());
            assert!(a.asn.is_none());
            assert!(a.hostname.is_none());
            assert_eq!(a.city, "Mountain View");
            assert_eq!(a.time_zone.offset, -8);
        }
        Err(e) => panic!("unexpected error {:?}", e),
    }
}

#[test]
fn full_ip_answer_keeps_optional_fields() {
    let mut full = minimal_ip();
    full.hostname = Some(s("dns.google"));
    full.asn = Some(s("AS15169"));
    match ip_outcome(Ok(ResultIP::Succ(full.clone()))) {
        Ok(a) => {
            assert_eq!(a, full);
            assert_eq!(a.hostname.as_deref(), Some("dns.google"));
            assert_eq!(a.asn.as_deref(), Some("AS15169"));
        }
        Err(e) => panic!("unexpected error {:?}", e),
    }
}

#[test]
fn invalid_key_answer_to_ip_lookup_is_auth_error() {
    let msg = ErrorMessage { message: s(INVALID_KEY) };
    match ip_outcome(Ok(ResultIP::ErrMsg(msg))) {
        Err(IpGeoError::Auth(m)) => assert_eq!(m.message, INVALID_KEY),
        other => panic!("unexpected outcome {:?}", other),
    }
}

#[test]
fn invalid_key_answer_to_ua_parse_is_auth_error() {
    let msg = ErrorMessage { message: s(INVALID_KEY) };
    match ua_outcome(Ok(ResultUA::ErrMsg(msg))) {
        Err(IpGeoError::Auth(m)) => assert_eq!(m.description(), INVALID_KEY),
        other => panic!("unexpected outcome {:?}", other),
    }
}

#[test]
fn free_tier_answer_is_plain_auth_error() {
    let msg = ErrorMessage { message: s(FREE_TIER) };
    match ua_outcome(Ok(ResultUA::ErrMsg(msg))) {
        Err(IpGeoError::Auth(m)) => assert_eq!(m.message, FREE_TIER),
        other => panic!("unexpected outcome {:?}", other),
    }
}

#[test]
fn ua_answer_is_returned_whole() {
    match ua_outcome(Ok(ResultUA::Succ(safari()))) {
        Ok(u) => {
            assert_eq!(u, safari());
            assert_eq!(u.device.CPU.as_deref(), Some("Intel"));
            assert_eq!(u.engine.versionMajor, "601");
        }
        Err(e) => panic!("unexpected error {:?}", e),
    }
}

#[test]
fn ua_answer_without_cpu() {
    let mut crawler = safari();
    crawler.device.CPU = None;
    match ua_outcome(Ok(ResultUA::Succ(crawler.clone()))) {
        Ok(u) => assert_eq!(u, crawler),
        Err(e) => panic!("unexpected error {:?}", e),
    }
}

#[test]
fn transport_failure_of_ip_lookup_is_http_error() {
    assert!(matches!(ip_outcome(Err(transport_error())), Err(IpGeoError::HTTP(_))));
}

#[test]
fn transport_failure_of_ua_parse_is_http_error() {
    assert!(matches!(ua_outcome(Err(transport_error())), Err(IpGeoError::HTTP(_))));
}

#[test]
fn errors_convert_into_their_variants() {
    let e: IpGeoError = ErrorMessage { message: s("m") }.into();
    assert!(matches!(e, IpGeoError::Auth(ref m) if m.message == "m"));
    let e: IpGeoError = transport_error().into();
    assert!(matches!(e, IpGeoError::HTTP(_)));
}

#[test]
fn description_is_message_text() {
    let m = ErrorMessage { message: s(INVALID_KEY) };
    assert_eq!(m.description(), INVALID_KEY);
}
