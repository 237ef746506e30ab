use godaddy_ddns::dns_record_manager::{
    DnsRecordManager, DnsRecordManagerError, GodaddyConfig, GodaddyDnsRecordManager, ReadEvent,
};
use godaddy_ddns::wire::update_request_body;

fn manager() -> GodaddyDnsRecordManager {
    let config = GodaddyConfig::load(
        Some("key".to_string()),
        Some("secret".to_string()),
        Some("https://api.godaddy.com/v1".to_string()),
        Some("example.com".to_string()),
    )
    .unwrap();
    GodaddyDnsRecordManager::new(config)
}

#[test]
fn arecord_url_follows_the_path_template() {
    let m = manager();
    assert_eq!(
        m.config.arecord_url(),
        "https://api.godaddy.com/v1/domains/example.com/records/A/%40"
    );
}

#[test]
fn auth_header_concatenates_the_credential_pair() {
    let m = manager();
    assert_eq!(m.config.auth_header(), "sso-key key:secret");
}

#[test]
fn update_request_body_quotes_the_address_and_fixes_the_ttl() {
    assert_eq!(
        update_request_body("203.0.113.5"),
        "[{\"data\":\"203.0.113.5\",\"ttl\":600}]"
    );
}

#[test]
fn update_request_body_escapes_what_json_requires() {
    assert_eq!(update_request_body("a\"b"), "[{\"data\":\"a\\\"b\",\"ttl\":600}]");
}

#[test]
fn read_payload_yields_the_first_record() {
    let m = manager();
    let body = "[{\"data\": \"10.0.0.1\"}, {\"data\": \"10.0.0.2\"}]".to_string();
    let rec = m.get_arecord_detail(ReadEvent::Succeeded(body)).unwrap();
    assert_eq!(rec.data, "10.0.0.1");
}

#[test]
fn read_payload_tolerates_extra_fields() {
    let m = manager();
    let body = "[{\"ttl\": 600, \"name\": \"@\", \"data\": \"10.0.0.1\"}]".to_string();
    let rec = m.get_arecord_detail(ReadEvent::Succeeded(body)).unwrap();
    assert_eq!(rec.data, "10.0.0.1");
}

#[test]
fn empty_read_payload_is_record_not_found() {
    let m = manager();
    let r = m.get_arecord_detail(ReadEvent::Succeeded("[]".to_string()));
    assert_eq!(
        r,
        Err(DnsRecordManagerError::Unexpected("Cannot find DNS record.".to_string()))
    );
}

#[test]
fn malformed_read_payload_fails_to_parse() {
    let m = manager();
    let r = m.get_arecord_detail(ReadEvent::Succeeded("{\"data\": \"10.0.0.1\"}".to_string()));
    assert!(matches!(r, Err(DnsRecordManagerError::FailToParseResponse(_))));
    let r = m.get_arecord_detail(ReadEvent::Succeeded("not json at all".to_string()));
    assert!(matches!(r, Err(DnsRecordManagerError::FailToParseResponse(_))));
}

#[test]
fn record_without_string_data_fails_to_parse() {
    let m = manager();
    let r = m.get_arecord_detail(ReadEvent::Succeeded("[{\"ttl\": 600}]".to_string()));
    assert!(matches!(r, Err(DnsRecordManagerError::FailToParseResponse(_))));
    let r = m.get_arecord_detail(ReadEvent::Succeeded("[{\"data\": 5}]".to_string()));
    assert!(matches!(r, Err(DnsRecordManagerError::FailToParseResponse(_))));
}
