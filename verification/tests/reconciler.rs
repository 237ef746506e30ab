use godaddy_ddns::dns_record_manager::{
    CycleAction, CycleEvent, DnsRecordManager, DnsRecordManagerError, GodaddyConfig,
    GodaddyDnsRecordManager, ReadEvent, ReconciliationOutcome, WriteEvent,
};
use godaddy_ddns::wire::update_request_body;

fn manager() -> GodaddyDnsRecordManager {
    let config = GodaddyConfig::load(
        Some("key".to_string()),
        Some("secret".to_string()),
        Some("https://api.godaddy.com/v1".to_string()),
        Some("example.com".to_string()),
    )
    .unwrap();
    GodaddyDnsRecordManager::new(config)
}

fn cached_manager(ip: &str) -> GodaddyDnsRecordManager {
    let mut m = manager();
    let action = m.run(CycleEvent::Tick).unwrap();
    assert_eq!(action, CycleAction::FetchRecord);
    let body = format!("[{{\"data\": \"{}\"}}]", ip);
    let action = m.run(CycleEvent::RecordFetched(ReadEvent::Succeeded(body))).unwrap();
    assert_eq!(action, CycleAction::ResolveIp);
    m
}

fn cached_data(m: &GodaddyDnsRecordManager) -> String {
    m.current_record.as_ref().unwrap().data.clone()
}

#[test]
fn first_cycle_reads_then_updates_then_settles() {
    // The example scenario: the provider holds 10.0.0.1, the resolver sees
    // 203.0.113.5, one write happens, the next cycle needs none.
    let mut m = cached_manager("10.0.0.1");
    assert_eq!(cached_data(&m), "10.0.0.1");

    let action = m.run(CycleEvent::IpResolved(Some("203.0.113.5".to_string()))).unwrap();
    assert_eq!(action, CycleAction::UpdateRecord { new_ip: "203.0.113.5".to_string() });
    assert_eq!(
        update_request_body("203.0.113.5"),
        "[{\"data\":\"203.0.113.5\",\"ttl\":600}]"
    );

    let action = m
        .run(CycleEvent::UpdateCompleted {
            new_ip: "203.0.113.5".to_string(),
            result: WriteEvent::Succeeded,
        })
        .unwrap();
    assert_eq!(
        action,
        CycleAction::Finish(ReconciliationOutcome::Updated {
            old_ip: "10.0.0.1".to_string(),
            new_ip: "203.0.113.5".to_string(),
        })
    );
    assert_eq!(cached_data(&m), "203.0.113.5");

    let action = m.run(CycleEvent::Tick).unwrap();
    assert_eq!(action, CycleAction::ResolveIp);
    let action = m.run(CycleEvent::IpResolved(Some("203.0.113.5".to_string()))).unwrap();
    assert_eq!(action, CycleAction::Finish(ReconciliationOutcome::NoChangeNeeded));
}

#[test]
fn matching_ip_needs_no_write() {
    let mut m = cached_manager("10.0.0.1");
    let action = m.run(CycleEvent::IpResolved(Some("10.0.0.1".to_string()))).unwrap();
    assert_eq!(action, CycleAction::Finish(ReconciliationOutcome::NoChangeNeeded));
    assert_eq!(cached_data(&m), "10.0.0.1");
}

#[test]
fn drifted_ip_asks_for_one_write() {
    let mut m = cached_manager("10.0.0.1");
    let action = m.run(CycleEvent::IpResolved(Some("10.0.0.2".to_string()))).unwrap();
    assert_eq!(action, CycleAction::UpdateRecord { new_ip: "10.0.0.2".to_string() });
    assert_eq!(cached_data(&m), "10.0.0.1");
}

#[test]
fn failed_write_keeps_the_cache_and_retries() {
    let mut m = cached_manager("10.0.0.1");
    let r = m.run(CycleEvent::UpdateCompleted {
        new_ip: "10.0.0.2".to_string(),
        result: WriteEvent::FailedStatus("rate limited".to_string()),
    });
    assert_eq!(r, Err(DnsRecordManagerError::UpdateRecordError("rate limited".to_string())));
    assert_eq!(cached_data(&m), "10.0.0.1");

    // The next cycle sees the same drift and asks for the write again.
    let action = m.run(CycleEvent::Tick).unwrap();
    assert_eq!(action, CycleAction::ResolveIp);
    let action = m.run(CycleEvent::IpResolved(Some("10.0.0.2".to_string()))).unwrap();
    assert_eq!(action, CycleAction::UpdateRecord { new_ip: "10.0.0.2".to_string() });
}

#[test]
fn undeliverable_write_keeps_the_cache() {
    let mut m = cached_manager("10.0.0.1");
    let r = m.run(CycleEvent::UpdateCompleted {
        new_ip: "10.0.0.2".to_string(),
        result: WriteEvent::SendFailed("connection refused".to_string()),
    });
    assert_eq!(r, Err(DnsRecordManagerError::RequestFail("connection refused".to_string())));
    assert_eq!(cached_data(&m), "10.0.0.1");
}

#[test]
fn first_run_fetches_the_record_first() {
    let mut m = manager();
    let action = m.run(CycleEvent::Tick).unwrap();
    assert_eq!(action, CycleAction::FetchRecord);
}

#[test]
fn empty_first_read_fails_without_a_write() {
    let mut m = manager();
    let r = m.run(CycleEvent::RecordFetched(ReadEvent::Succeeded("[]".to_string())));
    assert_eq!(r, Err(DnsRecordManagerError::Unexpected("Cannot find DNS record.".to_string())));
    assert!(m.current_record.is_none());
}

#[test]
fn resolver_failure_short_circuits() {
    let mut m = cached_manager("10.0.0.1");
    let action = m.run(CycleEvent::Tick).unwrap();
    assert_eq!(action, CycleAction::ResolveIp);
    let r = m.run(CycleEvent::IpResolved(None));
    assert_eq!(r, Err(DnsRecordManagerError::UnableToGetPublicIp));
    assert_eq!(cached_data(&m), "10.0.0.1");
}

#[test]
fn failed_read_aborts_the_cycle() {
    let mut m = manager();
    let r = m.run(CycleEvent::RecordFetched(ReadEvent::SendFailed("timed out".to_string())));
    assert_eq!(r, Err(DnsRecordManagerError::RequestFail("timed out".to_string())));
    assert!(m.current_record.is_none());

    let r = m.run(CycleEvent::RecordFetched(ReadEvent::FailedStatus(Some(
        "{\"code\":\"NOT_FOUND\"}".to_string(),
    ))));
    assert_eq!(
        r,
        Err(DnsRecordManagerError::Unexpected(
            "Error response from Godaddy: {\"code\":\"NOT_FOUND\"}".to_string()
        ))
    );

    let r = m.run(CycleEvent::RecordFetched(ReadEvent::FailedStatus(None)));
    assert_eq!(r, Err(DnsRecordManagerError::Unexpected("Reponse is not text".to_string())));
}

#[test]
fn confirmed_write_without_a_cache_is_unexpected() {
    let mut m = manager();
    let r = m.run(CycleEvent::UpdateCompleted {
        new_ip: "10.0.0.2".to_string(),
        result: WriteEvent::Succeeded,
    });
    assert_eq!(
        r,
        Err(DnsRecordManagerError::Unexpected("Current record should be set".to_string()))
    );
    assert!(m.current_record.is_none());
}

#[test]
fn error_messages_match_the_operator_log_lines() {
    assert_eq!(DnsRecordManagerError::UnableToGetPublicIp.message(), "Unable to get public IP");
    assert_eq!(
        DnsRecordManagerError::RequestFail("x".to_string()).message(),
        "Unable to send request."
    );
    assert_eq!(
        DnsRecordManagerError::FailToParseResponse("bad token".to_string()).message(),
        "Fail to parse reponse: bad token"
    );
    assert_eq!(
        DnsRecordManagerError::UpdateRecordError("denied".to_string()).message(),
        "Error response when update record: denied"
    );
    assert_eq!(
        DnsRecordManagerError::Unexpected("oops".to_string()).message(),
        "Unexpected error: oops"
    );
}
