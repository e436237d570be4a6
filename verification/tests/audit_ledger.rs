use audit_trail::ledger::AuditLedger;
use audit_trail::types::{
    AuditMetadata, AuditQuery, AuditSettings, EventType, ReportType, ResourceType,
};
use audit_trail::{calculate_entry_hash, health_check, verify_entries};

const NANOS_PER_DAY: u64 = 86_400_000_000_000;

fn open_query() -> AuditQuery {
    AuditQuery {
        event_types: None,
        resource_types: None,
        actors: None,
        resource_ids: None,
        start_time: None,
        end_time: None,
        compliance_relevant_only: false,
        limit: None,
        offset: None,
    }
}

fn quiet_settings() -> AuditSettings {
    AuditSettings {
        retention_days: 2555,
        auto_archive_enabled: true,
        compliance_reporting_enabled: true,
        real_time_alerts_enabled: true,
        hash_verification_enabled: true,
        digital_signatures_enabled: false,
        audit_access_logging: false,
    }
}

/// A ledger holding entries A (t=100, compliance-relevant), B (t=200, not
/// compliance-relevant) and C (t=150, compliance-relevant), appended in that
/// call order, with write-access logging switched off so each append stores
/// exactly one entry.
fn abc_ledger() -> (AuditLedger, String) {
    let deployer = "principal-deployer".to_string();
    let mut ledger = AuditLedger::init(deployer.clone(), 10, "id-init".to_string());
    ledger
        .update_audit_settings_with_ids(
            deployer.clone(),
            50,
            quiet_settings(),
            "id-upd".to_string(),
            "id-upd-access".to_string(),
        )
        .unwrap();
    ledger
        .log_audit_event_with_ids(
            deployer.clone(),
            100,
            EventType::TransactionInitiated,
            ResourceType::Transaction,
            "res-A".to_string(),
            "initiate".to_string(),
            "details-A".to_string(),
            None,
            true,
            "id-A".to_string(),
            "unused-a".to_string(),
        )
        .unwrap();
    ledger
        .log_audit_event_with_ids(
            deployer.clone(),
            200,
            EventType::TransactionApproved,
            ResourceType::Transaction,
            "res-B".to_string(),
            "approve".to_string(),
            "details-B".to_string(),
            None,
            false,
            "id-B".to_string(),
            "unused-b".to_string(),
        )
        .unwrap();
    ledger
        .log_audit_event_with_ids(
            deployer.clone(),
            150,
            EventType::ComplianceCheck,
            ResourceType::Transaction,
            "res-C".to_string(),
            "check".to_string(),
            "details-C".to_string(),
            None,
            true,
            "id-C".to_string(),
            "unused-c".to_string(),
        )
        .unwrap();
    (ledger, deployer)
}

#[test]
fn window_query_returns_newest_first_excluding_out_of_window() {
    let (mut ledger, deployer) = abc_ledger();
    let mut q = open_query();
    q.start_time = Some(120);
    q.end_time = Some(300);
    let r = ledger.query_audit_entries_with_id(deployer, 400, "id-q".to_string(), &q);
    assert_eq!(r.len(), 2);
    assert_eq!(r[0].id, "id-B");
    assert_eq!(r[0].timestamp, 200);
    assert_eq!(r[1].id, "id-C");
    assert_eq!(r[1].timestamp, 150);
}

#[test]
fn chain_verifies_after_out_of_order_timestamps() {
    let (mut ledger, deployer) = abc_ledger();
    let msg = ledger
        .verify_audit_chain_with_id(deployer, 500, "id-v".to_string())
        .unwrap();
    assert_eq!(msg, "Audit chain verification successful");
}

#[test]
fn tampering_with_details_fails_naming_the_entry() {
    let (ledger, _) = abc_ledger();
    let mut entries = ledger.entries_snapshot();
    assert!(verify_entries(&entries).is_ok());
    let idx = entries.iter().position(|e| e.id == "id-C").unwrap();
    entries[idx].details = "forged details".to_string();
    let err = verify_entries(&entries).unwrap_err();
    assert_eq!(err, "Hash mismatch in entry: id-C");
}

#[test]
fn tampering_with_any_hashed_field_is_detected() {
    let (ledger, _) = abc_ledger();
    let base = ledger.entries_snapshot();
    let idx = base.iter().position(|e| e.id == "id-B").unwrap();

    let mut t = ledger.entries_snapshot();
    t[idx].timestamp += 1;
    assert_eq!(
        verify_entries(&t).unwrap_err(),
        "Hash mismatch in entry: id-B"
    );

    let mut t = ledger.entries_snapshot();
    t[idx].event_type = EventType::EmergencyAction;
    assert_eq!(
        verify_entries(&t).unwrap_err(),
        "Hash mismatch in entry: id-B"
    );

    let mut t = ledger.entries_snapshot();
    t[idx].actor = "someone-else".to_string();
    assert_eq!(
        verify_entries(&t).unwrap_err(),
        "Hash mismatch in entry: id-B"
    );

    let mut t = ledger.entries_snapshot();
    t[idx].resource_type = ResourceType::System;
    assert_eq!(
        verify_entries(&t).unwrap_err(),
        "Hash mismatch in entry: id-B"
    );

    let mut t = ledger.entries_snapshot();
    t[idx].resource_id = "res-X".to_string();
    assert_eq!(
        verify_entries(&t).unwrap_err(),
        "Hash mismatch in entry: id-B"
    );

    let mut t = ledger.entries_snapshot();
    t[idx].action = "other".to_string();
    assert_eq!(
        verify_entries(&t).unwrap_err(),
        "Hash mismatch in entry: id-B"
    );

    let mut t = ledger.entries_snapshot();
    t[idx].id = "id-Z".to_string();
    assert_eq!(
        verify_entries(&t).unwrap_err(),
        "Hash mismatch in entry: id-Z"
    );

    let mut t = ledger.entries_snapshot();
    t[idx].hash = "0".repeat(64);
    assert_eq!(
        verify_entries(&t).unwrap_err(),
        "Hash mismatch in entry: id-B"
    );

    let mut t = ledger.entries_snapshot();
    t[idx].previous_hash = None;
    assert_eq!(
        verify_entries(&t).unwrap_err(),
        "Chain integrity broken at entry: id-B"
    );
}

#[test]
fn recomputing_an_entry_hash_reproduces_the_stored_hash() {
    let (ledger, _) = abc_ledger();
    let entries = ledger.entries_snapshot();
    assert!(entries.len() >= 4);
    for e in &entries {
        let recomputed = calculate_entry_hash(
            &e.id,
            e.timestamp,
            &e.event_type,
            &e.actor,
            &e.resource_type,
            &e.resource_id,
            &e.action,
            &e.details,
            e.previous_hash.as_ref(),
        );
        assert_eq!(recomputed, e.hash);
    }
}

#[test]
fn entries_link_each_to_the_previous_hash() {
    let (ledger, _) = abc_ledger();
    let entries = ledger.entries_snapshot();
    assert!(entries[0].previous_hash.is_none());
    assert_eq!(entries[0].hash.len(), 64);
    for i in 1..entries.len() {
        assert_eq!(
            entries[i].previous_hash.as_deref(),
            Some(entries[i - 1].hash.as_str())
        );
    }
}

#[test]
fn authorized_query_appends_exactly_one_access_entry() {
    let deployer = "principal-deployer".to_string();
    let mut ledger = AuditLedger::init(deployer.clone(), 10, "id-init".to_string());
    assert_eq!(ledger.entry_count(), 1);
    ledger.query_audit_entries_with_id(deployer.clone(), 20, "id-q1".to_string(), &open_query());
    assert_eq!(ledger.entry_count(), 2);
    let entries = ledger.entries_snapshot();
    let last = entries.last().unwrap();
    assert!(matches!(last.event_type, EventType::AuditAccess));
    assert_eq!(last.action, "query_audit_entries");
    assert_eq!(last.details, "Audit access via method: query_audit_entries");
    ledger.query_audit_entries_with_id(deployer, 30, "id-q2".to_string(), &open_query());
    assert_eq!(ledger.entry_count(), 3);
}

#[test]
fn unauthorized_reads_get_empty_results_and_change_nothing() {
    let deployer = "principal-deployer".to_string();
    let mallory = "principal-mallory".to_string();
    let mut ledger = AuditLedger::init(deployer, 10, "id-init".to_string());
    let before = ledger.entry_count();

    let r = ledger.query_audit_entries_with_id(mallory.clone(), 20, "id-q".to_string(), &open_query());
    assert!(r.is_empty());

    let e = ledger.get_audit_entry_with_id(
        mallory.clone(),
        21,
        "id-g".to_string(),
        &"id-init".to_string(),
    );
    assert!(e.is_none());

    let rep = ledger.get_compliance_report_with_id(
        mallory.clone(),
        22,
        "id-r".to_string(),
        &"none".to_string(),
    );
    assert!(rep.is_none());

    let list = ledger.list_compliance_reports_with_id(mallory.clone(), 23, "id-l".to_string());
    assert!(list.is_empty());

    let stats = ledger.get_audit_statistics_with_id(mallory.clone(), 24, "id-s".to_string());
    assert!(stats.is_empty());

    let settings = ledger.get_audit_settings(&mallory);
    assert_eq!(settings.retention_days, 0);
    assert!(!settings.audit_access_logging);
    assert!(!settings.hash_verification_enabled);

    let v = ledger.verify_audit_chain_with_id(mallory.clone(), 25, "id-v".to_string());
    assert_eq!(v.unwrap_err(), "Unauthorized access");

    let gen = ledger.generate_compliance_report_with_ids(
        mallory.clone(),
        26,
        ReportType::Daily,
        0,
        100,
        "rep-x".to_string(),
        "a1".to_string(),
        "a2".to_string(),
        "a3".to_string(),
    );
    assert_eq!(gen.unwrap_err(), "Unauthorized access");

    let add = ledger.add_auditor_with_ids(
        mallory.clone(),
        27,
        "friend".to_string(),
        "Friend".to_string(),
        "b1".to_string(),
        "b2".to_string(),
    );
    assert_eq!(add.unwrap_err(), "Unauthorized access");

    let upd = ledger.update_audit_settings_with_ids(
        mallory,
        28,
        quiet_settings(),
        "c1".to_string(),
        "c2".to_string(),
    );
    assert_eq!(upd.unwrap_err(), "Unauthorized access");

    assert_eq!(ledger.entry_count(), before);
}

#[test]
fn pagination_slices_the_sorted_results() {
    let deployer = "principal-deployer".to_string();
    let mut ledger = AuditLedger::init(deployer.clone(), 10, "id-init".to_string());
    ledger
        .update_audit_settings_with_ids(
            deployer.clone(),
            11,
            quiet_settings(),
            "id-upd".to_string(),
            "x".to_string(),
        )
        .unwrap();
    for t in 1u64..=5 {
        ledger
            .log_audit_event_with_ids(
                deployer.clone(),
                t,
                EventType::TransactionInitiated,
                ResourceType::Transaction,
                format!("res-{}", t),
                "act".to_string(),
                "d".to_string(),
                None,
                false,
                format!("id-{}", t),
                format!("ua-{}", t),
            )
            .unwrap();
    }
    let q = tx_query();

    let all = ledger.query_audit_entries_with_id(deployer.clone(), 900, "q-a".to_string(), &q);
    let times: Vec<u64> = all.iter().map(|e| e.timestamp).collect();
    assert_eq!(times, vec![5, 4, 3, 2, 1]);

    let mut q2 = tx_query();
    q2.offset = Some(1);
    q2.limit = Some(2);
    let page = ledger.query_audit_entries_with_id(deployer.clone(), 901, "q-b".to_string(), &q2);
    let times: Vec<u64> = page.iter().map(|e| e.timestamp).collect();
    assert_eq!(times, vec![4, 3]);

    let mut q3 = tx_query();
    q3.offset = Some(10);
    let empty = ledger.query_audit_entries_with_id(deployer.clone(), 902, "q-c".to_string(), &q3);
    assert!(empty.is_empty());

    let mut q4 = tx_query();
    q4.limit = Some(0);
    let none = ledger.query_audit_entries_with_id(deployer.clone(), 903, "q-d".to_string(), &q4);
    assert!(none.is_empty());

    let mut q5 = tx_query();
    q5.limit = Some(3);
    let first3 = ledger.query_audit_entries_with_id(deployer, 904, "q-e".to_string(), &q5);
    let times: Vec<u64> = first3.iter().map(|e| e.timestamp).collect();
    assert_eq!(times, vec![5, 4, 3]);
}

fn tx_query() -> AuditQuery {
    let mut q = open_query();
    q.event_types = Some(vec![EventType::TransactionInitiated]);
    q
}

#[test]
fn filters_are_conjunctive_and_absent_criteria_match_everything() {
    let (mut ledger, deployer) = abc_ledger();

    let mut q = open_query();
    q.actors = Some(vec!["nobody".to_string()]);
    let r = ledger.query_audit_entries_with_id(deployer.clone(), 900, "f-a".to_string(), &q);
    assert!(r.is_empty());

    let mut q = open_query();
    q.resource_ids = Some(vec!["res-A".to_string(), "res-B".to_string()]);
    q.compliance_relevant_only = true;
    let r = ledger.query_audit_entries_with_id(deployer.clone(), 901, "f-b".to_string(), &q);
    assert_eq!(r.len(), 1);
    assert_eq!(r[0].id, "id-A");

    let mut q = open_query();
    q.event_types = Some(vec![EventType::ComplianceCheck]);
    let r = ledger.query_audit_entries_with_id(deployer, 902, "f-c".to_string(), &q);
    assert_eq!(r.len(), 1);
    assert_eq!(r[0].id, "id-C");
}

#[test]
fn report_counts_window_and_carries_reproducible_summary() {
    let (mut ledger, deployer) = abc_ledger();
    let rid = ledger
        .generate_compliance_report_with_ids(
            deployer.clone(),
            600,
            ReportType::Daily,
            120,
            300,
            "rep-1".to_string(),
            "g-qa".to_string(),
            "g-ev".to_string(),
            "g-ea".to_string(),
        )
        .unwrap();
    assert_eq!(rid, "rep-1");

    let report = ledger
        .get_compliance_report_with_id(deployer.clone(), 700, "id-gr".to_string(), &rid)
        .unwrap();
    assert_eq!(report.entries_count, 1);
    assert_eq!(
        report.summary,
        "Compliance report covering period 120 to 300 with 1 relevant entries"
    );
    assert_eq!(report.hash.len(), 64);
    assert_eq!(report.generated_at, 600);
    assert_eq!(report.period_start, 120);
    assert_eq!(report.period_end, 300);
    assert!(report.digital_signature.is_none());

    let all = ledger.list_compliance_reports_with_id(deployer.clone(), 800, "id-lr".to_string());
    assert_eq!(all.len(), 1);
    assert_eq!(all[0].id, "rep-1");

    let event = ledger
        .get_audit_entry_with_id(deployer, 810, "id-ge".to_string(), &"g-ev".to_string())
        .unwrap();
    assert!(matches!(event.event_type, EventType::ComplianceCheck));
    assert_eq!(
        event.details,
        "Generated Daily compliance report for period 120 to 300"
    );
    assert_eq!(event.action, "generate_report");
}

#[test]
fn statistics_count_entries_by_kind() {
    let deployer = "principal-deployer".to_string();
    let mut ledger = AuditLedger::init(deployer.clone(), 10, "id-init".to_string());
    let stats = ledger.get_audit_statistics_with_id(deployer, 20, "id-st".to_string());
    let get = |key: &str| -> u64 {
        stats
            .iter()
            .find(|p| p.0 == key)
            .map(|p| p.1)
            .unwrap_or_else(|| panic!("missing key"))
    };
    assert_eq!(get("total_entries"), 2);
    assert_eq!(get("compliance_entries"), 2);
    assert_eq!(get("event_type_SystemConfiguration"), 1);
    assert_eq!(get("event_type_AuditAccess"), 1);
    assert_eq!(get("compliance_reports"), 0);
    assert!(!stats.iter().any(|p| p.0 == "event_type_DataExport"));
}

#[test]
fn add_auditor_grants_read_capability() {
    let deployer = "principal-deployer".to_string();
    let second = "principal-second".to_string();
    let mut ledger = AuditLedger::init(deployer.clone(), 10, "id-init".to_string());

    let before = ledger.get_audit_settings(&second);
    assert_eq!(before.retention_days, 0);

    let msg = ledger
        .add_auditor_with_ids(
            deployer,
            20,
            second.clone(),
            "Second Auditor".to_string(),
            "id-add".to_string(),
            "id-add-a".to_string(),
        )
        .unwrap();
    assert_eq!(msg, "Auditor added successfully");

    let after = ledger.get_audit_settings(&second);
    assert_eq!(after.retention_days, 2555);
    assert!(after.audit_access_logging);
}

#[test]
fn settings_start_at_defaults_and_updates_take_effect() {
    let deployer = "principal-deployer".to_string();
    let mut ledger = AuditLedger::init(deployer.clone(), 10, "id-init".to_string());

    let s = ledger.get_audit_settings(&deployer);
    assert_eq!(s.retention_days, 2555);
    assert!(s.auto_archive_enabled);
    assert!(s.compliance_reporting_enabled);
    assert!(s.real_time_alerts_enabled);
    assert!(s.hash_verification_enabled);
    assert!(!s.digital_signatures_enabled);
    assert!(s.audit_access_logging);

    let msg = ledger
        .update_audit_settings_with_ids(
            deployer.clone(),
            20,
            quiet_settings(),
            "id-upd".to_string(),
            "id-upd-a".to_string(),
        )
        .unwrap();
    assert_eq!(msg, "Audit settings updated successfully");

    let s2 = ledger.get_audit_settings(&deployer);
    assert!(!s2.audit_access_logging);
    assert_eq!(s2.retention_days, 2555);
}

#[test]
fn retention_is_set_exactly_for_compliance_relevant_entries() {
    let (ledger, _) = abc_ledger();
    let entries = ledger.entries_snapshot();
    let a = entries.iter().find(|e| e.id == "id-A").unwrap();
    assert_eq!(a.retention_until, Some(100 + 2555 * NANOS_PER_DAY));
    let b = entries.iter().find(|e| e.id == "id-B").unwrap();
    assert!(b.retention_until.is_none());
}

#[test]
fn write_access_logging_records_the_write_itself() {
    let deployer = "principal-deployer".to_string();
    let mut ledger = AuditLedger::init(deployer.clone(), 10, "id-init".to_string());
    let before = ledger.entry_count();
    ledger
        .log_audit_event_with_ids(
            deployer,
            20,
            EventType::DataExport,
            ResourceType::Document,
            "doc-1".to_string(),
            "export".to_string(),
            "exported".to_string(),
            None,
            false,
            "id-evt".to_string(),
            "id-evt-access".to_string(),
        )
        .unwrap();
    assert_eq!(ledger.entry_count(), before + 2);
    let entries = ledger.entries_snapshot();
    let access = entries.last().unwrap();
    assert!(matches!(access.event_type, EventType::AuditAccess));
    assert_eq!(access.resource_id, "id-evt");
    assert_eq!(access.action, "log_audit_event");
}

#[test]
fn duplicate_entry_id_is_rejected_without_changing_the_ledger() {
    let deployer = "principal-deployer".to_string();
    let mut ledger = AuditLedger::init(deployer.clone(), 10, "id-init".to_string());
    let before = ledger.entry_count();
    let r = ledger.log_audit_event_with_ids(
        deployer,
        20,
        EventType::DataExport,
        ResourceType::Document,
        "doc-1".to_string(),
        "export".to_string(),
        "exported".to_string(),
        None,
        false,
        "id-init".to_string(),
        "id-other".to_string(),
    );
    assert_eq!(r.unwrap_err(), "Duplicate entry id");
    assert_eq!(ledger.entry_count(), before);
}

#[test]
fn drawn_ids_have_uuid_shape() {
    let deployer = "principal-deployer".to_string();
    let mut ledger = AuditLedger::init(deployer.clone(), 10, "id-init".to_string());
    let id = ledger
        .log_audit_event(
            deployer,
            20,
            EventType::UserAuthentication,
            ResourceType::User,
            "user-1".to_string(),
            "login".to_string(),
            "signed in".to_string(),
            None,
            false,
        )
        .unwrap();
    assert_eq!(id.len(), 36);
    assert_eq!(id.matches('-').count(), 4);
}

#[test]
fn metadata_defaults_to_all_absent() {
    let m = AuditMetadata::default();
    assert!(m.ip_address.is_none());
    assert!(m.user_agent.is_none());
    assert!(m.session_id.is_none());
    assert!(m.request_id.is_none());
    assert!(m.canister_id.is_none());
    assert!(m.method_name.is_none());
    assert!(m.before_state.is_none());
    assert!(m.after_state.is_none());
    assert!(m.error_code.is_none());
    assert!(m.additional_context.is_empty());
}

#[test]
fn empty_store_verifies() {
    let entries = Vec::new();
    assert_eq!(
        verify_entries(&entries).unwrap(),
        "Audit chain verification successful"
    );
}

#[test]
fn health_check_reports_healthy() {
    assert_eq!(health_check(), "Audit Trail canister is healthy");
}

#[test]
fn equal_timestamps_keep_store_order() {
    let deployer = "principal-deployer".to_string();
    let mut ledger = AuditLedger::init(deployer.clone(), 10, "id-init".to_string());
    ledger
        .update_audit_settings_with_ids(
            deployer.clone(),
            11,
            quiet_settings(),
            "id-upd".to_string(),
            "x".to_string(),
        )
        .unwrap();
    for n in 0u64..3 {
        ledger
            .log_audit_event_with_ids(
                deployer.clone(),
                77,
                EventType::TransactionInitiated,
                ResourceType::Transaction,
                format!("res-{}", n),
                "act".to_string(),
                "d".to_string(),
                None,
                false,
                format!("tie-{}", n),
                format!("ua-{}", n),
            )
            .unwrap();
    }
    let mut q = open_query();
    q.event_types = Some(vec![EventType::TransactionInitiated]);
    let r = ledger.query_audit_entries_with_id(deployer, 900, "q-tie".to_string(), &q);
    let ids: Vec<&str> = r.iter().map(|e| e.id.as_str()).collect();
    assert_eq!(ids, vec!["tie-0", "tie-1", "tie-2"]);
}

#[test]
fn entry_lookup_finds_exactly_the_stored_entry() {
    let (mut ledger, deployer) = abc_ledger();
    let found = ledger
        .get_audit_entry_with_id(
            deployer.clone(),
            900,
            "id-g1".to_string(),
            &"id-B".to_string(),
        )
        .unwrap();
    assert_eq!(found.id, "id-B");
    assert_eq!(found.timestamp, 200);
    assert_eq!(found.resource_id, "res-B");
    assert_eq!(found.details, "details-B");
    assert!(!found.compliance_relevant);

    let missing = ledger.get_audit_entry_with_id(
        deployer,
        901,
        "id-g2".to_string(),
        &"no-such-id".to_string(),
    );
    assert!(missing.is_none());
}
