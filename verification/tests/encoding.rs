use audit_trail::encode::u64_to_dec;
use audit_trail::{sha256, to_hex};
use audit_trail::types::{AuditEntry, AuditMetadata, AuditQuery, EventType, ResourceType};
use audit_trail::matches_query;

#[test]
fn sha256_hex_matches_known_vectors() {
    let empty: Vec<u8> = Vec::new();
    assert_eq!(
        to_hex(&sha256(&empty)),
        "e3b0c44298fc1c149afbf4c8996fb92427ae41e4649b934ca495991b7852b855"
    );
    assert_eq!(
        to_hex(&sha256("abc".as_bytes())),
        "ba7816bf8f01cfea414140de5dae2223b00361a396177a9cb410ff61f20015ad"
    );
}

#[test]
fn hex_renders_two_lowercase_digits_per_byte() {
    let bytes: Vec<u8> = vec![0x00, 0x0f, 0x10, 0xab, 0xff];
    assert_eq!(to_hex(&bytes), "000f10abff");
}

#[test]
fn decimal_rendering_matches_standard_formatting() {
    assert_eq!(u64_to_dec(0), "0");
    assert_eq!(u64_to_dec(7), "7");
    assert_eq!(u64_to_dec(10), "10");
    assert_eq!(u64_to_dec(1234567890), "1234567890");
    assert_eq!(u64_to_dec(u64::MAX), "18446744073709551615");
}

fn sample_entry(ts: u64) -> AuditEntry {
    AuditEntry {
        id: "e-1".to_string(),
        timestamp: ts,
        event_type: EventType::DataExport,
        actor: "actor-1".to_string(),
        resource_type: ResourceType::Document,
        resource_id: "doc-1".to_string(),
        action: "export".to_string(),
        details: "exported a document".to_string(),
        metadata: AuditMetadata::default(),
        hash: String::new(),
        previous_hash: None,
        compliance_relevant: false,
        retention_until: None,
    }
}

fn blank_query() -> AuditQuery {
    AuditQuery {
        event_types: None,
        resource_types: None,
        actors: None,
        resource_ids: None,
        start_time: None,
        end_time: None,
        compliance_relevant_only: false,
        limit: None,
        offset: None,
    }
}

#[test]
fn match_is_conjunctive_over_supplied_criteria() {
    let e = sample_entry(100);

    assert!(matches_query(&e, &blank_query()));

    let mut q = blank_query();
    q.event_types = Some(vec![EventType::DataExport, EventType::DataModification]);
    q.actors = Some(vec!["actor-1".to_string()]);
    assert!(matches_query(&e, &q));

    q.resource_ids = Some(vec!["doc-2".to_string()]);
    assert!(!matches_query(&e, &q));
}

#[test]
fn time_window_bounds_are_inclusive() {
    let e = sample_entry(100);

    let mut q = blank_query();
    q.start_time = Some(100);
    q.end_time = Some(100);
    assert!(matches_query(&e, &q));

    q.start_time = Some(101);
    q.end_time = None;
    assert!(!matches_query(&e, &q));

    q.start_time = None;
    q.end_time = Some(99);
    assert!(!matches_query(&e, &q));
}

#[test]
fn compliance_only_excludes_ordinary_entries() {
    let mut e = sample_entry(100);
    let mut q = blank_query();
    q.compliance_relevant_only = true;
    assert!(!matches_query(&e, &q));
    e.compliance_relevant = true;
    assert!(matches_query(&e, &q));
}
