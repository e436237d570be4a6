//! A tamper-evident audit ledger for a regulated custody platform.
//!
//! Every sensitive action is recorded as an immutable entry whose integrity
//! digest commits to the entry's own fields and to the digest of the entry
//! appended just before it, so that any retroactive modification of the
//! recorded history can be detected by replaying the chain.

pub mod crypto;
pub mod encode;
pub mod types;
pub mod chain;
pub mod query;
pub mod ledger;
pub mod compliance;
pub mod custody;

pub use chain::{calculate_entry_hash, verify_entries};
pub use crypto::{hex_of, sha256, sha256_of, to_hex};
pub use ledger::{health_check, AuditLedger};
pub use types::{
    matches_query, AuditEntry, AuditMetadata, AuditQuery, AuditSettings, ComplianceReport,
    EventType, ReportType, ResourceType,
};
