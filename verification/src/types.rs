//! The ledger's data model: entries, their semantic tags, metadata, queries,
//! compliance reports and settings, together with the mathematical views that
//! the contracts speak of.

use vstd::prelude::*;

verus! {

/// The closed set of event kinds a ledger entry can record.
#[derive(Clone, Copy, Debug, PartialEq, Eq, Structural)]
pub enum EventType {
    AccountCreation,
    AccountModification,
    AccountClosure,
    TransactionInitiated,
    TransactionApproved,
    TransactionExecuted,
    TransactionRejected,
    ComplianceCheck,
    KycUpdate,
    RiskAssessment,
    EmergencyAction,
    SystemConfiguration,
    UserAuthentication,
    AccessGranted,
    AccessDenied,
    DataExport,
    DataModification,
    PolicyUpdate,
    AuditAccess,
}

/// The closed set of resource kinds an entry can concern.
#[derive(Clone, Copy, Debug, PartialEq, Eq, Structural)]
pub enum ResourceType {
    CustodyAccount,
    MultisigWallet,
    Transaction,
    KycProfile,
    ComplianceReport,
    User,
    System,
    Document,
    Policy,
    AuditLog,
}

/// The category of a compliance report.
#[derive(Clone, Copy, Debug, PartialEq, Eq, Structural)]
pub enum ReportType {
    Daily,
    Weekly,
    Monthly,
    Quarterly,
    Annual,
    OnDemand,
    Regulatory,
    Internal,
}

/// Configuration of the ledger: retention horizon and feature toggles.
#[derive(Clone, Copy, Debug, PartialEq, Eq, Structural)]
pub struct AuditSettings {
    pub retention_days: u32,
    pub auto_archive_enabled: bool,
    pub compliance_reporting_enabled: bool,
    pub real_time_alerts_enabled: bool,
    pub hash_verification_enabled: bool,
    pub digital_signatures_enabled: bool,
    pub audit_access_logging: bool,
}

/// The canonical label of an event kind, as it enters the entry digest.
pub open spec fn event_label_of(e: EventType) -> Seq<char> {
    match e {
        EventType::AccountCreation => "AccountCreation"@,
        EventType::AccountModification => "AccountModification"@,
        EventType::AccountClosure => "AccountClosure"@,
        EventType::TransactionInitiated => "TransactionInitiated"@,
        EventType::TransactionApproved => "TransactionApproved"@,
        EventType::TransactionExecuted => "TransactionExecuted"@,
        EventType::TransactionRejected => "TransactionRejected"@,
        EventType::ComplianceCheck => "ComplianceCheck"@,
        EventType::KycUpdate => "KycUpdate"@,
        EventType::RiskAssessment => "RiskAssessment"@,
        EventType::EmergencyAction => "EmergencyAction"@,
        EventType::SystemConfiguration => "SystemConfiguration"@,
        EventType::UserAuthentication => "UserAuthentication"@,
        EventType::AccessGranted => "AccessGranted"@,
        EventType::AccessDenied => "AccessDenied"@,
        EventType::DataExport => "DataExport"@,
        EventType::DataModification => "DataModification"@,
        EventType::PolicyUpdate => "PolicyUpdate"@,
        EventType::AuditAccess => "AuditAccess"@,
    }
}

/// The canonical label of an event kind.
pub fn event_label(e: &EventType) -> (r: &'static str)
    ensures
        r@ == event_label_of(*e),
{
    match e {
        EventType::AccountCreation => "AccountCreation",
        EventType::AccountModification => "AccountModification",
        EventType::AccountClosure => "AccountClosure",
        EventType::TransactionInitiated => "TransactionInitiated",
        EventType::TransactionApproved => "TransactionApproved",
        EventType::TransactionExecuted => "TransactionExecuted",
        EventType::TransactionRejected => "TransactionRejected",
        EventType::ComplianceCheck => "ComplianceCheck",
        EventType::KycUpdate => "KycUpdate",
        EventType::RiskAssessment => "RiskAssessment",
        EventType::EmergencyAction => "EmergencyAction",
        EventType::SystemConfiguration => "SystemConfiguration",
        EventType::UserAuthentication => "UserAuthentication",
        EventType::AccessGranted => "AccessGranted",
        EventType::AccessDenied => "AccessDenied",
        EventType::DataExport => "DataExport",
        EventType::DataModification => "DataModification",
        EventType::PolicyUpdate => "PolicyUpdate",
        EventType::AuditAccess => "AuditAccess",
    }
}

/// The canonical label of a resource kind, as it enters the entry digest.
pub open spec fn resource_label_of(r: ResourceType) -> Seq<char> {
    match r {
        ResourceType::CustodyAccount => "CustodyAccount"@,
        ResourceType::MultisigWallet => "MultisigWallet"@,
        ResourceType::Transaction => "Transaction"@,
        ResourceType::KycProfile => "KycProfile"@,
        ResourceType::ComplianceReport => "ComplianceReport"@,
        ResourceType::User => "User"@,
        ResourceType::System => "System"@,
        ResourceType::Document => "Document"@,
        ResourceType::Policy => "Policy"@,
        ResourceType::AuditLog => "AuditLog"@,
    }
}

/// The canonical label of a resource kind.
pub fn resource_label(r: &ResourceType) -> (s: &'static str)
    ensures
        s@ == resource_label_of(*r),
{
    match r {
        ResourceType::CustodyAccount => "CustodyAccount",
        ResourceType::MultisigWallet => "MultisigWallet",
        ResourceType::Transaction => "Transaction",
        ResourceType::KycProfile => "KycProfile",
        ResourceType::ComplianceReport => "ComplianceReport",
        ResourceType::User => "User",
        ResourceType::System => "System",
        ResourceType::Document => "Document",
        ResourceType::Policy => "Policy",
        ResourceType::AuditLog => "AuditLog",
    }
}

/// The canonical label of a report category.
pub open spec fn report_label_of(r: ReportType) -> Seq<char> {
    match r {
        ReportType::Daily => "Daily"@,
        ReportType::Weekly => "Weekly"@,
        ReportType::Monthly => "Monthly"@,
        ReportType::Quarterly => "Quarterly"@,
        ReportType::Annual => "Annual"@,
        ReportType::OnDemand => "OnDemand"@,
        ReportType::Regulatory => "Regulatory"@,
        ReportType::Internal => "Internal"@,
    }
}

/// The canonical label of a report category.
pub fn report_label(r: &ReportType) -> (s: &'static str)
    ensures
        s@ == report_label_of(*r),
{
    match r {
        ReportType::Daily => "Daily",
        ReportType::Weekly => "Weekly",
        ReportType::Monthly => "Monthly",
        ReportType::Quarterly => "Quarterly",
        ReportType::Annual => "Annual",
        ReportType::OnDemand => "OnDemand",
        ReportType::Regulatory => "Regulatory",
        ReportType::Internal => "Internal",
    }
}

/// The view of an optional text field.
pub open spec fn opt_text(o: Option<String>) -> Option<Seq<char>> {
    match o {
        Some(s) => Some(s@),
        None => None,
    }
}

/// Optional structured context recorded alongside an entry. It is stored
/// opaquely and never enters the entry digest.
#[derive(Debug)]
pub struct AuditMetadata {
    pub ip_address: Option<String>,
    pub user_agent: Option<String>,
    pub session_id: Option<String>,
    pub request_id: Option<String>,
    pub canister_id: Option<String>,
    pub method_name: Option<String>,
    pub before_state: Option<String>,
    pub after_state: Option<String>,
    pub error_code: Option<String>,
    pub additional_context: Vec<(String, String)>,
}

/// The mathematical view of [`AuditMetadata`].
pub struct AuditMetadataView {
    pub ip_address: Option<Seq<char>>,
    pub user_agent: Option<Seq<char>>,
    pub session_id: Option<Seq<char>>,
    pub request_id: Option<Seq<char>>,
    pub canister_id: Option<Seq<char>>,
    pub method_name: Option<Seq<char>>,
    pub before_state: Option<Seq<char>>,
    pub after_state: Option<Seq<char>>,
    pub error_code: Option<Seq<char>>,
    pub additional_context: Seq<(Seq<char>, Seq<char>)>,
}

impl View for AuditMetadata {
    type V = AuditMetadataView;

    open spec fn view(&self) -> AuditMetadataView {
        AuditMetadataView {
            ip_address: opt_text(self.ip_address),
            user_agent: opt_text(self.user_agent),
            session_id: opt_text(self.session_id),
            request_id: opt_text(self.request_id),
            canister_id: opt_text(self.canister_id),
            method_name: opt_text(self.method_name),
            before_state: opt_text(self.before_state),
            after_state: opt_text(self.after_state),
            error_code: opt_text(self.error_code),
            additional_context: self.additional_context@.map_values(
                |p: (String, String)| (p.0@, p.1@),
            ),
        }
    }
}

/// The view of metadata with no fields set.
pub open spec fn empty_metadata() -> AuditMetadataView {
    AuditMetadataView {
        ip_address: None,
        user_agent: None,
        session_id: None,
        request_id: None,
        canister_id: None,
        method_name: None,
        before_state: None,
        after_state: None,
        error_code: None,
        additional_context: Seq::empty(),
    }
}

impl Default for AuditMetadata {
    /// Metadata with every field absent.
    fn default() -> (r: Self)
        ensures
            r@ == empty_metadata(),
    {
        let r = AuditMetadata {
            ip_address: None,
            user_agent: None,
            session_id: None,
            request_id: None,
            canister_id: None,
            method_name: None,
            before_state: None,
            after_state: None,
            error_code: None,
            additional_context: Vec::new(),
        };
        proof {
            assert(r@.additional_context =~= empty_metadata().additional_context);
        }
        r
    }
}

/// Clones a list of key-value text pairs.
fn clone_pairs(v: &Vec<(String, String)>) -> (r: Vec<(String, String)>)
    ensures
        r@ == v@,
{
    let mut r: Vec<(String, String)> = Vec::new();
    let mut i: usize = 0;
    while i < v.len()
        invariant
            i <= v@.len(),
            r@ =~= v@.take(i as int),
        decreases v@.len() - i,
    {
        let k = v[i].0.clone();
        let val = v[i].1.clone();
        r.push((k, val));
        proof {
            assert(r@ =~= v@.take(i + 1 as int));
        }
        i = i + 1;
    }
    proof {
        assert(v@.take(v@.len() as int) =~= v@);
    }
    r
}

impl Clone for AuditMetadata {
    fn clone(&self) -> (r: Self)
        ensures
            r@ == self@,
    {
        AuditMetadata {
            ip_address: self.ip_address.clone(),
            user_agent: self.user_agent.clone(),
            session_id: self.session_id.clone(),
            request_id: self.request_id.clone(),
            canister_id: self.canister_id.clone(),
            method_name: self.method_name.clone(),
            before_state: self.before_state.clone(),
            after_state: self.after_state.clone(),
            error_code: self.error_code.clone(),
            additional_context: clone_pairs(&self.additional_context),
        }
    }
}

/// One immutable ledger entry. `hash` commits to the entry's own fields and
/// to `previous_hash`, the digest of the entry appended just before it.
#[derive(Debug)]
pub struct AuditEntry {
    pub id: String,
    pub timestamp: u64,
    pub event_type: EventType,
    pub actor: String,
    pub resource_type: ResourceType,
    pub resource_id: String,
    pub action: String,
    pub details: String,
    pub metadata: AuditMetadata,
    pub hash: String,
    pub previous_hash: Option<String>,
    pub compliance_relevant: bool,
    pub retention_until: Option<u64>,
}

/// The mathematical view of an [`AuditEntry`].
pub struct AuditEntryView {
    pub id: Seq<char>,
    pub timestamp: u64,
    pub event_type: EventType,
    pub actor: Seq<char>,
    pub resource_type: ResourceType,
    pub resource_id: Seq<char>,
    pub action: Seq<char>,
    pub details: Seq<char>,
    pub metadata: AuditMetadataView,
    pub hash: Seq<char>,
    pub previous_hash: Option<Seq<char>>,
    pub compliance_relevant: bool,
    pub retention_until: Option<u64>,
}

impl View for AuditEntry {
    type V = AuditEntryView;

    open spec fn view(&self) -> AuditEntryView {
        AuditEntryView {
            id: self.id@,
            timestamp: self.timestamp,
            event_type: self.event_type,
            actor: self.actor@,
            resource_type: self.resource_type,
            resource_id: self.resource_id@,
            action: self.action@,
            details: self.details@,
            metadata: self.metadata@,
            hash: self.hash@,
            previous_hash: opt_text(self.previous_hash),
            compliance_relevant: self.compliance_relevant,
            retention_until: self.retention_until,
        }
    }
}

impl Clone for AuditEntry {
    fn clone(&self) -> (r: Self)
        ensures
            r@ == self@,
    {
        AuditEntry {
            id: self.id.clone(),
            timestamp: self.timestamp,
            event_type: self.event_type,
            actor: self.actor.clone(),
            resource_type: self.resource_type,
            resource_id: self.resource_id.clone(),
            action: self.action.clone(),
            details: self.details.clone(),
            metadata: self.metadata.clone(),
            hash: self.hash.clone(),
            previous_hash: self.previous_hash.clone(),
            compliance_relevant: self.compliance_relevant,
            retention_until: self.retention_until,
        }
    }
}

/// The views of a sequence of entries.
pub open spec fn entry_views(s: Seq<AuditEntry>) -> Seq<AuditEntryView> {
    s.map_values(|e: AuditEntry| e@)
}

/// A filter over ledger entries. Absent criteria match everything; supplied
/// criteria are conjunctive.
#[derive(Debug)]
pub struct AuditQuery {
    pub event_types: Option<Vec<EventType>>,
    pub resource_types: Option<Vec<ResourceType>>,
    pub actors: Option<Vec<String>>,
    pub resource_ids: Option<Vec<String>>,
    pub start_time: Option<u64>,
    pub end_time: Option<u64>,
    pub compliance_relevant_only: bool,
    pub limit: Option<u32>,
    pub offset: Option<u32>,
}

/// The mathematical view of an [`AuditQuery`].
pub struct AuditQueryView {
    pub event_types: Option<Seq<EventType>>,
    pub resource_types: Option<Seq<ResourceType>>,
    pub actors: Option<Seq<Seq<char>>>,
    pub resource_ids: Option<Seq<Seq<char>>>,
    pub start_time: Option<u64>,
    pub end_time: Option<u64>,
    pub compliance_relevant_only: bool,
    pub limit: Option<u32>,
    pub offset: Option<u32>,
}

impl View for AuditQuery {
    type V = AuditQueryView;

    open spec fn view(&self) -> AuditQueryView {
        AuditQueryView {
            event_types: match self.event_types {
                Some(v) => Some(v@),
                None => None,
            },
            resource_types: match self.resource_types {
                Some(v) => Some(v@),
                None => None,
            },
            actors: match self.actors {
                Some(v) => Some(v@.map_values(|s: String| s@)),
                None => None,
            },
            resource_ids: match self.resource_ids {
                Some(v) => Some(v@.map_values(|s: String| s@)),
                None => None,
            },
            start_time: self.start_time,
            end_time: self.end_time,
            compliance_relevant_only: self.compliance_relevant_only,
            limit: self.limit,
            offset: self.offset,
        }
    }
}

/// Whether an entry satisfies every criterion a query supplies.
pub open spec fn matches_spec(e: AuditEntryView, q: AuditQueryView) -> bool {
    &&& match q.event_types {
        Some(ts) => ts.contains(e.event_type),
        None => true,
    }
    &&& match q.resource_types {
        Some(ts) => ts.contains(e.resource_type),
        None => true,
    }
    &&& match q.actors {
        Some(actors) => actors.contains(e.actor),
        None => true,
    }
    &&& match q.resource_ids {
        Some(ids) => ids.contains(e.resource_id),
        None => true,
    }
    &&& match q.start_time {
        Some(t) => e.timestamp >= t,
        None => true,
    }
    &&& match q.end_time {
        Some(t) => e.timestamp <= t,
        None => true,
    }
    &&& (q.compliance_relevant_only ==> e.compliance_relevant)
}

/// Membership of an event kind in a list of kinds.
fn contains_event(v: &Vec<EventType>, e: EventType) -> (r: bool)
    ensures
        r == v@.contains(e),
{
    let mut i: usize = 0;
    while i < v.len()
        invariant
            i <= v@.len(),
            forall|k: int| 0 <= k < i ==> v@[k] != e,
        decreases v@.len() - i,
    {
        if v[i] == e {
            return true;
        }
        i = i + 1;
    }
    false
}

/// Membership of a resource kind in a list of kinds.
fn contains_resource(v: &Vec<ResourceType>, e: ResourceType) -> (r: bool)
    ensures
        r == v@.contains(e),
{
    let mut i: usize = 0;
    while i < v.len()
        invariant
            i <= v@.len(),
            forall|k: int| 0 <= k < i ==> v@[k] != e,
        decreases v@.len() - i,
    {
        if v[i] == e {
            return true;
        }
        i = i + 1;
    }
    false
}

/// Membership of a text value in a list of texts, compared by contents.
pub(crate) fn contains_string(v: &Vec<String>, s: &String) -> (r: bool)
    ensures
        r == v@.map_values(|x: String| x@).contains(s@),
{
    let ghost texts = v@.map_values(|x: String| x@);
    let mut i: usize = 0;
    while i < v.len()
        invariant
            i <= v@.len(),
            texts == v@.map_values(|x: String| x@),
            forall|k: int| 0 <= k < i ==> texts[k] != s@,
        decreases v@.len() - i,
    {
        if s.eq(&v[i]) {
            proof {
                assert(texts[i as int] == s@);
            }
            return true;
        }
        i = i + 1;
    }
    false
}

/// Whether `entry` satisfies every criterion `query` supplies: listed event
/// kinds, resource kinds, actors and resource ids; the time window; and the
/// compliance-only flag. Absent criteria match everything.
pub fn matches_query(entry: &AuditEntry, query: &AuditQuery) -> (r: bool)
    ensures
        r == matches_spec(entry@, query@),
{
    if let Some(ts) = &query.event_types {
        if !contains_event(ts, entry.event_type) {
            return false;
        }
    }
    if let Some(ts) = &query.resource_types {
        if !contains_resource(ts, entry.resource_type) {
            return false;
        }
    }
    if let Some(actors) = &query.actors {
        if !contains_string(actors, &entry.actor) {
            return false;
        }
    }
    if let Some(ids) = &query.resource_ids {
        if !contains_string(ids, &entry.resource_id) {
            return false;
        }
    }
    if let Some(t) = query.start_time {
        if entry.timestamp < t {
            return false;
        }
    }
    if let Some(t) = query.end_time {
        if entry.timestamp > t {
            return false;
        }
    }
    if query.compliance_relevant_only && !entry.compliance_relevant {
        return false;
    }
    true
}

/// A compliance report over a period: the count of compliance-relevant
/// entries in the window, a summary, and an integrity digest of the report
/// itself (not linked into the entry chain).
#[derive(Debug)]
pub struct ComplianceReport {
    pub id: String,
    pub report_type: ReportType,
    pub period_start: u64,
    pub period_end: u64,
    pub generated_at: u64,
    pub generated_by: String,
    pub entries_count: u32,
    pub summary: String,
    pub hash: String,
    pub digital_signature: Option<String>,
}

/// The mathematical view of a [`ComplianceReport`].
pub struct ComplianceReportView {
    pub id: Seq<char>,
    pub report_type: ReportType,
    pub period_start: u64,
    pub period_end: u64,
    pub generated_at: u64,
    pub generated_by: Seq<char>,
    pub entries_count: u32,
    pub summary: Seq<char>,
    pub hash: Seq<char>,
    pub digital_signature: Option<Seq<char>>,
}

impl View for ComplianceReport {
    type V = ComplianceReportView;

    open spec fn view(&self) -> ComplianceReportView {
        ComplianceReportView {
            id: self.id@,
            report_type: self.report_type,
            period_start: self.period_start,
            period_end: self.period_end,
            generated_at: self.generated_at,
            generated_by: self.generated_by@,
            entries_count: self.entries_count,
            summary: self.summary@,
            hash: self.hash@,
            digital_signature: opt_text(self.digital_signature),
        }
    }
}

impl Clone for ComplianceReport {
    fn clone(&self) -> (r: Self)
        ensures
            r@ == self@,
    {
        ComplianceReport {
            id: self.id.clone(),
            report_type: self.report_type,
            period_start: self.period_start,
            period_end: self.period_end,
            generated_at: self.generated_at,
            generated_by: self.generated_by.clone(),
            entries_count: self.entries_count,
            summary: self.summary.clone(),
            hash: self.hash.clone(),
            digital_signature: self.digital_signature.clone(),
        }
    }
}

/// The views of a sequence of reports.
pub open spec fn report_views(s: Seq<ComplianceReport>) -> Seq<ComplianceReportView> {
    s.map_values(|r: ComplianceReport| r@)
}

} // verus!
