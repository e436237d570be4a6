//! The ledger itself: explicit state owned by one value, exposed only
//! through the operations below. Appending reads the chain tail, computes
//! the new entry's digest, advances the tail and stores the entry as one
//! uninterruptible step, so the chain invariant holds after every call.

use vstd::prelude::*;

use crate::chain::{
    calculate_entry_hash, chain_ok_at, chain_tail, entry_hash_text, valid_chain,
};
use crate::encode::{
    be_bytes_u32, be_bytes_u64, dec_str, push_be_bytes_u32, push_be_bytes_u64, u64_to_dec,
};
use crate::types::{
    empty_metadata, entry_views, opt_text, report_views, AuditEntry, AuditEntryView,
    AuditMetadata, AuditMetadataView, AuditSettings, ComplianceReport, ComplianceReportView,
    EventType, ReportType, ResourceType,
};
use vstd::utf8::encode_utf8;

verus! {

/// Nanoseconds in one day.
pub const NANOS_PER_DAY: u64 = 86400000000000;

/// The settings a fresh ledger starts with: a seven-year retention horizon
/// and every feature but digital signatures switched on.
pub open spec fn default_settings() -> AuditSettings {
    AuditSettings {
        retention_days: 2555,
        auto_archive_enabled: true,
        compliance_reporting_enabled: true,
        real_time_alerts_enabled: true,
        hash_verification_enabled: true,
        digital_signatures_enabled: false,
        audit_access_logging: true,
    }
}

/// The all-disabled settings handed to callers who are not auditors, so that
/// the real configuration is never disclosed.
pub open spec fn disabled_settings() -> AuditSettings {
    AuditSettings {
        retention_days: 0,
        auto_archive_enabled: false,
        compliance_reporting_enabled: false,
        real_time_alerts_enabled: false,
        hash_verification_enabled: false,
        digital_signatures_enabled: false,
        audit_access_logging: false,
    }
}

impl Default for AuditSettings {
    /// The settings a fresh ledger starts with.
    fn default() -> (r: Self)
        ensures
            r == default_settings(),
    {
        AuditSettings {
            retention_days: 2555,
            auto_archive_enabled: true,
            compliance_reporting_enabled: true,
            real_time_alerts_enabled: true,
            hash_verification_enabled: true,
            digital_signatures_enabled: false,
            audit_access_logging: true,
        }
    }
}

/// A registered auditor: an identity granted read and administrative
/// capability over the ledger, with a display name.
#[derive(Debug)]
pub struct Auditor {
    pub principal: String,
    pub name: String,
}

impl View for Auditor {
    type V = (Seq<char>, Seq<char>);

    open spec fn view(&self) -> (Seq<char>, Seq<char>) {
        (self.principal@, self.name@)
    }
}

/// The views of a list of auditors.
pub open spec fn auditor_views(s: Seq<Auditor>) -> Seq<(Seq<char>, Seq<char>)> {
    s.map_values(|a: Auditor| a@)
}

/// The tamper-evident audit ledger: the append-only entry store with its
/// chain tail, the stored compliance reports, the settings, and the auditor
/// registry.
pub struct AuditLedger {
    entries: Vec<AuditEntry>,
    reports: Vec<ComplianceReport>,
    last_entry_hash: Option<String>,
    settings: AuditSettings,
    auditors: Vec<Auditor>,
    entry_counter: u64,
}

/// The mathematical view of an [`AuditLedger`].
pub struct AuditLedgerView {
    pub entries: Seq<AuditEntryView>,
    pub reports: Seq<ComplianceReportView>,
    pub last_entry_hash: Option<Seq<char>>,
    pub settings: AuditSettings,
    pub auditors: Seq<(Seq<char>, Seq<char>)>,
    pub entry_counter: u64,
}

impl View for AuditLedger {
    type V = AuditLedgerView;

    closed spec fn view(&self) -> AuditLedgerView {
        AuditLedgerView {
            entries: entry_views(self.entries@),
            reports: report_views(self.reports@),
            last_entry_hash: opt_text(self.last_entry_hash),
            settings: self.settings,
            auditors: auditor_views(self.auditors@),
            entry_counter: self.entry_counter,
        }
    }
}

/// No stored entry carries the given id.
pub open spec fn id_fresh(entries: Seq<AuditEntryView>, id: Seq<char>) -> bool {
    forall|i: int| 0 <= i < entries.len() ==> (#[trigger] entries[i].id) != id
}

/// No stored report carries the given id.
pub open spec fn report_id_fresh(reports: Seq<ComplianceReportView>, id: Seq<char>) -> bool {
    forall|i: int| 0 <= i < reports.len() ==> (#[trigger] reports[i].id) != id
}

/// The given identity is a registered auditor.
pub open spec fn is_auditor(v: AuditLedgerView, principal: Seq<char>) -> bool {
    exists|i: int| 0 <= i < v.auditors.len() && (#[trigger] v.auditors[i]).0 == principal
}

/// The retention horizon computed for a compliance-relevant entry stamped
/// `now` fits the timestamp's width.
pub open spec fn retention_fits(settings: AuditSettings, now: u64) -> bool {
    now + settings.retention_days * NANOS_PER_DAY <= u64::MAX
}

impl AuditLedgerView {
    /// Well-formedness of the ledger: the stored entries form an unbroken
    /// hash chain with pairwise distinct ids, the chain tail is the digest
    /// of the last stored entry, report ids and auditor identities are
    /// pairwise distinct, and the entry counter counts the entries.
    pub open spec fn wf(self) -> bool {
        &&& valid_chain(self.entries)
        &&& self.last_entry_hash == chain_tail(self.entries)
        &&& forall|i: int, j: int|
            0 <= i < j < self.entries.len() ==> (#[trigger] self.entries[i].id) != (
            #[trigger] self.entries[j].id)
        &&& forall|i: int, j: int|
            0 <= i < j < self.reports.len() ==> (#[trigger] self.reports[i].id) != (
            #[trigger] self.reports[j].id)
        &&& forall|i: int, j: int|
            0 <= i < j < self.auditors.len() ==> (#[trigger] self.auditors[i]).0 != (
            #[trigger] self.auditors[j]).0
        &&& self.entry_counter == self.entries.len()
    }
}

/// The entry the ledger builds from the given fields: stamped `now`, chained
/// to the current tail of `prev`, with its canonical digest, and with a
/// retention horizon exactly when it is compliance-relevant.
pub open spec fn built_entry(
    prev: Seq<AuditEntryView>,
    id: Seq<char>,
    now: u64,
    event_type: EventType,
    actor: Seq<char>,
    resource_type: ResourceType,
    resource_id: Seq<char>,
    action: Seq<char>,
    details: Seq<char>,
    metadata: AuditMetadataView,
    compliance_relevant: bool,
    retention_days: u32,
) -> AuditEntryView {
    AuditEntryView {
        id: id,
        timestamp: now,
        event_type: event_type,
        actor: actor,
        resource_type: resource_type,
        resource_id: resource_id,
        action: action,
        details: details,
        metadata: metadata,
        hash: entry_hash_text(
            id,
            now,
            event_type,
            actor,
            resource_type,
            resource_id,
            action,
            details,
            chain_tail(prev),
        ),
        previous_hash: chain_tail(prev),
        compliance_relevant: compliance_relevant,
        retention_until: if compliance_relevant {
            Some((now + retention_days * NANOS_PER_DAY) as u64)
        } else {
            None
        },
    }
}

/// The ledger after appending the entry built from the given fields: the
/// entry is stored, the chain tail advances to its digest, and the counter
/// grows by one. Reports, settings and auditors are untouched.
pub open spec fn appended(
    v: AuditLedgerView,
    id: Seq<char>,
    now: u64,
    event_type: EventType,
    actor: Seq<char>,
    resource_type: ResourceType,
    resource_id: Seq<char>,
    action: Seq<char>,
    details: Seq<char>,
    metadata: AuditMetadataView,
    compliance_relevant: bool,
) -> AuditLedgerView {
    let e = built_entry(
        v.entries,
        id,
        now,
        event_type,
        actor,
        resource_type,
        resource_id,
        action,
        details,
        metadata,
        compliance_relevant,
        v.settings.retention_days,
    );
    AuditLedgerView {
        entries: v.entries.push(e),
        last_entry_hash: Some(e.hash),
        entry_counter: (v.entry_counter + 1) as u64,
        ..v
    }
}

/// Appending an entry whose digest commits to the chain tail keeps the chain
/// valid.
pub proof fn lemma_chain_push(s: Seq<AuditEntryView>, e: AuditEntryView)
    requires
        valid_chain(s),
        e.hash == crate::chain::entry_hash_of(e, chain_tail(s)),
        e.previous_hash == chain_tail(s),
    ensures
        valid_chain(s.push(e)),
{
    let t = s.push(e);
    assert forall|i: int| 0 <= i < t.len() implies #[trigger] chain_ok_at(t, i) by {
        if i < s.len() {
            assert(chain_ok_at(s, i));
            assert(t[i] == s[i]);
            if i > 0 {
                assert(t[i - 1] == s[i - 1]);
            }
        } else {
            assert(t[i] == e);
            if i > 0 {
                assert(t[i - 1] == s[i - 1]);
            }
        }
    }
}

/// Whether a stored entry already carries the given id.
fn contains_entry_id(entries: &Vec<AuditEntry>, id: &String) -> (r: bool)
    ensures
        r == !id_fresh(entry_views(entries@), id@),
{
    let ghost s = entry_views(entries@);
    let mut i: usize = 0;
    while i < entries.len()
        invariant
            i <= entries@.len(),
            s == entry_views(entries@),
            forall|k: int| 0 <= k < i ==> (#[trigger] s[k].id) != id@,
        decreases entries@.len() - i,
    {
        if entries[i].id.eq(id) {
            proof {
                assert(s[i as int].id == id@);
            }
            return true;
        }
        i = i + 1;
    }
    false
}

impl AuditLedger {
    /// Whether the given identity is a registered auditor. A pure membership
    /// test: reads are granted to auditors alone.
    pub fn is_authorized_auditor(&self, principal: &String) -> (r: bool)
        ensures
            r == is_auditor(self@, principal@),
    {
        let mut i: usize = 0;
        while i < self.auditors.len()
            invariant
                i <= self.auditors@.len(),
                forall|k: int| 0 <= k < i ==> (#[trigger] auditor_views(self.auditors@)[k]).0
                    != principal@,
            decreases self.auditors@.len() - i,
        {
            if self.auditors[i].principal.eq(principal) {
                proof {
                    assert((self@.auditors[i as int]).0 == principal@);
                }
                return true;
            }
            i = i + 1;
        }
        false
    }

    /// A read-only snapshot of the stored entries, in chain order.
    pub fn entries_snapshot(&self) -> (r: Vec<AuditEntry>)
        ensures
            entry_views(r@) == self@.entries,
    {
        let mut r: Vec<AuditEntry> = Vec::new();
        let mut i: usize = 0;
        while i < self.entries.len()
            invariant
                i <= self.entries@.len(),
                entry_views(r@) == self@.entries.take(i as int),
            decreases self.entries@.len() - i,
        {
            let e = self.entries[i].clone();
            let ghost rv0 = entry_views(r@);
            proof {
                assert(e@ == self@.entries[i as int]);
            }
            r.push(e);
            proof {
                assert(entry_views(r@) =~= rv0.push(self@.entries[i as int]));
                assert(self@.entries.take(i as int).push(self@.entries[i as int])
                    =~= self@.entries.take(i + 1 as int));
            }
            i = i + 1;
        }
        proof {
            assert(self@.entries.take(self@.entries.len() as int) =~= self@.entries);
        }
        r
    }

    /// Whether a compliance-relevant entry stamped `now` would get a
    /// retention horizon that fits the timestamp's width under the current
    /// settings. Hosts check this before handing a timestamp in.
    pub fn accepts_timestamp(&self, now: u64) -> (r: bool)
        ensures
            r == retention_fits(self@.settings, now),
    {
        let horizon = (self.settings.retention_days as u64).checked_mul(NANOS_PER_DAY);
        match horizon {
            Some(h) => now <= u64::MAX - h,
            None => false,
        }
    }

    /// The number of stored entries.
    pub fn entry_count(&self) -> (r: u64)
        ensures
            r == self@.entries.len(),
    {
        self.entries.len() as u64
    }

    /// Builds one entry from the given fields and appends it: the single
    /// choke point every entry passes through. Reads the chain tail as the
    /// entry's predecessor digest, computes the entry's digest, advances the
    /// tail and stores the entry, all in one step. Rejects an id a stored
    /// entry already carries, leaving the ledger unchanged.
    pub fn create_audit_entry(
        &mut self,
        entry_id: String,
        now: u64,
        event_type: EventType,
        actor: String,
        resource_type: ResourceType,
        resource_id: String,
        action: String,
        details: String,
        metadata: AuditMetadata,
        compliance_relevant: bool,
    ) -> (ok: bool)
        requires
            old(self)@.wf(),
            compliance_relevant ==> retention_fits(old(self)@.settings, now),
        ensures
            final(self)@.wf(),
            ok == id_fresh(old(self)@.entries, entry_id@),
            ok ==> final(self)@ == appended(
                old(self)@,
                entry_id@,
                now,
                event_type,
                actor@,
                resource_type,
                resource_id@,
                action@,
                details@,
                metadata@,
                compliance_relevant,
            ),
            !ok ==> final(self)@ == old(self)@,
    {
        if contains_entry_id(&self.entries, &entry_id) {
            return false;
        }
        let entry_hash = calculate_entry_hash(
            entry_id.as_str(),
            now,
            &event_type,
            actor.as_str(),
            &resource_type,
            resource_id.as_str(),
            action.as_str(),
            details.as_str(),
            match &self.last_entry_hash {
                Some(h) => Some(h),
                None => None,
            },
        );
        let retention_until: Option<u64> = if compliance_relevant {
            Some(now + (self.settings.retention_days as u64) * NANOS_PER_DAY)
        } else {
            None
        };
        let entry = AuditEntry {
            id: entry_id,
            timestamp: now,
            event_type: event_type,
            actor: actor,
            resource_type: resource_type,
            resource_id: resource_id,
            action: action,
            details: details,
            metadata: metadata,
            hash: entry_hash.clone(),
            previous_hash: match &self.last_entry_hash {
                Some(h) => Some(h.clone()),
                None => None,
            },
            compliance_relevant: compliance_relevant,
            retention_until: retention_until,
        };
        let ghost e = entry@;
        let ghost v0 = old(self)@;
        proof {
            assert(opt_text(self.last_entry_hash) == chain_tail(v0.entries));
            assert(e == built_entry(
                v0.entries,
                e.id,
                now,
                event_type,
                e.actor,
                resource_type,
                e.resource_id,
                e.action,
                e.details,
                e.metadata,
                compliance_relevant,
                v0.settings.retention_days,
            ));
        }
        self.entries.push(entry);
        let n = self.entries.len();
        self.last_entry_hash = Some(entry_hash);
        self.entry_counter = n as u64;
        proof {
            assert(entry_views(self.entries@) =~= v0.entries.push(e));
            lemma_chain_push(v0.entries, e);
            assert forall|i: int, j: int|
                0 <= i < j < final(self)@.entries.len() implies (
            #[trigger] final(self)@.entries[i].id) != (#[trigger] final(self)@.entries[j].id) by {
                if j < v0.entries.len() {
                    assert(v0.entries[i].id != v0.entries[j].id);
                } else {
                    assert(id_fresh(v0.entries, e.id));
                    assert(v0.entries[i].id != e.id);
                }
            }
            assert(final(self)@ == appended(
                v0,
                e.id,
                now,
                event_type,
                e.actor,
                resource_type,
                e.resource_id,
                e.action,
                e.details,
                e.metadata,
                compliance_relevant,
            ));
        }
        true
    }
}

/// Relies on `uuid::Uuid::new_v4`, rendered in the hyphenated form: a random
/// identifier. Nothing is assumed of its value beyond the 36-character
/// length of that form; freshness is checked against the store by callers.
#[verifier::external_body]
fn fresh_uuid() -> (r: String)
    ensures
        r@.len() == 36,
{
    uuid::Uuid::new_v4().to_string()
}

/// The ledger after recording the fact of a read: an audit-access entry
/// stamped `now`, naming the reader, the operation used and the resource
/// read. Always compliance-relevant.
pub open spec fn access_logged(
    v: AuditLedgerView,
    actor: Seq<char>,
    method: Seq<char>,
    resource_id: Seq<char>,
    access_id: Seq<char>,
    now: u64,
) -> AuditLedgerView {
    appended(
        v,
        access_id,
        now,
        EventType::AuditAccess,
        actor,
        ResourceType::AuditLog,
        resource_id,
        method,
        "Audit access via method: "@ + method,
        empty_metadata(),
        true,
    )
}

/// The view of optional metadata: absent metadata stands for the empty one.
pub open spec fn md_view(m: Option<AuditMetadata>) -> AuditMetadataView {
    match m {
        Some(m) => m@,
        None => empty_metadata(),
    }
}

/// The ids handed to [`AuditLedger::log_audit_event_with_ids`] are usable:
/// the entry id is fresh, and, when access logging is on, so is the access
/// id, distinct from the entry id.
pub open spec fn log_event_ids_ok(
    v: AuditLedgerView,
    entry_id: Seq<char>,
    access_id: Seq<char>,
) -> bool {
    &&& id_fresh(v.entries, entry_id)
    &&& (v.settings.audit_access_logging ==> id_fresh(v.entries, access_id) && access_id
        != entry_id)
}

/// The ledger after the public logging operation: the new entry is appended,
/// and, when access logging is on, the fact of the write is recorded as one
/// further audit-access entry.
pub open spec fn log_event_outcome(
    v: AuditLedgerView,
    caller: Seq<char>,
    now: u64,
    event_type: EventType,
    resource_type: ResourceType,
    resource_id: Seq<char>,
    action: Seq<char>,
    details: Seq<char>,
    metadata: AuditMetadataView,
    compliance_relevant: bool,
    entry_id: Seq<char>,
    access_id: Seq<char>,
) -> AuditLedgerView {
    let v1 = appended(
        v,
        entry_id,
        now,
        event_type,
        caller,
        resource_type,
        resource_id,
        action,
        details,
        metadata,
        compliance_relevant,
    );
    if v.settings.audit_access_logging {
        access_logged(v1, caller, "log_audit_event"@, entry_id, access_id, now)
    } else {
        v1
    }
}

/// An id fresh before an append, and distinct from the appended entry's id,
/// is fresh after it.
proof fn lemma_fresh_after_push(s: Seq<AuditEntryView>, e: AuditEntryView, id: Seq<char>)
    requires
        id_fresh(s, id),
        e.id != id,
    ensures
        id_fresh(s.push(e), id),
{
    assert forall|i: int| 0 <= i < s.push(e).len() implies (#[trigger] s.push(e)[i].id) != id by {
        if i < s.len() {
            assert(s[i].id != id);
        }
    }
}

impl AuditLedger {
    /// A fresh ledger, initialized by `deployer` at time `now`: the deployer
    /// is seeded as the first auditor, the settings start at their defaults,
    /// and the initialization itself is recorded as the first chain entry,
    /// under the given id.
    pub fn init(deployer: String, now: u64, entry_id: String) -> (l: AuditLedger)
        requires
            retention_fits(default_settings(), now),
        ensures
            l@.wf(),
            l@ == init_outcome(deployer@, now, entry_id@),
    {
        let deployer_copy = deployer.clone();
        let mut l = AuditLedger {
            entries: Vec::new(),
            reports: Vec::new(),
            last_entry_hash: None,
            settings: AuditSettings::default(),
            auditors: Vec::new(),
            entry_counter: 0,
        };
        l.auditors.push(
            Auditor { principal: deployer, name: String::from_str("System Administrator") },
        );
        proof {
            assert(l@.entries =~= Seq::<AuditEntryView>::empty());
            assert(l@.reports =~= Seq::<ComplianceReportView>::empty());
            assert(l@.auditors =~= seq![(deployer_copy@, "System Administrator"@)]);
            assert(l@.wf());
        }
        let ok = l.create_audit_entry(
            entry_id,
            now,
            EventType::SystemConfiguration,
            deployer_copy,
            ResourceType::System,
            String::from_str("audit_trail_canister"),
            String::from_str("initialization"),
            String::from_str("Audit Trail canister initialized"),
            AuditMetadata::default(),
            true,
        );
        proof {
            assert(ok);
        }
        l
    }

    /// Records the fact of a read or administrative access: an audit-access
    /// entry appended through the internal choke point, deliberately not
    /// through the public logging operation, so that recording an access
    /// never triggers recording of itself. Rejects an id a stored entry
    /// already carries, leaving the ledger unchanged.
    pub fn log_audit_access(
        &mut self,
        actor: String,
        method: &str,
        resource_id: String,
        access_id: String,
        now: u64,
    ) -> (ok: bool)
        requires
            old(self)@.wf(),
            retention_fits(old(self)@.settings, now),
        ensures
            final(self)@.wf(),
            ok == id_fresh(old(self)@.entries, access_id@),
            ok ==> final(self)@ == access_logged(
                old(self)@,
                actor@,
                method@,
                resource_id@,
                access_id@,
                now,
            ),
            !ok ==> final(self)@ == old(self)@,
    {
        let details = String::from_str("Audit access via method: ").concat(method);
        self.create_audit_entry(
            access_id,
            now,
            EventType::AuditAccess,
            actor,
            ResourceType::AuditLog,
            resource_id,
            String::from_str(method),
            details,
            AuditMetadata::default(),
            true,
        )
    }

    /// The public logging operation, under caller-supplied ids: appends the
    /// entry built from the given fields, then, when access logging is on,
    /// records the fact of the write as one audit-access entry under
    /// `access_id`. Open to any caller. Fails only on an id a stored entry
    /// already carries, leaving the ledger unchanged.
    pub fn log_audit_event_with_ids(
        &mut self,
        caller: String,
        now: u64,
        event_type: EventType,
        resource_type: ResourceType,
        resource_id: String,
        action: String,
        details: String,
        metadata: Option<AuditMetadata>,
        compliance_relevant: bool,
        entry_id: String,
        access_id: String,
    ) -> (r: Result<String, String>)
        requires
            old(self)@.wf(),
            compliance_relevant || old(self)@.settings.audit_access_logging ==> retention_fits(
                old(self)@.settings,
                now,
            ),
        ensures
            final(self)@.wf(),
            r is Ok <==> log_event_ids_ok(old(self)@, entry_id@, access_id@),
            r matches Ok(id) ==> id@ == entry_id@ && final(self)@ == log_event_outcome(
                old(self)@,
                caller@,
                now,
                event_type,
                resource_type,
                resource_id@,
                action@,
                details@,
                md_view(metadata),
                compliance_relevant,
                entry_id@,
                access_id@,
            ),
            r matches Err(m) ==> m@ == "Duplicate entry id"@ && final(self)@ == old(self)@,
    {
        let ghost v0 = old(self)@;
        if contains_entry_id(&self.entries, &entry_id) {
            return Err(String::from_str("Duplicate entry id"));
        }
        if self.settings.audit_access_logging {
            if contains_entry_id(&self.entries, &access_id) || access_id.eq(&entry_id) {
                return Err(String::from_str("Duplicate entry id"));
            }
        }
        let returned_id = entry_id.clone();
        let caller_copy = caller.clone();
        let audit_metadata = match metadata {
            Some(m) => m,
            None => AuditMetadata::default(),
        };
        let access_logging = self.settings.audit_access_logging;
        let entry_id_for_access = entry_id.clone();
        let ok = self.create_audit_entry(
            entry_id,
            now,
            event_type,
            caller,
            resource_type,
            resource_id,
            action,
            details,
            audit_metadata,
            compliance_relevant,
        );
        proof {
            assert(ok);
        }
        if access_logging {
            proof {
                let e = self@.entries.last();
                lemma_fresh_after_push(v0.entries, e, access_id@);
            }
            let ok2 = self.log_audit_access(
                caller_copy,
                "log_audit_event",
                entry_id_for_access,
                access_id,
                now,
            );
            proof {
                assert(ok2);
            }
        }
        Ok(returned_id)
    }

    /// The public logging operation: appends the entry built from the given
    /// fields under a freshly drawn id, then, when access logging is on,
    /// records the fact of the write as one audit-access entry. Open to any
    /// caller; this is how collaborating modules record facts.
    pub fn log_audit_event(
        &mut self,
        caller: String,
        now: u64,
        event_type: EventType,
        resource_type: ResourceType,
        resource_id: String,
        action: String,
        details: String,
        metadata: Option<AuditMetadata>,
        compliance_relevant: bool,
    ) -> (r: Result<String, String>)
        requires
            old(self)@.wf(),
            compliance_relevant || old(self)@.settings.audit_access_logging ==> retention_fits(
                old(self)@.settings,
                now,
            ),
        ensures
            final(self)@.wf(),
            r matches Ok(id) ==> exists|eid: Seq<char>, aid: Seq<char>|
                #![auto]
                log_event_ids_ok(old(self)@, eid, aid) && id@ == eid && final(self)@
                    == log_event_outcome(
                    old(self)@,
                    caller@,
                    now,
                    event_type,
                    resource_type,
                    resource_id@,
                    action@,
                    details@,
                    md_view(metadata),
                    compliance_relevant,
                    eid,
                    aid,
                ),
            r is Err ==> final(self)@ == old(self)@,
    {
        let entry_id = fresh_uuid();
        let access_id = fresh_uuid();
        self.log_audit_event_with_ids(
            caller,
            now,
            event_type,
            resource_type,
            resource_id,
            action,
            details,
            metadata,
            compliance_relevant,
            entry_id,
            access_id,
        )
    }
}

/// The first stored entry carrying the given id, when any.
pub open spec fn find_entry(s: Seq<AuditEntryView>, id: Seq<char>) -> Option<AuditEntryView>
    decreases s.len(),
{
    if s.len() == 0 {
        None
    } else if s[0].id == id {
        Some(s[0])
    } else {
        find_entry(s.skip(1), id)
    }
}

/// When every entry before position `i` carries another id, the lookup is
/// decided at `i`: found there, or absent when `i` is the end.
proof fn lemma_find_entry_at(s: Seq<AuditEntryView>, id: Seq<char>, i: int)
    requires
        0 <= i <= s.len(),
        forall|k: int| 0 <= k < i ==> (#[trigger] s[k].id) != id,
    ensures
        i < s.len() && s[i].id == id ==> find_entry(s, id) == Some(s[i]),
        i == s.len() ==> find_entry(s, id) is None,
    decreases i,
{
    if i > 0 {
        assert(s[0].id != id);
        assert forall|k: int| 0 <= k < i - 1 implies (#[trigger] s.skip(1)[k].id) != id by {
            assert(s.skip(1)[k] == s[k + 1]);
        }
        lemma_find_entry_at(s.skip(1), id, i - 1);
        if i < s.len() && s[i].id == id {
            assert(s.skip(1)[i - 1] == s[i]);
        }
        assert(find_entry(s, id) == find_entry(s.skip(1), id));
    }
}

/// The first stored entry carrying the given id, cloned out of the store.
fn lookup_entry(entries: &Vec<AuditEntry>, id: &String) -> (r: Option<AuditEntry>)
    ensures
        match find_entry(entry_views(entries@), id@) {
            Some(e) => r matches Some(x) && x@ == e,
            None => r is None,
        },
{
    let ghost s = entry_views(entries@);
    let mut i: usize = 0;
    while i < entries.len()
        invariant
            i <= entries@.len(),
            s == entry_views(entries@),
            forall|k: int| 0 <= k < i ==> (#[trigger] s[k].id) != id@,
        decreases entries@.len() - i,
    {
        if entries[i].id.eq(id) {
            proof {
                assert(s[i as int].id == id@);
                lemma_find_entry_at(s, id@, i as int);
            }
            return Some(entries[i].clone());
        }
        i = i + 1;
    }
    proof {
        lemma_find_entry_at(s, id@, s.len() as int);
    }
    None
}

impl AuditLedger {
    /// Filters and paginates the stored entries for an auditor, under a
    /// caller-supplied access id. A caller who is not an auditor receives an
    /// empty list and nothing else, and the ledger is unchanged. For an
    /// auditor, the fact of the read is first recorded as an audit-access
    /// entry (under `access_id`, skipped if that id is already in use), and
    /// the result holds exactly the entries of the ledger so read — the
    /// access entry included — that satisfy the query, ordered by timestamp
    /// descending, paginated by the query's offset and limit.
    pub fn query_audit_entries_with_id(
        &mut self,
        caller: String,
        now: u64,
        access_id: String,
        query: &crate::types::AuditQuery,
    ) -> (r: Vec<AuditEntry>)
        requires
            old(self)@.wf(),
            is_auditor(old(self)@, caller@) ==> retention_fits(old(self)@.settings, now),
        ensures
            final(self)@.wf(),
            !is_auditor(old(self)@, caller@) ==> final(self)@ == old(self)@ && r@.len() == 0,
            is_auditor(old(self)@, caller@) && id_fresh(old(self)@.entries, access_id@) ==> final(self)@ == access_logged(
                old(self)@,
                caller@,
                "query_audit_entries"@,
                "multiple"@,
                access_id@,
                now,
            ),
            is_auditor(old(self)@, caller@) && !id_fresh(old(self)@.entries, access_id@) ==> final(self)@ == old(self)@,
            is_auditor(old(self)@, caller@) ==> entry_views(r@) == crate::query::query_results(
                final(self)@.entries,
                query@,
            ),
    {
        if !self.is_authorized_auditor(&caller) {
            return Vec::new();
        }
        self.log_audit_access(
            caller,
            "query_audit_entries",
            String::from_str("multiple"),
            access_id,
            now,
        );
        crate::query::run_query(&self.entries, query)
    }

    /// Filters and paginates the stored entries for an auditor, the access
    /// entry drawn under a fresh id. See
    /// [`AuditLedger::query_audit_entries_with_id`].
    pub fn query_audit_entries(
        &mut self,
        caller: String,
        now: u64,
        query: &crate::types::AuditQuery,
    ) -> (r: Vec<AuditEntry>)
        requires
            old(self)@.wf(),
            is_auditor(old(self)@, caller@) ==> retention_fits(old(self)@.settings, now),
        ensures
            final(self)@.wf(),
            !is_auditor(old(self)@, caller@) ==> final(self)@ == old(self)@ && r@.len() == 0,
            is_auditor(old(self)@, caller@) ==> exists|aid: Seq<char>|
                #![auto]
                final(self)@ == (if id_fresh(old(self)@.entries, aid) {
                    access_logged(
                        old(self)@,
                        caller@,
                        "query_audit_entries"@,
                        "multiple"@,
                        aid,
                        now,
                    )
                } else {
                    old(self)@
                }),
            is_auditor(old(self)@, caller@) ==> entry_views(r@) == crate::query::query_results(
                final(self)@.entries,
                query@,
            ),
    {
        let access_id = fresh_uuid();
        self.query_audit_entries_with_id(caller, now, access_id, query)
    }

    /// Fetches the stored entry with the given id for an auditor, under a
    /// caller-supplied access id. A caller who is not an auditor receives
    /// nothing — the same answer as for an absent id — and the ledger is
    /// unchanged. For an auditor, the fact of the read is first recorded as
    /// an audit-access entry naming the id read, and the result is the
    /// stored entry carrying that id, when there is one.
    pub fn get_audit_entry_with_id(
        &mut self,
        caller: String,
        now: u64,
        access_id: String,
        entry_id: &String,
    ) -> (r: Option<AuditEntry>)
        requires
            old(self)@.wf(),
            is_auditor(old(self)@, caller@) ==> retention_fits(old(self)@.settings, now),
        ensures
            final(self)@.wf(),
            !is_auditor(old(self)@, caller@) ==> final(self)@ == old(self)@ && r is None,
            is_auditor(old(self)@, caller@) && id_fresh(old(self)@.entries, access_id@) ==> final(self)@ == access_logged(
                old(self)@,
                caller@,
                "get_audit_entry"@,
                entry_id@,
                access_id@,
                now,
            ),
            is_auditor(old(self)@, caller@) && !id_fresh(old(self)@.entries, access_id@) ==> final(self)@ == old(self)@,
            is_auditor(old(self)@, caller@) ==> match find_entry(final(self)@.entries, entry_id@) {
                Some(e) => r matches Some(x) && x@ == e,
                None => r is None,
            },
    {
        if !self.is_authorized_auditor(&caller) {
            return None;
        }
        self.log_audit_access(
            caller,
            "get_audit_entry",
            entry_id.clone(),
            access_id,
            now,
        );
        lookup_entry(&self.entries, entry_id)
    }

    /// Fetches the stored entry with the given id for an auditor, the
    /// access entry drawn under a fresh id. See
    /// [`AuditLedger::get_audit_entry_with_id`].
    pub fn get_audit_entry(&mut self, caller: String, now: u64, entry_id: &String) -> (r: Option<
        AuditEntry,
    >)
        requires
            old(self)@.wf(),
            is_auditor(old(self)@, caller@) ==> retention_fits(old(self)@.settings, now),
        ensures
            final(self)@.wf(),
            !is_auditor(old(self)@, caller@) ==> final(self)@ == old(self)@ && r is None,
            is_auditor(old(self)@, caller@) ==> exists|aid: Seq<char>|
                #![auto]
                final(self)@ == (if id_fresh(old(self)@.entries, aid) {
                    access_logged(old(self)@, caller@, "get_audit_entry"@, entry_id@, aid, now)
                } else {
                    old(self)@
                }),
            is_auditor(old(self)@, caller@) ==> match find_entry(final(self)@.entries, entry_id@) {
                Some(e) => r matches Some(x) && x@ == e,
                None => r is None,
            },
    {
        let access_id = fresh_uuid();
        self.get_audit_entry_with_id(caller, now, access_id, entry_id)
    }

    /// Replays the whole ledger for an auditor, under a caller-supplied
    /// access id. A caller who is not an auditor receives the unauthorized
    /// error. For an auditor, the fact of the read is first recorded as an
    /// audit-access entry; the replay then runs over the ledger so read —
    /// the access entry included — and, the chain invariant holding of every
    /// ledger this library builds, it always succeeds.
    pub fn verify_audit_chain_with_id(&mut self, caller: String, now: u64, access_id: String) -> (r:
        Result<String, String>)
        requires
            old(self)@.wf(),
            is_auditor(old(self)@, caller@) ==> retention_fits(old(self)@.settings, now),
        ensures
            final(self)@.wf(),
            !is_auditor(old(self)@, caller@) ==> final(self)@ == old(self)@,
            !is_auditor(old(self)@, caller@) ==> (r matches Err(m) && m@ == "Unauthorized access"@),
            is_auditor(old(self)@, caller@) && id_fresh(old(self)@.entries, access_id@) ==> final(self)@ == access_logged(
                old(self)@,
                caller@,
                "verify_audit_chain"@,
                "chain_verification"@,
                access_id@,
                now,
            ),
            is_auditor(old(self)@, caller@) && !id_fresh(old(self)@.entries, access_id@) ==> final(self)@ == old(self)@,
            is_auditor(old(self)@, caller@) ==> (r matches Ok(m) && m@ == crate::chain::chain_ok_msg()),
    {
        if !self.is_authorized_auditor(&caller) {
            return Err(String::from_str("Unauthorized access"));
        }
        self.log_audit_access(
            caller,
            "verify_audit_chain",
            String::from_str("chain_verification"),
            access_id,
            now,
        );
        let r = crate::chain::verify_entries(&self.entries);
        proof {
            assert(valid_chain(self@.entries));
            crate::chain::lemma_verify_outcome_ok(self@.entries);
            assert(r is Ok);
        }
        r
    }

    /// Replays the whole ledger for an auditor, the access entry drawn under
    /// a fresh id. See [`AuditLedger::verify_audit_chain_with_id`].
    pub fn verify_audit_chain(&mut self, caller: String, now: u64) -> (r: Result<String, String>)
        requires
            old(self)@.wf(),
            is_auditor(old(self)@, caller@) ==> retention_fits(old(self)@.settings, now),
        ensures
            final(self)@.wf(),
            !is_auditor(old(self)@, caller@) ==> final(self)@ == old(self)@,
            !is_auditor(old(self)@, caller@) ==> (r matches Err(m) && m@ == "Unauthorized access"@),
            is_auditor(old(self)@, caller@) ==> (r matches Ok(m) && m@ == crate::chain::chain_ok_msg()),
            is_auditor(old(self)@, caller@) ==> exists|aid: Seq<char>|
                #![auto]
                final(self)@ == (if id_fresh(old(self)@.entries, aid) {
                    access_logged(
                        old(self)@,
                        caller@,
                        "verify_audit_chain"@,
                        "chain_verification"@,
                        aid,
                        now,
                    )
                } else {
                    old(self)@
                }),
    {
        let access_id = fresh_uuid();
        self.verify_audit_chain_with_id(caller, now, access_id)
    }
}

/// The summary text of a compliance report over a period.
pub open spec fn report_summary_text(start: u64, end: u64, count: u32) -> Seq<char> {
    "Compliance report covering period "@ + dec_str(start as int) + " to "@ + dec_str(end as int)
        + " with "@ + dec_str(count as int) + " relevant entries"@
}

/// The canonical byte string a report digest is computed over: the report
/// id's UTF-8 bytes, the generation time's big-endian bytes, the summary's
/// UTF-8 bytes and the entry count's big-endian bytes.
#[verifier::opaque]
pub open spec fn report_hash_input(
    id: Seq<char>,
    now: u64,
    summary: Seq<char>,
    count: u32,
) -> Seq<u8> {
    encode_utf8(id) + be_bytes_u64(now) + encode_utf8(summary) + be_bytes_u32(count)
}

/// The canonical digest of a report, rendered as lowercase hexadecimal
/// text: SHA-256 over [`report_hash_input`]. It is not linked into the entry
/// chain; it detects tampering of the report object itself.
pub open spec fn report_hash_text(
    id: Seq<char>,
    now: u64,
    summary: Seq<char>,
    count: u32,
) -> Seq<char> {
    crate::crypto::hex_of(crate::crypto::sha256_of(report_hash_input(id, now, summary, count)))
}

/// An entry count clipped to the width of the report's count field.
pub open spec fn count_u32(n: nat) -> u32 {
    if n >= 4294967295 {
        4294967295u32
    } else {
        n as u32
    }
}

/// The report built over a period: the count of compliance-relevant entries
/// in the window, the summary over it, and the report's own digest.
pub open spec fn built_report(
    id: Seq<char>,
    report_type: ReportType,
    start: u64,
    end: u64,
    now: u64,
    caller: Seq<char>,
    count: u32,
) -> ComplianceReportView {
    ComplianceReportView {
        id: id,
        report_type: report_type,
        period_start: start,
        period_end: end,
        generated_at: now,
        generated_by: caller,
        entries_count: count,
        summary: report_summary_text(start, end, count),
        hash: report_hash_text(id, now, report_summary_text(start, end, count), count),
        digital_signature: None,
    }
}

/// The filter a report runs: the period as the time window, compliance-
/// relevant entries only, no other criteria and no pagination.
pub open spec fn compliance_window_query(start: u64, end: u64) -> crate::types::AuditQueryView {
    crate::types::AuditQueryView {
        event_types: None,
        resource_types: None,
        actors: None,
        resource_ids: None,
        start_time: Some(start),
        end_time: Some(end),
        compliance_relevant_only: true,
        limit: None,
        offset: None,
    }
}

/// The details text of the entry recording a report generation.
pub open spec fn report_details_text(rt: ReportType, start: u64, end: u64) -> Seq<char> {
    "Generated "@ + crate::types::report_label_of(rt) + " compliance report for period "@
        + dec_str(start as int) + " to "@ + dec_str(end as int)
}

/// The ids handed to [`AuditLedger::generate_compliance_report_with_ids`]
/// are usable: the report id is fresh among reports, the three entry ids are
/// fresh among entries and pairwise distinct.
pub open spec fn report_ids_ok(
    v: AuditLedgerView,
    report_id: Seq<char>,
    query_access_id: Seq<char>,
    event_id: Seq<char>,
    event_access_id: Seq<char>,
) -> bool {
    &&& report_id_fresh(v.reports, report_id)
    &&& id_fresh(v.entries, query_access_id)
    &&& id_fresh(v.entries, event_id)
    &&& id_fresh(v.entries, event_access_id)
    &&& query_access_id != event_id
    &&& query_access_id != event_access_id
    &&& event_id != event_access_id
}

/// The ledger after a report is generated: the act of reading the window is
/// recorded as an audit-access entry; the report counts the compliance-
/// relevant entries then in the window (that access entry included, when it
/// falls inside); the report is stored; and the generation itself is
/// recorded as a compliance-check entry through the public logging
/// operation.
pub open spec fn generate_outcome(
    v: AuditLedgerView,
    caller: Seq<char>,
    now: u64,
    report_id: Seq<char>,
    query_access_id: Seq<char>,
    event_id: Seq<char>,
    event_access_id: Seq<char>,
    report_type: ReportType,
    start: u64,
    end: u64,
) -> AuditLedgerView {
    let v1 = access_logged(v, caller, "query_audit_entries"@, "multiple"@, query_access_id, now);
    let count = count_u32(
        crate::query::filtered(v1.entries, compliance_window_query(start, end)).len(),
    );
    let report = built_report(report_id, report_type, start, end, now, caller, count);
    let v2 = AuditLedgerView { reports: v1.reports.push(report), ..v1 };
    log_event_outcome(
        v2,
        caller,
        now,
        EventType::ComplianceCheck,
        ResourceType::ComplianceReport,
        report_id,
        "generate_report"@,
        report_details_text(report_type, start, end),
        empty_metadata(),
        true,
        event_id,
        event_access_id,
    )
}

/// Renders the summary text of a report.
fn build_summary(start: u64, end: u64, count: u32) -> (r: String)
    ensures
        r@ == report_summary_text(start, end, count),
{
    let mut s = String::from_str("Compliance report covering period ");
    s.append(u64_to_dec(start).as_str());
    s.append(" to ");
    s.append(u64_to_dec(end).as_str());
    s.append(" with ");
    s.append(u64_to_dec(count as u64).as_str());
    s.append(" relevant entries");
    s
}

/// Computes a report's own digest, rendered as lowercase hexadecimal text.
fn compute_report_hash(id: &String, now: u64, summary: &String, count: u32) -> (r: String)
    ensures
        r@ == report_hash_text(id@, now, summary@, count),
{
    let mut buf: Vec<u8> = Vec::new();
    crate::chain::push_bytes(&mut buf, id.as_str().as_bytes());
    push_be_bytes_u64(&mut buf, now);
    crate::chain::push_bytes(&mut buf, summary.as_str().as_bytes());
    push_be_bytes_u32(&mut buf, count);
    proof {
        reveal(report_hash_input);
        assert(buf@ =~= report_hash_input(id@, now, summary@, count));
    }
    let digest = crate::crypto::sha256(buf.as_slice());
    crate::crypto::to_hex(digest.as_slice())
}

/// The first stored report carrying the given id, when any.
pub open spec fn find_report(s: Seq<ComplianceReportView>, id: Seq<char>) -> Option<
    ComplianceReportView,
>
    decreases s.len(),
{
    if s.len() == 0 {
        None
    } else if s[0].id == id {
        Some(s[0])
    } else {
        find_report(s.skip(1), id)
    }
}

/// When every report before position `i` carries another id, the lookup is
/// decided at `i`.
proof fn lemma_find_report_at(s: Seq<ComplianceReportView>, id: Seq<char>, i: int)
    requires
        0 <= i <= s.len(),
        forall|k: int| 0 <= k < i ==> (#[trigger] s[k].id) != id,
    ensures
        i < s.len() && s[i].id == id ==> find_report(s, id) == Some(s[i]),
        i == s.len() ==> find_report(s, id) is None,
    decreases i,
{
    if i > 0 {
        assert(s[0].id != id);
        assert forall|k: int| 0 <= k < i - 1 implies (#[trigger] s.skip(1)[k].id) != id by {
            assert(s.skip(1)[k] == s[k + 1]);
        }
        lemma_find_report_at(s.skip(1), id, i - 1);
        if i < s.len() && s[i].id == id {
            assert(s.skip(1)[i - 1] == s[i]);
        }
        assert(find_report(s, id) == find_report(s.skip(1), id));
    }
}

/// The first stored report carrying the given id, cloned out of the store.
fn lookup_report(reports: &Vec<ComplianceReport>, id: &String) -> (r: Option<ComplianceReport>)
    ensures
        match find_report(report_views(reports@), id@) {
            Some(v) => r matches Some(x) && x@ == v,
            None => r is None,
        },
{
    let ghost s = report_views(reports@);
    let mut i: usize = 0;
    while i < reports.len()
        invariant
            i <= reports@.len(),
            s == report_views(reports@),
            forall|k: int| 0 <= k < i ==> (#[trigger] s[k].id) != id@,
        decreases reports@.len() - i,
    {
        if reports[i].id.eq(id) {
            proof {
                assert(s[i as int].id == id@);
                lemma_find_report_at(s, id@, i as int);
            }
            return Some(reports[i].clone());
        }
        i = i + 1;
    }
    proof {
        lemma_find_report_at(s, id@, s.len() as int);
    }
    None
}

impl AuditLedger {
    /// Generates a compliance report over `[period_start, period_end]` for
    /// an auditor, under caller-supplied ids. A caller who is not an auditor
    /// receives the unauthorized error and the ledger is unchanged. For an
    /// auditor the outcome is [`generate_outcome`]: the windowed read is
    /// recorded, the report counts the compliance-relevant entries then in
    /// the window, the report is stored under `report_id`, and the
    /// generation itself is recorded through the public logging operation.
    pub fn generate_compliance_report_with_ids(
        &mut self,
        caller: String,
        now: u64,
        report_type: ReportType,
        period_start: u64,
        period_end: u64,
        report_id: String,
        query_access_id: String,
        event_id: String,
        event_access_id: String,
    ) -> (r: Result<String, String>)
        requires
            old(self)@.wf(),
            is_auditor(old(self)@, caller@) ==> retention_fits(old(self)@.settings, now),
            is_auditor(old(self)@, caller@) ==> report_ids_ok(
                old(self)@,
                report_id@,
                query_access_id@,
                event_id@,
                event_access_id@,
            ),
        ensures
            final(self)@.wf(),
            !is_auditor(old(self)@, caller@) ==> final(self)@ == old(self)@,
            !is_auditor(old(self)@, caller@) ==> (r matches Err(m) && m@
                == "Unauthorized access"@),
            is_auditor(old(self)@, caller@) ==> (r matches Ok(id) && id@ == report_id@),
            is_auditor(old(self)@, caller@) ==> final(self)@ == generate_outcome(
                old(self)@,
                caller@,
                now,
                report_id@,
                query_access_id@,
                event_id@,
                event_access_id@,
                report_type,
                period_start,
                period_end,
            ),
    {
        let ghost v0 = old(self)@;
        if !self.is_authorized_auditor(&caller) {
            return Err(String::from_str("Unauthorized access"));
        }
        let query = crate::types::AuditQuery {
            event_types: None,
            resource_types: None,
            actors: None,
            resource_ids: None,
            start_time: Some(period_start),
            end_time: Some(period_end),
            compliance_relevant_only: true,
            limit: None,
            offset: None,
        };
        proof {
            assert(query@ == compliance_window_query(period_start, period_end));
        }
        let results = self.query_audit_entries_with_id(
            caller.clone(),
            now,
            query_access_id,
            &query,
        );
        let ghost v1 = self@;
        let ghost filtered_entries = crate::query::filtered(
            v1.entries,
            compliance_window_query(period_start, period_end),
        );
        proof {
            crate::query::lemma_sort_desc_len(filtered_entries);
            assert(crate::query::query_results(v1.entries, query@) =~= crate::query::sort_desc(
                filtered_entries,
            ));
            assert(entry_views(results@).len() == filtered_entries.len());
        }
        let n = results.len();
        let count: u32 = if n >= 4294967295 {
            4294967295
        } else {
            n as u32
        };
        proof {
            assert(count == count_u32(filtered_entries.len()));
        }
        let summary = build_summary(period_start, period_end, count);
        let report_hash = compute_report_hash(&report_id, now, &summary, count);
        let report = ComplianceReport {
            id: report_id.clone(),
            report_type: report_type,
            period_start: period_start,
            period_end: period_end,
            generated_at: now,
            generated_by: caller.clone(),
            entries_count: count,
            summary: summary,
            hash: report_hash,
            digital_signature: None,
        };
        let ghost rv = report@;
        self.reports.push(report);
        let ghost v2 = self@;
        proof {
            assert(v2.reports =~= v1.reports.push(rv));
            assert(v2 == AuditLedgerView { reports: v1.reports.push(rv), ..v1 });
            assert(rv == built_report(
                report_id@,
                report_type,
                period_start,
                period_end,
                now,
                caller@,
                count,
            ));
            assert forall|i: int, j: int|
                0 <= i < j < v2.reports.len() implies (#[trigger] v2.reports[i].id) != (
            #[trigger] v2.reports[j].id) by {
                if j < v1.reports.len() {
                    assert(v1.reports[i].id != v1.reports[j].id);
                } else {
                    assert(report_id_fresh(v0.reports, report_id@));
                    assert(v1.reports =~= v0.reports);
                    assert(v0.reports[i].id != report_id@);
                }
            }
            assert(v2.wf());
        }
        let details = {
            let mut d = String::from_str("Generated ");
            d.append(crate::types::report_label(&report_type));
            d.append(" compliance report for period ");
            d.append(u64_to_dec(period_start).as_str());
            d.append(" to ");
            d.append(u64_to_dec(period_end).as_str());
            d
        };
        proof {
            assert(details@ == report_details_text(report_type, period_start, period_end));
            assert(v2.entries == v1.entries);
            assert(v1.entries =~= v0.entries.push(v1.entries.last()));
            assert(v1.entries.last().id == query_access_id@);
            lemma_fresh_after_push(v0.entries, v1.entries.last(), event_id@);
            lemma_fresh_after_push(v0.entries, v1.entries.last(), event_access_id@);
            assert(log_event_ids_ok(v2, event_id@, event_access_id@));
        }
        let r2 = self.log_audit_event_with_ids(
            caller,
            now,
            EventType::ComplianceCheck,
            ResourceType::ComplianceReport,
            report_id.clone(),
            String::from_str("generate_report"),
            details,
            None,
            true,
            event_id,
            event_access_id,
        );
        proof {
            assert(r2 is Ok);
        }
        Ok(report_id)
    }

    /// Fetches the stored report with the given id for an auditor, under a
    /// caller-supplied access id. A caller who is not an auditor receives
    /// nothing — the same answer as for an absent id — and the ledger is
    /// unchanged. For an auditor the read is first recorded, then the stored
    /// report carrying the id is returned, when there is one.
    pub fn get_compliance_report_with_id(
        &mut self,
        caller: String,
        now: u64,
        access_id: String,
        report_id: &String,
    ) -> (r: Option<ComplianceReport>)
        requires
            old(self)@.wf(),
            is_auditor(old(self)@, caller@) ==> retention_fits(old(self)@.settings, now),
        ensures
            final(self)@.wf(),
            !is_auditor(old(self)@, caller@) ==> final(self)@ == old(self)@ && r is None,
            is_auditor(old(self)@, caller@) && id_fresh(old(self)@.entries, access_id@) ==> final(self)@ == access_logged(
                old(self)@,
                caller@,
                "get_compliance_report"@,
                report_id@,
                access_id@,
                now,
            ),
            is_auditor(old(self)@, caller@) && !id_fresh(old(self)@.entries, access_id@) ==> final(self)@ == old(self)@,
            is_auditor(old(self)@, caller@) ==> match find_report(
                final(self)@.reports,
                report_id@,
            ) {
                Some(v) => r matches Some(x) && x@ == v,
                None => r is None,
            },
    {
        if !self.is_authorized_auditor(&caller) {
            return None;
        }
        self.log_audit_access(
            caller,
            "get_compliance_report",
            report_id.clone(),
            access_id,
            now,
        );
        lookup_report(&self.reports, report_id)
    }

    /// Lists every stored report for an auditor, under a caller-supplied
    /// access id. A caller who is not an auditor receives an empty list and
    /// the ledger is unchanged. For an auditor the read is first recorded,
    /// then every stored report is returned, in storage order.
    pub fn list_compliance_reports_with_id(
        &mut self,
        caller: String,
        now: u64,
        access_id: String,
    ) -> (r: Vec<ComplianceReport>)
        requires
            old(self)@.wf(),
            is_auditor(old(self)@, caller@) ==> retention_fits(old(self)@.settings, now),
        ensures
            final(self)@.wf(),
            !is_auditor(old(self)@, caller@) ==> final(self)@ == old(self)@ && r@.len() == 0,
            is_auditor(old(self)@, caller@) && id_fresh(old(self)@.entries, access_id@) ==> final(self)@ == access_logged(
                old(self)@,
                caller@,
                "list_compliance_reports"@,
                "all_reports"@,
                access_id@,
                now,
            ),
            is_auditor(old(self)@, caller@) && !id_fresh(old(self)@.entries, access_id@) ==> final(self)@ == old(self)@,
            is_auditor(old(self)@, caller@) ==> report_views(r@) == final(self)@.reports,
    {
        if !self.is_authorized_auditor(&caller) {
            return Vec::new();
        }
        self.log_audit_access(
            caller,
            "list_compliance_reports",
            String::from_str("all_reports"),
            access_id,
            now,
        );
        let mut r: Vec<ComplianceReport> = Vec::new();
        let mut i: usize = 0;
        let ghost mid = self@;
        while i < self.reports.len()
            invariant
                self@ == mid,
                i <= self.reports@.len(),
                report_views(r@) == mid.reports.take(i as int),
            decreases self.reports@.len() - i,
        {
            let item = self.reports[i].clone();
            let ghost rv0 = report_views(r@);
            proof {
                assert(item@ == mid.reports[i as int]);
            }
            r.push(item);
            proof {
                assert(report_views(r@) =~= rv0.push(mid.reports[i as int]));
                assert(mid.reports.take(i as int).push(mid.reports[i as int]) =~= mid.reports.take(
                    i + 1 as int,
                ));
            }
            i = i + 1;
        }
        proof {
            assert(mid.reports.take(mid.reports.len() as int) =~= mid.reports);
        }
        r
    }
}

/// The position of the first registered auditor with the given identity;
/// the registry's length when there is none.
pub open spec fn auditor_idx(s: Seq<(Seq<char>, Seq<char>)>, p: Seq<char>) -> int
    decreases s.len(),
{
    if s.len() == 0 {
        0
    } else if s[0].0 == p {
        0
    } else {
        1 + auditor_idx(s.skip(1), p)
    }
}

/// The registry after granting `p` auditor capability under display name
/// `n`: the name is replaced when `p` is already registered, and `(p, n)`
/// appended otherwise.
pub open spec fn auditors_upsert(
    s: Seq<(Seq<char>, Seq<char>)>,
    p: Seq<char>,
    n: Seq<char>,
) -> Seq<(Seq<char>, Seq<char>)> {
    if auditor_idx(s, p) < s.len() {
        s.update(auditor_idx(s, p), (p, n))
    } else {
        s.push((p, n))
    }
}

/// When every registered auditor before position `i` has another identity,
/// the position of `p` is decided at `i`.
proof fn lemma_auditor_idx_at(s: Seq<(Seq<char>, Seq<char>)>, p: Seq<char>, i: int)
    requires
        0 <= i <= s.len(),
        forall|k: int| 0 <= k < i ==> (#[trigger] s[k]).0 != p,
    ensures
        i < s.len() && s[i].0 == p ==> auditor_idx(s, p) == i,
        i == s.len() ==> auditor_idx(s, p) == s.len(),
    decreases i,
{
    if i > 0 {
        assert(s[0].0 != p);
        assert forall|k: int| 0 <= k < i - 1 implies (#[trigger] s.skip(1)[k]).0 != p by {
            assert(s.skip(1)[k] == s[k + 1]);
        }
        lemma_auditor_idx_at(s.skip(1), p, i - 1);
        if i < s.len() && s[i].0 == p {
            assert(s.skip(1)[i - 1] == s[i]);
        }
    }
}

/// The ledger after an auditor is added: the registry is updated, and the
/// addition is recorded through the public logging operation.
pub open spec fn add_auditor_outcome(
    v: AuditLedgerView,
    caller: Seq<char>,
    now: u64,
    auditor: Seq<char>,
    name: Seq<char>,
    event_id: Seq<char>,
    event_access_id: Seq<char>,
) -> AuditLedgerView {
    let v1 = AuditLedgerView { auditors: auditors_upsert(v.auditors, auditor, name), ..v };
    log_event_outcome(
        v1,
        caller,
        now,
        EventType::SystemConfiguration,
        ResourceType::User,
        auditor,
        "add_auditor"@,
        "Added auditor: "@ + name,
        empty_metadata(),
        true,
        event_id,
        event_access_id,
    )
}

/// The ledger after the settings are replaced: the new settings take effect
/// at once, and the change is recorded through the public logging operation
/// under the new settings.
pub open spec fn update_settings_outcome(
    v: AuditLedgerView,
    caller: Seq<char>,
    now: u64,
    new_settings: AuditSettings,
    event_id: Seq<char>,
    event_access_id: Seq<char>,
) -> AuditLedgerView {
    log_event_outcome(
        AuditLedgerView { settings: new_settings, ..v },
        caller,
        now,
        EventType::SystemConfiguration,
        ResourceType::System,
        "audit_settings"@,
        "update_settings"@,
        "Updated audit trail settings"@,
        empty_metadata(),
        true,
        event_id,
        event_access_id,
    )
}

impl AuditLedger {
    /// Grants auditor capability for an auditor, under caller-supplied ids.
    /// A caller who is not an auditor receives the unauthorized error and
    /// the ledger is unchanged. For an auditor, the identity is registered
    /// (its display name replaced when already registered), and the addition
    /// is recorded through the public logging operation.
    pub fn add_auditor_with_ids(
        &mut self,
        caller: String,
        now: u64,
        auditor: String,
        name: String,
        event_id: String,
        event_access_id: String,
    ) -> (r: Result<String, String>)
        requires
            old(self)@.wf(),
            is_auditor(old(self)@, caller@) ==> retention_fits(old(self)@.settings, now),
            is_auditor(old(self)@, caller@) ==> log_event_ids_ok(
                old(self)@,
                event_id@,
                event_access_id@,
            ),
        ensures
            final(self)@.wf(),
            !is_auditor(old(self)@, caller@) ==> final(self)@ == old(self)@,
            !is_auditor(old(self)@, caller@) ==> (r matches Err(m) && m@
                == "Unauthorized access"@),
            is_auditor(old(self)@, caller@) ==> (r matches Ok(m) && m@
                == "Auditor added successfully"@),
            is_auditor(old(self)@, caller@) ==> final(self)@ == add_auditor_outcome(
                old(self)@,
                caller@,
                now,
                auditor@,
                name@,
                event_id@,
                event_access_id@,
            ),
    {
        let ghost v0 = old(self)@;
        if !self.is_authorized_auditor(&caller) {
            return Err(String::from_str("Unauthorized access"));
        }
        let auditor_copy = auditor.clone();
        let name_copy = name.clone();
        let ghost regs = v0.auditors;
        let mut j: usize = 0;
        let n = self.auditors.len();
        while j < n && !self.auditors[j].principal.eq(&auditor)
            invariant
                self@ == v0,
                regs == v0.auditors,
                n == self.auditors@.len(),
                j <= n,
                forall|k: int| 0 <= k < j ==> (#[trigger] regs[k]).0 != auditor@,
            decreases n - j,
        {
            proof {
                assert(regs[j as int].0 == self.auditors@[j as int].principal@);
            }
            j = j + 1;
        }
        proof {
            if j < n {
                assert(regs[j as int].0 == self.auditors@[j as int].principal@);
                assert(regs[j as int].0 == auditor@);
            }
            lemma_auditor_idx_at(regs, auditor@, j as int);
        }
        if j < n {
            self.auditors.remove(j);
            self.auditors.insert(j, Auditor { principal: auditor, name: name });
            proof {
                assert(self@.auditors =~= auditors_upsert(regs, auditor_copy@, name_copy@));
            }
        } else {
            self.auditors.push(Auditor { principal: auditor, name: name });
            proof {
                assert(self@.auditors =~= auditors_upsert(regs, auditor_copy@, name_copy@));
            }
        }
        proof {
            let upd = self@.auditors;
            assert forall|a: int, b: int|
                0 <= a < b < upd.len() implies (#[trigger] upd[a]).0 != (#[trigger] upd[b]).0 by {
                if auditor_idx(regs, auditor_copy@) < regs.len() {
                    assert(regs[auditor_idx(regs, auditor_copy@)].0 == auditor_copy@);
                    assert(regs[a].0 != regs[b].0);
                } else {
                    if b < regs.len() {
                        assert(regs[a].0 != regs[b].0);
                    } else {
                        assert(regs[a].0 != auditor_copy@);
                    }
                }
            }
            assert(self@ == AuditLedgerView {
                auditors: auditors_upsert(v0.auditors, auditor_copy@, name_copy@),
                ..v0
            });
        }
        let details = String::from_str("Added auditor: ").concat(name_copy.as_str());
        let r2 = self.log_audit_event_with_ids(
            caller,
            now,
            EventType::SystemConfiguration,
            ResourceType::User,
            auditor_copy,
            String::from_str("add_auditor"),
            details,
            None,
            true,
            event_id,
            event_access_id,
        );
        proof {
            assert(r2 is Ok);
        }
        Ok(String::from_str("Auditor added successfully"))
    }

    /// Replaces the settings for an auditor, under caller-supplied ids. A
    /// caller who is not an auditor receives the unauthorized error and the
    /// ledger is unchanged. For an auditor, the new settings take effect at
    /// once, and the change is recorded through the public logging operation
    /// under the new settings.
    pub fn update_audit_settings_with_ids(
        &mut self,
        caller: String,
        now: u64,
        new_settings: AuditSettings,
        event_id: String,
        event_access_id: String,
    ) -> (r: Result<String, String>)
        requires
            old(self)@.wf(),
            is_auditor(old(self)@, caller@) ==> retention_fits(new_settings, now),
            is_auditor(old(self)@, caller@) ==> log_event_ids_ok(
                AuditLedgerView { settings: new_settings, ..old(self)@ },
                event_id@,
                event_access_id@,
            ),
        ensures
            final(self)@.wf(),
            !is_auditor(old(self)@, caller@) ==> final(self)@ == old(self)@,
            !is_auditor(old(self)@, caller@) ==> (r matches Err(m) && m@
                == "Unauthorized access"@),
            is_auditor(old(self)@, caller@) ==> (r matches Ok(m) && m@
                == "Audit settings updated successfully"@),
            is_auditor(old(self)@, caller@) ==> final(self)@ == update_settings_outcome(
                old(self)@,
                caller@,
                now,
                new_settings,
                event_id@,
                event_access_id@,
            ),
    {
        let ghost v0 = old(self)@;
        if !self.is_authorized_auditor(&caller) {
            return Err(String::from_str("Unauthorized access"));
        }
        self.settings = new_settings;
        proof {
            assert(self@ == AuditLedgerView { settings: new_settings, ..v0 });
        }
        let r2 = self.log_audit_event_with_ids(
            caller,
            now,
            EventType::SystemConfiguration,
            ResourceType::System,
            String::from_str("audit_settings"),
            String::from_str("update_settings"),
            String::from_str("Updated audit trail settings"),
            None,
            true,
            event_id,
            event_access_id,
        );
        proof {
            assert(r2 is Ok);
        }
        Ok(String::from_str("Audit settings updated successfully"))
    }

    /// Reads the settings. An auditor sees the real configuration; any other
    /// caller receives the all-disabled settings, so that nothing about the
    /// real configuration is disclosed. The ledger is not changed and the
    /// read is not itself recorded.
    pub fn get_audit_settings(&self, caller: &String) -> (r: AuditSettings)
        ensures
            is_auditor(self@, caller@) ==> r == self@.settings,
            !is_auditor(self@, caller@) ==> r == disabled_settings(),
    {
        if self.is_authorized_auditor(caller) {
            self.settings
        } else {
            AuditSettings {
                retention_days: 0,
                auto_archive_enabled: false,
                compliance_reporting_enabled: false,
                real_time_alerts_enabled: false,
                hash_verification_enabled: false,
                digital_signatures_enabled: false,
                audit_access_logging: false,
            }
        }
    }
}

/// The number of stored entries recording events of the given kind.
pub open spec fn count_event(s: Seq<AuditEntryView>, ev: EventType) -> nat {
    s.filter(|e: AuditEntryView| e.event_type == ev).len()
}

/// The number of stored compliance-relevant entries.
pub open spec fn count_compliance(s: Seq<AuditEntryView>) -> nat {
    s.filter(|e: AuditEntryView| e.compliance_relevant).len()
}

/// Every event kind, in declaration order.
pub open spec fn all_event_types() -> Seq<EventType> {
    seq![
        EventType::AccountCreation,
        EventType::AccountModification,
        EventType::AccountClosure,
        EventType::TransactionInitiated,
        EventType::TransactionApproved,
        EventType::TransactionExecuted,
        EventType::TransactionRejected,
        EventType::ComplianceCheck,
        EventType::KycUpdate,
        EventType::RiskAssessment,
        EventType::EmergencyAction,
        EventType::SystemConfiguration,
        EventType::UserAuthentication,
        EventType::AccessGranted,
        EventType::AccessDenied,
        EventType::DataExport,
        EventType::DataModification,
        EventType::PolicyUpdate,
        EventType::AuditAccess,
    ]
}

/// One statistics pair per listed event kind with at least one entry: the
/// label prefixed with `event_type_`, and the count.
pub open spec fn event_stat_pairs(s: Seq<AuditEntryView>, kinds: Seq<EventType>) -> Seq<
    (Seq<char>, u64),
>
    decreases kinds.len(),
{
    if kinds.len() == 0 {
        Seq::empty()
    } else {
        let c = count_event(s, kinds.last());
        event_stat_pairs(s, kinds.drop_last()) + if c > 0 {
            seq![("event_type_"@ + crate::types::event_label_of(kinds.last()), c as u64)]
        } else {
            Seq::empty()
        }
    }
}

/// The ledger's statistics: the total entry count, the compliance-relevant
/// count, one count per event kind with at least one entry, and the report
/// count, in that order.
pub open spec fn stats_view(v: AuditLedgerView) -> Seq<(Seq<char>, u64)> {
    seq![
        ("total_entries"@, v.entries.len() as u64),
        ("compliance_entries"@, count_compliance(v.entries) as u64),
    ] + event_stat_pairs(v.entries, all_event_types()) + seq![
        ("compliance_reports"@, v.reports.len() as u64),
    ]
}

/// The views of a list of statistics pairs.
pub open spec fn stat_views(s: Seq<(String, u64)>) -> Seq<(Seq<char>, u64)> {
    s.map_values(|p: (String, u64)| (p.0@, p.1))
}

/// Counts the stored entries recording events of the given kind.
fn count_event_exec(entries: &Vec<AuditEntry>, ev: EventType) -> (r: u64)
    ensures
        r == count_event(entry_views(entries@), ev),
{
    let ghost s = entry_views(entries@);
    let ghost pred = |e: AuditEntryView| e.event_type == ev;
    let mut r: u64 = 0;
    let mut i: usize = 0;
    while i < entries.len()
        invariant
            i <= entries@.len(),
            s == entry_views(entries@),
            pred == (|e: AuditEntryView| e.event_type == ev),
            r <= i,
            r == s.take(i as int).filter(pred).len(),
        decreases entries@.len() - i,
    {
        proof {
            reveal(Seq::filter);
            assert(s.take(i + 1 as int).drop_last() =~= s.take(i as int));
            assert(s.take(i + 1 as int).last() == entries@[i as int]@);
        }
        if entries[i].event_type == ev {
            r = r + 1;
        }
        i = i + 1;
    }
    proof {
        assert(s.take(s.len() as int) =~= s);
    }
    r
}

/// Counts the stored compliance-relevant entries.
fn count_compliance_exec(entries: &Vec<AuditEntry>) -> (r: u64)
    ensures
        r == count_compliance(entry_views(entries@)),
{
    let ghost s = entry_views(entries@);
    let ghost pred = |e: AuditEntryView| e.compliance_relevant;
    let mut r: u64 = 0;
    let mut i: usize = 0;
    while i < entries.len()
        invariant
            i <= entries@.len(),
            s == entry_views(entries@),
            pred == (|e: AuditEntryView| e.compliance_relevant),
            r <= i,
            r == s.take(i as int).filter(pred).len(),
        decreases entries@.len() - i,
    {
        proof {
            reveal(Seq::filter);
            assert(s.take(i + 1 as int).drop_last() =~= s.take(i as int));
            assert(s.take(i + 1 as int).last() == entries@[i as int]@);
        }
        if entries[i].compliance_relevant {
            r = r + 1;
        }
        i = i + 1;
    }
    proof {
        assert(s.take(s.len() as int) =~= s);
    }
    r
}

/// Every event kind, in declaration order.
fn all_event_kinds() -> (r: Vec<EventType>)
    ensures
        r@ == all_event_types(),
{
    let mut r: Vec<EventType> = Vec::new();
    r.push(EventType::AccountCreation);
    r.push(EventType::AccountModification);
    r.push(EventType::AccountClosure);
    r.push(EventType::TransactionInitiated);
    r.push(EventType::TransactionApproved);
    r.push(EventType::TransactionExecuted);
    r.push(EventType::TransactionRejected);
    r.push(EventType::ComplianceCheck);
    r.push(EventType::KycUpdate);
    r.push(EventType::RiskAssessment);
    r.push(EventType::EmergencyAction);
    r.push(EventType::SystemConfiguration);
    r.push(EventType::UserAuthentication);
    r.push(EventType::AccessGranted);
    r.push(EventType::AccessDenied);
    r.push(EventType::DataExport);
    r.push(EventType::DataModification);
    r.push(EventType::PolicyUpdate);
    r.push(EventType::AuditAccess);
    proof {
        assert(r@ =~= all_event_types());
    }
    r
}

impl AuditLedger {
    /// Collects the ledger's statistics for an auditor, under a caller-
    /// supplied access id. A caller who is not an auditor receives an empty
    /// mapping and the ledger is unchanged. For an auditor the read is first
    /// recorded, then the result maps `total_entries`, `compliance_entries`,
    /// one `event_type_`-prefixed label per event kind with at least one
    /// entry, and `compliance_reports` to their counts over the ledger so
    /// read.
    pub fn get_audit_statistics_with_id(
        &mut self,
        caller: String,
        now: u64,
        access_id: String,
    ) -> (r: Vec<(String, u64)>)
        requires
            old(self)@.wf(),
            is_auditor(old(self)@, caller@) ==> retention_fits(old(self)@.settings, now),
        ensures
            final(self)@.wf(),
            !is_auditor(old(self)@, caller@) ==> final(self)@ == old(self)@ && r@.len() == 0,
            is_auditor(old(self)@, caller@) && id_fresh(old(self)@.entries, access_id@) ==> final(self)@ == access_logged(
                old(self)@,
                caller@,
                "get_audit_statistics"@,
                "statistics"@,
                access_id@,
                now,
            ),
            is_auditor(old(self)@, caller@) && !id_fresh(old(self)@.entries, access_id@) ==> final(self)@ == old(self)@,
            is_auditor(old(self)@, caller@) ==> stat_views(r@) == stats_view(final(self)@),
    {
        if !self.is_authorized_auditor(&caller) {
            return Vec::new();
        }
        self.log_audit_access(
            caller,
            "get_audit_statistics",
            String::from_str("statistics"),
            access_id,
            now,
        );
        let ghost mid = self@;
        let ghost s = self@.entries;
        let mut out: Vec<(String, u64)> = Vec::new();
        let total = self.entries.len();
        out.push((String::from_str("total_entries"), total as u64));
        let compliance = count_compliance_exec(&self.entries);
        out.push((String::from_str("compliance_entries"), compliance));
        let ghost base = seq![
            ("total_entries"@, s.len() as u64),
            ("compliance_entries"@, count_compliance(s) as u64),
        ];
        proof {
            assert(stat_views(out@) =~= base);
        }
        let kinds = all_event_kinds();
        let mut k: usize = 0;
        while k < kinds.len()
            invariant
                self@ == mid,
                s == mid.entries,
                k <= kinds@.len(),
                kinds@ == all_event_types(),
                base == seq![
                    ("total_entries"@, s.len() as u64),
                    ("compliance_entries"@, count_compliance(s) as u64),
                ],
                stat_views(out@) == base + event_stat_pairs(s, kinds@.take(k as int)),
            decreases kinds@.len() - k,
        {
            let c = count_event_exec(&self.entries, kinds[k]);
            let ghost before = stat_views(out@);
            proof {
                assert(kinds@.take(k + 1 as int).drop_last() =~= kinds@.take(k as int));
                assert(kinds@.take(k + 1 as int).last() == kinds@[k as int]);
            }
            if c > 0 {
                let mut label = String::from_str("event_type_");
                label.append(crate::types::event_label(&kinds[k]));
                out.push((label, c));
                proof {
                    assert(stat_views(out@) =~= before.push(
                        (
                            "event_type_"@ + crate::types::event_label_of(kinds@[k as int]),
                            count_event(s, kinds@[k as int]) as u64,
                        ),
                    ));
                    assert(stat_views(out@) =~= base + event_stat_pairs(
                        s,
                        kinds@.take(k + 1 as int),
                    ));
                }
            } else {
                proof {
                    assert(stat_views(out@) =~= base + event_stat_pairs(
                        s,
                        kinds@.take(k + 1 as int),
                    ));
                }
            }
            k = k + 1;
        }
        let report_count = self.reports.len();
        out.push((String::from_str("compliance_reports"), report_count as u64));
        proof {
            assert(kinds@.take(kinds@.len() as int) =~= kinds@);
            assert(stat_views(out@) =~= stats_view(mid));
        }
        out
    }
}

/// Whether a stored report already carries the given id.
fn contains_report_id(reports: &Vec<ComplianceReport>, id: &String) -> (r: bool)
    ensures
        r == !report_id_fresh(report_views(reports@), id@),
{
    let ghost s = report_views(reports@);
    let mut i: usize = 0;
    while i < reports.len()
        invariant
            i <= reports@.len(),
            s == report_views(reports@),
            forall|k: int| 0 <= k < i ==> (#[trigger] s[k].id) != id@,
        decreases reports@.len() - i,
    {
        if reports[i].id.eq(id) {
            proof {
                assert(s[i as int].id == id@);
            }
            return true;
        }
        i = i + 1;
    }
    false
}

impl AuditLedger {
    /// Generates a compliance report over the period for an auditor, its
    /// ids drawn fresh. See
    /// [`AuditLedger::generate_compliance_report_with_ids`].
    pub fn generate_compliance_report(
        &mut self,
        caller: String,
        now: u64,
        report_type: ReportType,
        period_start: u64,
        period_end: u64,
    ) -> (r: Result<String, String>)
        requires
            old(self)@.wf(),
            is_auditor(old(self)@, caller@) ==> retention_fits(old(self)@.settings, now),
        ensures
            final(self)@.wf(),
            !is_auditor(old(self)@, caller@) ==> final(self)@ == old(self)@,
            !is_auditor(old(self)@, caller@) ==> (r matches Err(m) && m@
                == "Unauthorized access"@),
            is_auditor(old(self)@, caller@) ==> (r matches Ok(id) ==> exists|
                qa: Seq<char>,
                ev: Seq<char>,
                ea: Seq<char>,
            |
                #![auto]
                report_ids_ok(old(self)@, id@, qa, ev, ea) && final(self)@ == generate_outcome(
                    old(self)@,
                    caller@,
                    now,
                    id@,
                    qa,
                    ev,
                    ea,
                    report_type,
                    period_start,
                    period_end,
                )),
            is_auditor(old(self)@, caller@) && r is Err ==> final(self)@ == old(self)@,
    {
        if !self.is_authorized_auditor(&caller) {
            return Err(String::from_str("Unauthorized access"));
        }
        let report_id = fresh_uuid();
        let query_access_id = fresh_uuid();
        let event_id = fresh_uuid();
        let event_access_id = fresh_uuid();
        if contains_report_id(&self.reports, &report_id) || contains_entry_id(
            &self.entries,
            &query_access_id,
        ) || contains_entry_id(&self.entries, &event_id) || contains_entry_id(
            &self.entries,
            &event_access_id,
        ) || query_access_id.eq(&event_id) || query_access_id.eq(&event_access_id)
            || event_id.eq(&event_access_id) {
            return Err(String::from_str("Duplicate entry id"));
        }
        self.generate_compliance_report_with_ids(
            caller,
            now,
            report_type,
            period_start,
            period_end,
            report_id,
            query_access_id,
            event_id,
            event_access_id,
        )
    }

    /// Fetches the stored report with the given id for an auditor, the
    /// access entry drawn under a fresh id. See
    /// [`AuditLedger::get_compliance_report_with_id`].
    pub fn get_compliance_report(
        &mut self,
        caller: String,
        now: u64,
        report_id: &String,
    ) -> (r: Option<ComplianceReport>)
        requires
            old(self)@.wf(),
            is_auditor(old(self)@, caller@) ==> retention_fits(old(self)@.settings, now),
        ensures
            final(self)@.wf(),
            !is_auditor(old(self)@, caller@) ==> final(self)@ == old(self)@ && r is None,
            is_auditor(old(self)@, caller@) ==> exists|aid: Seq<char>|
                #![auto]
                final(self)@ == (if id_fresh(old(self)@.entries, aid) {
                    access_logged(
                        old(self)@,
                        caller@,
                        "get_compliance_report"@,
                        report_id@,
                        aid,
                        now,
                    )
                } else {
                    old(self)@
                }),
            is_auditor(old(self)@, caller@) ==> match find_report(
                final(self)@.reports,
                report_id@,
            ) {
                Some(v) => r matches Some(x) && x@ == v,
                None => r is None,
            },
    {
        let access_id = fresh_uuid();
        self.get_compliance_report_with_id(caller, now, access_id, report_id)
    }

    /// Lists every stored report for an auditor, the access entry drawn
    /// under a fresh id. See
    /// [`AuditLedger::list_compliance_reports_with_id`].
    pub fn list_compliance_reports(&mut self, caller: String, now: u64) -> (r: Vec<
        ComplianceReport,
    >)
        requires
            old(self)@.wf(),
            is_auditor(old(self)@, caller@) ==> retention_fits(old(self)@.settings, now),
        ensures
            final(self)@.wf(),
            !is_auditor(old(self)@, caller@) ==> final(self)@ == old(self)@ && r@.len() == 0,
            is_auditor(old(self)@, caller@) ==> exists|aid: Seq<char>|
                #![auto]
                final(self)@ == (if id_fresh(old(self)@.entries, aid) {
                    access_logged(
                        old(self)@,
                        caller@,
                        "list_compliance_reports"@,
                        "all_reports"@,
                        aid,
                        now,
                    )
                } else {
                    old(self)@
                }),
            is_auditor(old(self)@, caller@) ==> report_views(r@) == final(self)@.reports,
    {
        let access_id = fresh_uuid();
        self.list_compliance_reports_with_id(caller, now, access_id)
    }

    /// Grants auditor capability, the log entry ids drawn fresh. See
    /// [`AuditLedger::add_auditor_with_ids`].
    pub fn add_auditor(
        &mut self,
        caller: String,
        now: u64,
        auditor: String,
        name: String,
    ) -> (r: Result<String, String>)
        requires
            old(self)@.wf(),
            is_auditor(old(self)@, caller@) ==> retention_fits(old(self)@.settings, now),
        ensures
            final(self)@.wf(),
            !is_auditor(old(self)@, caller@) ==> final(self)@ == old(self)@,
            !is_auditor(old(self)@, caller@) ==> (r matches Err(m) && m@
                == "Unauthorized access"@),
            is_auditor(old(self)@, caller@) ==> (r matches Ok(m) ==> m@
                == "Auditor added successfully"@ && exists|ev: Seq<char>, ea: Seq<char>|
                #![auto]
                log_event_ids_ok(old(self)@, ev, ea) && final(self)@ == add_auditor_outcome(
                    old(self)@,
                    caller@,
                    now,
                    auditor@,
                    name@,
                    ev,
                    ea,
                )),
            is_auditor(old(self)@, caller@) && r is Err ==> final(self)@ == old(self)@,
    {
        if !self.is_authorized_auditor(&caller) {
            return Err(String::from_str("Unauthorized access"));
        }
        let event_id = fresh_uuid();
        let event_access_id = fresh_uuid();
        if contains_entry_id(&self.entries, &event_id) {
            return Err(String::from_str("Duplicate entry id"));
        }
        if self.settings.audit_access_logging {
            if contains_entry_id(&self.entries, &event_access_id) || event_access_id.eq(
                &event_id,
            ) {
                return Err(String::from_str("Duplicate entry id"));
            }
        }
        self.add_auditor_with_ids(caller, now, auditor, name, event_id, event_access_id)
    }

    /// Replaces the settings, the log entry ids drawn fresh. See
    /// [`AuditLedger::update_audit_settings_with_ids`].
    pub fn update_audit_settings(
        &mut self,
        caller: String,
        now: u64,
        new_settings: AuditSettings,
    ) -> (r: Result<String, String>)
        requires
            old(self)@.wf(),
            is_auditor(old(self)@, caller@) ==> retention_fits(new_settings, now),
        ensures
            final(self)@.wf(),
            !is_auditor(old(self)@, caller@) ==> final(self)@ == old(self)@,
            !is_auditor(old(self)@, caller@) ==> (r matches Err(m) && m@
                == "Unauthorized access"@),
            is_auditor(old(self)@, caller@) ==> (r matches Ok(m) ==> m@
                == "Audit settings updated successfully"@ && exists|ev: Seq<char>, ea: Seq<char>|
                #![auto]
                final(self)@ == update_settings_outcome(
                    old(self)@,
                    caller@,
                    now,
                    new_settings,
                    ev,
                    ea,
                )),
            is_auditor(old(self)@, caller@) && r is Err ==> final(self)@ == old(self)@,
    {
        if !self.is_authorized_auditor(&caller) {
            return Err(String::from_str("Unauthorized access"));
        }
        let event_id = fresh_uuid();
        let event_access_id = fresh_uuid();
        if contains_entry_id(&self.entries, &event_id) {
            return Err(String::from_str("Duplicate entry id"));
        }
        if new_settings.audit_access_logging {
            if contains_entry_id(&self.entries, &event_access_id) || event_access_id.eq(
                &event_id,
            ) {
                return Err(String::from_str("Duplicate entry id"));
            }
        }
        self.update_audit_settings_with_ids(
            caller,
            now,
            new_settings,
            event_id,
            event_access_id,
        )
    }

    /// Collects the ledger's statistics for an auditor, the access entry
    /// drawn under a fresh id. See
    /// [`AuditLedger::get_audit_statistics_with_id`].
    pub fn get_audit_statistics(&mut self, caller: String, now: u64) -> (r: Vec<(String, u64)>)
        requires
            old(self)@.wf(),
            is_auditor(old(self)@, caller@) ==> retention_fits(old(self)@.settings, now),
        ensures
            final(self)@.wf(),
            !is_auditor(old(self)@, caller@) ==> final(self)@ == old(self)@ && r@.len() == 0,
            is_auditor(old(self)@, caller@) ==> exists|aid: Seq<char>|
                #![auto]
                final(self)@ == (if id_fresh(old(self)@.entries, aid) {
                    access_logged(
                        old(self)@,
                        caller@,
                        "get_audit_statistics"@,
                        "statistics"@,
                        aid,
                        now,
                    )
                } else {
                    old(self)@
                }),
            is_auditor(old(self)@, caller@) ==> stat_views(r@) == stats_view(final(self)@),
    {
        let access_id = fresh_uuid();
        self.get_audit_statistics_with_id(caller, now, access_id)
    }
}

/// An untampered history always verifies: every operation of this library
/// leaves the ledger well-formed, and replaying the chain of a well-formed
/// ledger succeeds — however many entries were appended, in whatever order.
pub proof fn lemma_untampered_chain_verifies(v: AuditLedgerView)
    requires
        v.wf(),
    ensures
        crate::chain::verify_outcome(v.entries) == Ok::<Seq<char>, Seq<char>>(
            crate::chain::chain_ok_msg(),
        ),
{
    crate::chain::lemma_verify_outcome_ok(v.entries);
}

/// Recomputing any stored entry's digest from that entry's own fields and
/// its stored predecessor digest reproduces the stored digest exactly — the
/// digest is a pure function of those inputs, so this holds whenever the
/// recomputation runs.
pub proof fn lemma_hash_recomputation_deterministic(v: AuditLedgerView, i: int)
    requires
        v.wf(),
        0 <= i < v.entries.len(),
    ensures
        v.entries[i].hash == crate::chain::entry_hash_of(
            v.entries[i],
            v.entries[i].previous_hash,
        ),
{
    assert(chain_ok_at(v.entries, i));
}

/// Recording a read grows the ledger by exactly one entry — the audit-access
/// entry, stamped with the reader, the operation and the resource — and that
/// entry is an ordinary chain entry: recording it does not trigger the
/// recording of anything further.
pub proof fn lemma_self_auditing_closure(
    v: AuditLedgerView,
    actor: Seq<char>,
    method: Seq<char>,
    resource_id: Seq<char>,
    access_id: Seq<char>,
    now: u64,
)
    ensures
        access_logged(v, actor, method, resource_id, access_id, now).entries.len()
            == v.entries.len() + 1,
        access_logged(v, actor, method, resource_id, access_id, now).entries.last().event_type
            == EventType::AuditAccess,
        access_logged(v, actor, method, resource_id, access_id, now).entries.take(
            v.entries.len() as int,
        ) == v.entries,
{
    let w = access_logged(v, actor, method, resource_id, access_id, now);
    assert(w.entries.take(v.entries.len() as int) =~= v.entries);
}

/// A liveness probe: the ledger service reports itself healthy.
pub fn health_check() -> (r: String)
    ensures
        r@ == "Audit Trail canister is healthy"@,
{
    String::from_str("Audit Trail canister is healthy")
}

/// The ledger [`AuditLedger::init`] produces: one seeded auditor, default
/// settings, and the initialization entry as the root of the chain.
pub open spec fn init_outcome(deployer: Seq<char>, now: u64, entry_id: Seq<char>) -> AuditLedgerView {
    appended(
        AuditLedgerView {
            entries: Seq::empty(),
            reports: Seq::empty(),
            last_entry_hash: None,
            settings: default_settings(),
            auditors: seq![(deployer, "System Administrator"@)],
            entry_counter: 0,
        },
        entry_id,
        now,
        EventType::SystemConfiguration,
        deployer,
        ResourceType::System,
        "audit_trail_canister"@,
        "initialization"@,
        "Audit Trail canister initialized"@,
        empty_metadata(),
        true,
    )
}

} // verus!
