//! The compliance vocabulary the ledger's collaborators speak — KYC
//! profiles, screening outcomes, monitoring states — and the risk rules they
//! apply before recording facts in the ledger.

use vstd::prelude::*;

use crate::types::contains_string;

verus! {

/// The kind of entity a KYC profile describes.
#[derive(Clone, Copy, Debug, PartialEq, Eq, Structural)]
pub enum EntityType {
    Individual,
    Corporation,
    Government,
    FinancialInstitution,
    CustodyProvider,
    TrustCompany,
    NonProfit,
    Partnership,
}

/// The depth of identity verification performed.
#[derive(Clone, Copy, Debug, PartialEq, Eq, Structural)]
pub enum VerificationLevel {
    Basic,
    Enhanced,
    Institutional,
    Government,
}

/// A graded risk classification.
#[derive(Clone, Copy, Debug, PartialEq, Eq, Structural)]
pub enum RiskLevel {
    Low,
    Medium,
    High,
    Critical,
    Prohibited,
}

/// The lifecycle state of a KYC review.
#[derive(Clone, Copy, Debug, PartialEq, Eq, Structural)]
pub enum KycStatus {
    NotStarted,
    Pending,
    UnderReview,
    Approved,
    Rejected,
    Suspended,
    Expired,
}

/// The outcome of anti-money-laundering screening.
#[derive(Clone, Copy, Debug, PartialEq, Eq, Structural)]
pub enum AmlStatus {
    NotChecked,
    Cleared,
    Review,
    Hit,
    Blocked,
}

/// The kind of a supporting document.
#[derive(Clone, Copy, Debug, PartialEq, Eq, Structural)]
pub enum DocumentType {
    IdentityDocument,
    ProofOfAddress,
    ArticlesOfIncorporation,
    CertificateOfIncorporation,
    TaxDocument,
    BankStatement,
    ComplianceCertificate,
    LicenseDocument,
    PowerOfAttorney,
    BoardResolution,
}

/// The verification state of a supporting document.
#[derive(Clone, Copy, Debug, PartialEq, Eq, Structural)]
pub enum DocumentStatus {
    Pending,
    Verified,
    Rejected,
    Expired,
}

/// A supporting document attached to a KYC profile.
#[derive(Clone, Debug)]
pub struct Document {
    pub id: String,
    pub document_type: DocumentType,
    pub name: String,
    pub hash: String,
    pub uploaded_at: u64,
    pub verified_at: Option<u64>,
    pub verification_status: DocumentStatus,
    pub metadata: String,
}

/// The outcome of sanctions screening.
#[derive(Clone, Copy, Debug, PartialEq, Eq, Structural)]
pub enum SanctionsResult {
    Clear,
    PotentialMatch,
    DirectMatch,
}

/// The outcome of politically-exposed-person screening.
#[derive(Clone, Copy, Debug, PartialEq, Eq, Structural)]
pub enum PepResult {
    Clear,
    PotentialMatch,
    DirectMatch,
}

/// The outcome of adverse-media screening.
#[derive(Clone, Copy, Debug, PartialEq, Eq, Structural)]
pub enum AdverseMediaResult {
    Clear,
    MinorConcerns,
    MajorConcerns,
    Prohibited,
}

/// A pattern a monitored transaction was flagged for.
#[derive(Clone, Copy, Debug, PartialEq, Eq, Structural)]
pub enum ComplianceFlag {
    LargeAmount,
    HighFrequency,
    UnusualPattern,
    SanctionedEntity,
    HighRiskJurisdiction,
    StructuredTransaction,
    RapidMovement,
    CrossBorderTransfer,
    CashIntensive,
    PoliticallyExposed,
}

/// The review state of a monitored transaction.
#[derive(Clone, Copy, Debug, PartialEq, Eq, Structural)]
pub enum MonitoringStatus {
    Clear,
    Review,
    Escalated,
    SarFiled,
    Blocked,
}

/// The filing state of a suspicious-activity report.
#[derive(Clone, Copy, Debug, PartialEq, Eq, Structural)]
pub enum SarStatus {
    Draft,
    Filed,
    Acknowledged,
    UnderInvestigation,
    Closed,
}

/// Configuration of the compliance engine.
#[derive(Clone, Copy, Debug, PartialEq, Eq, Structural)]
pub struct ComplianceSettings {
    pub auto_kyc_enabled: bool,
    pub sanctions_screening_enabled: bool,
    pub pep_screening_enabled: bool,
    pub adverse_media_screening_enabled: bool,
    pub transaction_monitoring_enabled: bool,
    pub high_risk_threshold: u64,
    pub sar_threshold: u64,
    pub kyc_renewal_days: u32,
    pub document_retention_days: u32,
}

/// The initial risk classification of a new profile: high in a listed
/// high-risk jurisdiction, otherwise graded by the kind of entity.
pub open spec fn initial_risk_of(
    high_risk_jurisdictions: Seq<Seq<char>>,
    jurisdiction: Seq<char>,
    entity_type: EntityType,
) -> RiskLevel {
    if high_risk_jurisdictions.contains(jurisdiction) {
        RiskLevel::High
    } else {
        match entity_type {
            EntityType::Individual => RiskLevel::Low,
            EntityType::Corporation => RiskLevel::Medium,
            EntityType::Government => RiskLevel::Low,
            EntityType::FinancialInstitution => RiskLevel::Medium,
            EntityType::CustodyProvider => RiskLevel::Medium,
            EntityType::TrustCompany => RiskLevel::Medium,
            EntityType::NonProfit => RiskLevel::Low,
            EntityType::Partnership => RiskLevel::Medium,
        }
    }
}

/// Classifies the initial risk of a new profile against the listed
/// high-risk jurisdictions.
pub fn calculate_initial_risk(
    high_risk_jurisdictions: &Vec<String>,
    jurisdiction: &String,
    entity_type: &EntityType,
) -> (r: RiskLevel)
    ensures
        r == initial_risk_of(
            high_risk_jurisdictions@.map_values(|s: String| s@),
            jurisdiction@,
            *entity_type,
        ),
{
    if contains_string(high_risk_jurisdictions, jurisdiction) {
        return RiskLevel::High;
    }
    match entity_type {
        EntityType::Individual => RiskLevel::Low,
        EntityType::Corporation => RiskLevel::Medium,
        EntityType::Government => RiskLevel::Low,
        EntityType::FinancialInstitution => RiskLevel::Medium,
        EntityType::CustodyProvider => RiskLevel::Medium,
        EntityType::TrustCompany => RiskLevel::Medium,
        EntityType::NonProfit => RiskLevel::Low,
        EntityType::Partnership => RiskLevel::Medium,
    }
}

/// The risk score of a monitored transaction, on a scale capped at ten:
/// graded by the amount's magnitude, plus a surcharge for withdrawals and
/// transfers.
pub open spec fn transaction_risk_of(amount: u64, transaction_type: Seq<char>) -> u8 {
    let amount_part: int = if amount > 10000000000 {
        5
    } else if amount > 1000000000 {
        3
    } else if amount > 100000000 {
        1
    } else {
        0
    };
    let kind_part: int = if transaction_type == "withdrawal"@ {
        2
    } else if transaction_type == "transfer"@ {
        1
    } else {
        0
    };
    if amount_part + kind_part > 10 {
        10
    } else {
        (amount_part + kind_part) as u8
    }
}

/// Scores the risk of a monitored transaction. The account id is carried for
/// the caller's audit trail; the score is a function of the amount and the
/// transaction kind alone.
pub fn calculate_transaction_risk(
    account_id: &String,
    amount: u64,
    transaction_type: &String,
) -> (r: u8)
    ensures
        r == transaction_risk_of(amount, transaction_type@),
{
    let mut risk_score: u8 = 0;
    if amount > 10000000000 {
        risk_score = risk_score + 5;
    } else if amount > 1000000000 {
        risk_score = risk_score + 3;
    } else if amount > 100000000 {
        risk_score = risk_score + 1;
    }
    if transaction_type.eq(&String::from_str("withdrawal")) {
        risk_score = risk_score + 2;
    } else if transaction_type.eq(&String::from_str("transfer")) {
        risk_score = risk_score + 1;
    }
    if risk_score > 10 {
        10
    } else {
        risk_score
    }
}

/// The patterns a monitored transaction is flagged for: a large amount past
/// the reporting threshold, and an unusual pattern for sizeable withdrawals.
pub open spec fn compliance_flags_of(amount: u64, transaction_type: Seq<char>) -> Seq<
    ComplianceFlag,
> {
    (if amount > 10000000000 {
        seq![ComplianceFlag::LargeAmount]
    } else {
        Seq::empty()
    }) + (if transaction_type == "withdrawal"@ && amount > 1000000000 {
        seq![ComplianceFlag::UnusualPattern]
    } else {
        Seq::empty()
    })
}

/// Flags a monitored transaction. The account id is carried for the caller's
/// audit trail; the flags are a function of the amount and the transaction
/// kind alone.
pub fn determine_compliance_flags(
    account_id: &String,
    amount: u64,
    transaction_type: &String,
) -> (r: Vec<ComplianceFlag>)
    ensures
        r@ == compliance_flags_of(amount, transaction_type@),
{
    let mut flags: Vec<ComplianceFlag> = Vec::new();
    if amount > 10000000000 {
        flags.push(ComplianceFlag::LargeAmount);
    }
    if transaction_type.eq(&String::from_str("withdrawal")) && amount > 1000000000 {
        flags.push(ComplianceFlag::UnusualPattern);
    }
    proof {
        assert(flags@ =~= compliance_flags_of(amount, transaction_type@));
    }
    flags
}

} // verus!
