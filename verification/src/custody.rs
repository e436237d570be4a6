//! The custody vocabulary the ledger's collaborators speak — accounts,
//! transactions, schedules, summaries — and the risk rule custody applies
//! before recording facts in the ledger.

use vstd::prelude::*;

use std::collections::BTreeSet;

verus! {

/// The kind of a custody account.
#[derive(Clone, Copy, Debug, PartialEq, Eq, Structural)]
pub enum AccountType {
    CorporateCustody,
    GovernmentCustody,
    InstitutionalCustody,
    TrustCustody,
}

/// The lifecycle state of a custody account.
#[derive(Clone, Copy, Debug, PartialEq, Eq, Structural)]
pub enum AccountStatus {
    Active,
    Frozen,
    PendingApproval,
    Suspended,
    Closed,
}

/// The compliance standing of a custody account.
#[derive(Clone, Copy, Debug, PartialEq, Eq, Structural)]
pub enum ComplianceStatus {
    Compliant,
    PendingKyc,
    RequiresReview,
    NonCompliant,
}

/// A custody account held for an institution.
#[derive(Clone, Debug)]
pub struct CustodyAccount {
    pub id: String,
    pub owner: String,
    pub institution_name: String,
    pub account_type: AccountType,
    pub status: AccountStatus,
    pub created_at: u64,
    pub balance: u64,
    pub reserved_balance: u64,
    pub authorized_users: BTreeSet<String>,
    pub required_approvals: u8,
    pub compliance_status: ComplianceStatus,
}

/// The kind of a custody transaction.
#[derive(Clone, Copy, Debug, PartialEq, Eq, Structural)]
pub enum TransactionType {
    Deposit,
    Withdrawal,
    Transfer,
    Emergency,
}

/// The lifecycle state of a custody transaction.
#[derive(Clone, Copy, Debug, PartialEq, Eq, Structural)]
pub enum TransactionStatus {
    Pending,
    Approved,
    Executed,
    Rejected,
    Cancelled,
}

/// A custody transaction, approved by a quorum before execution.
#[derive(Clone, Debug)]
pub struct Transaction {
    pub id: String,
    pub account_id: String,
    pub transaction_type: TransactionType,
    pub amount: u64,
    pub recipient: Option<String>,
    pub status: TransactionStatus,
    pub initiated_by: String,
    pub approvals: BTreeSet<String>,
    pub required_approvals: u8,
    pub created_at: u64,
    pub executed_at: Option<u64>,
    pub compliance_checked: bool,
    pub risk_score: u8,
}

/// Configuration of the custody service.
#[derive(Clone, Copy, Debug, PartialEq, Eq, Structural)]
pub struct CustodySettings {
    pub min_balance_threshold: u64,
    pub max_transaction_limit: u64,
    pub emergency_freeze_enabled: bool,
    pub auto_compliance_check: bool,
    pub risk_threshold: u8,
}

/// The lifecycle state of a scheduled transaction.
#[derive(Clone, Copy, Debug, PartialEq, Eq, Structural)]
pub enum ScheduledTransactionStatus {
    Pending,
    Executed,
    Cancelled,
    Failed,
}

/// A transaction scheduled for future execution.
#[derive(Clone, Debug)]
pub struct ScheduledTransaction {
    pub id: String,
    pub account_id: String,
    pub transaction_type: TransactionType,
    pub amount: u64,
    pub recipient: Option<String>,
    pub execute_at: u64,
    pub created_at: u64,
    pub created_by: String,
    pub status: ScheduledTransactionStatus,
}

/// A digest of one account's standing and activity.
#[derive(Clone, Debug)]
pub struct AccountSummary {
    pub account_id: String,
    pub institution_name: String,
    pub account_type: AccountType,
    pub status: AccountStatus,
    pub balance: u64,
    pub reserved_balance: u64,
    pub compliance_status: ComplianceStatus,
    pub total_transactions: u64,
    pub pending_transactions: u64,
    pub last_activity: u64,
}

/// System-wide custody counters.
#[derive(Clone, Copy, Debug, PartialEq, Eq, Structural)]
pub struct SystemMetrics {
    pub total_accounts: u64,
    pub active_accounts: u64,
    pub total_transactions: u64,
    pub pending_transactions: u64,
    pub total_balance: u64,
    pub total_reserved: u64,
    pub uptime: u64,
}

/// The risk score of a custody transaction, on a scale capped at ten: a base
/// by transaction kind, a surcharge by the amount's share of the account
/// balance, and a surcharge by the account's compliance standing.
pub open spec fn risk_score_of(
    transaction_type: TransactionType,
    amount: u64,
    balance: u64,
    compliance_status: ComplianceStatus,
) -> u8 {
    let base: int = match transaction_type {
        TransactionType::Deposit => 1,
        TransactionType::Transfer => 3,
        TransactionType::Withdrawal => 5,
        TransactionType::Emergency => 8,
    };
    let share: int = if balance > 0 {
        let percentage = (amount * 100) as int / balance as int;
        if percentage > 50 {
            3
        } else if percentage > 20 {
            2
        } else if percentage > 10 {
            1
        } else {
            0
        }
    } else {
        0
    };
    let standing: int = match compliance_status {
        ComplianceStatus::Compliant => 0,
        ComplianceStatus::PendingKyc => 2,
        ComplianceStatus::RequiresReview => 4,
        ComplianceStatus::NonCompliant => 8,
    };
    if base + share + standing > 10 {
        10
    } else {
        (base + share + standing) as u8
    }
}

/// Scores the risk of a custody transaction against the account it draws on.
pub fn calculate_risk_score(
    transaction_type: &TransactionType,
    amount: u64,
    account: &CustodyAccount,
) -> (r: u8)
    requires
        amount <= u64::MAX / 100,
    ensures
        r == risk_score_of(*transaction_type, amount, account.balance, account.compliance_status),
{
    let mut risk_score: u8 = 0;
    match transaction_type {
        TransactionType::Deposit => {
            risk_score = risk_score + 1;
        },
        TransactionType::Transfer => {
            risk_score = risk_score + 3;
        },
        TransactionType::Withdrawal => {
            risk_score = risk_score + 5;
        },
        TransactionType::Emergency => {
            risk_score = risk_score + 8;
        },
    }
    if account.balance > 0 {
        let percentage = (amount * 100) / account.balance;
        if percentage > 50 {
            risk_score = risk_score + 3;
        } else if percentage > 20 {
            risk_score = risk_score + 2;
        } else if percentage > 10 {
            risk_score = risk_score + 1;
        }
    }
    match account.compliance_status {
        ComplianceStatus::Compliant => {},
        ComplianceStatus::PendingKyc => {
            risk_score = risk_score + 2;
        },
        ComplianceStatus::RequiresReview => {
            risk_score = risk_score + 4;
        },
        ComplianceStatus::NonCompliant => {
            risk_score = risk_score + 8;
        },
    }
    if risk_score > 10 {
        10
    } else {
        risk_score
    }
}

} // verus!
