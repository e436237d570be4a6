use audit_trail::compliance::{
    calculate_initial_risk, calculate_transaction_risk, determine_compliance_flags,
    ComplianceFlag, EntityType, RiskLevel,
};

fn listed_jurisdictions() -> Vec<String> {
    vec![
        "North Korea".to_string(),
        "Iran".to_string(),
        "Syria".to_string(),
        "Cuba".to_string(),
        "Sudan".to_string(),
    ]
}

#[test]
fn initial_risk_is_high_in_a_listed_jurisdiction() {
    let listed = listed_jurisdictions();
    let r = calculate_initial_risk(&listed, &"Iran".to_string(), &EntityType::Individual);
    assert_eq!(r, RiskLevel::High);
}

#[test]
fn initial_risk_is_graded_by_entity_kind_elsewhere() {
    let listed = listed_jurisdictions();
    let j = "Switzerland".to_string();
    assert_eq!(
        calculate_initial_risk(&listed, &j, &EntityType::Individual),
        RiskLevel::Low
    );
    assert_eq!(
        calculate_initial_risk(&listed, &j, &EntityType::Corporation),
        RiskLevel::Medium
    );
    assert_eq!(
        calculate_initial_risk(&listed, &j, &EntityType::Government),
        RiskLevel::Low
    );
    assert_eq!(
        calculate_initial_risk(&listed, &j, &EntityType::FinancialInstitution),
        RiskLevel::Medium
    );
    assert_eq!(
        calculate_initial_risk(&listed, &j, &EntityType::NonProfit),
        RiskLevel::Low
    );
    assert_eq!(
        calculate_initial_risk(&listed, &j, &EntityType::Partnership),
        RiskLevel::Medium
    );
}

#[test]
fn transaction_risk_grades_amount_and_kind() {
    let acct = "acct-1".to_string();
    assert_eq!(
        calculate_transaction_risk(&acct, 50_000_000, &"deposit".to_string()),
        0
    );
    assert_eq!(
        calculate_transaction_risk(&acct, 200_000_000, &"transfer".to_string()),
        2
    );
    assert_eq!(
        calculate_transaction_risk(&acct, 2_000_000_000, &"withdrawal".to_string()),
        5
    );
    assert_eq!(
        calculate_transaction_risk(&acct, 20_000_000_000, &"withdrawal".to_string()),
        7
    );
    assert_eq!(
        calculate_transaction_risk(&acct, 20_000_000_000, &"settlement".to_string()),
        5
    );
}

#[test]
fn compliance_flags_name_large_and_unusual_movements() {
    let acct = "acct-1".to_string();

    let none = determine_compliance_flags(&acct, 1_000, &"deposit".to_string());
    assert!(none.is_empty());

    let large = determine_compliance_flags(&acct, 20_000_000_000, &"deposit".to_string());
    assert_eq!(large, vec![ComplianceFlag::LargeAmount]);

    let unusual = determine_compliance_flags(&acct, 2_000_000_000, &"withdrawal".to_string());
    assert_eq!(unusual, vec![ComplianceFlag::UnusualPattern]);

    let both = determine_compliance_flags(&acct, 20_000_000_000, &"withdrawal".to_string());
    assert_eq!(
        both,
        vec![ComplianceFlag::LargeAmount, ComplianceFlag::UnusualPattern]
    );
}
