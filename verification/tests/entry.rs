use research_oracle::attestation::{
    validate_forecast, Attestation, CONFIDENCE_HIGH, CONFIDENCE_LOW, CONFIDENCE_MEDIUM,
};
use research_oracle::error::OracleError;

fn open_entry(estimate: u16, confidence: u8) -> Result<Attestation, OracleError> {
    Attestation::open([9; 32], [3; 32], estimate, confidence, 2_000_000_000, 1_700_000_000, 253)
}

#[test]
fn validate_forecast_accepts_the_ranges() {
    assert_eq!(validate_forecast(0, 0), Ok(()));
    assert_eq!(validate_forecast(10000, 2), Ok(()));
    assert_eq!(validate_forecast(5000, 1), Ok(()));
}

#[test]
fn validate_forecast_refuses_the_estimate_first() {
    assert_eq!(validate_forecast(10001, 0), Err(OracleError::InvalidEstimate));
    assert_eq!(validate_forecast(u16::MAX, 2), Err(OracleError::InvalidEstimate));
    assert_eq!(validate_forecast(10001, 3), Err(OracleError::InvalidEstimate));
    assert_eq!(validate_forecast(10000, 3), Err(OracleError::InvalidConfidence));
    assert_eq!(validate_forecast(0, u8::MAX), Err(OracleError::InvalidConfidence));
}

#[test]
fn confidence_tiers_are_zero_one_two() {
    assert_eq!(CONFIDENCE_LOW, 0);
    assert_eq!(CONFIDENCE_MEDIUM, 1);
    assert_eq!(CONFIDENCE_HIGH, 2);
}

#[test]
fn open_accepts_every_forecast_within_the_ranges() {
    for estimate in [0u16, 1, 4999, 5000, 7000, 9999, 10000] {
        for confidence in [CONFIDENCE_LOW, CONFIDENCE_MEDIUM, CONFIDENCE_HIGH] {
            let entry = open_entry(estimate, confidence).unwrap();
            assert!(!entry.resolved);
            assert!(!entry.outcome);
            assert_eq!(entry.estimate, estimate);
            assert_eq!(entry.confidence, confidence);
        }
    }
}

#[test]
fn open_keeps_what_it_was_given() {
    let entry = Attestation::open([9; 32], [3; 32], 7000, 1, -5, 1_700_000_000, 253).unwrap();
    assert_eq!(
        entry,
        Attestation {
            oracle: [9; 32],
            question_hash: [3; 32],
            estimate: 7000,
            confidence: 1,
            deadline: -5,
            created_at: 1_700_000_000,
            resolved: false,
            outcome: false,
            bump: 253,
        }
    );
}

#[test]
fn open_refuses_an_estimate_above_the_scale() {
    assert_eq!(open_entry(10001, 0), Err(OracleError::InvalidEstimate));
    assert_eq!(open_entry(u16::MAX, 1), Err(OracleError::InvalidEstimate));
    assert_eq!(open_entry(10001, 200), Err(OracleError::InvalidEstimate));
}

#[test]
fn open_refuses_an_unknown_confidence() {
    assert_eq!(open_entry(10000, 3), Err(OracleError::InvalidConfidence));
    assert_eq!(open_entry(0, u8::MAX), Err(OracleError::InvalidConfidence));
}

#[test]
fn settle_records_the_outcome_and_returns_the_contribution() {
    let mut entry = open_entry(7000, 1).unwrap();
    assert_eq!(entry.settle(true), Ok(900));
    assert!(entry.resolved);
    assert!(entry.outcome);
    assert_eq!(entry.estimate, 7000);

    let mut entry = open_entry(7000, 1).unwrap();
    assert_eq!(entry.settle(false), Ok(4900));
    assert!(entry.resolved);
    assert!(!entry.outcome);
}

#[test]
fn settle_refuses_a_second_outcome() {
    let mut entry = open_entry(2000, 2).unwrap();
    assert_eq!(entry.settle(false), Ok(400));
    let settled = entry;
    assert_eq!(entry.settle(true), Err(OracleError::AlreadyResolved));
    assert_eq!(entry, settled);
    assert_eq!(entry.settle(false), Err(OracleError::AlreadyResolved));
    assert_eq!(entry, settled);
}
