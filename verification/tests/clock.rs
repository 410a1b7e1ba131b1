use anchor_lang::prelude::ProgramError;
use research_oracle::{attest, Attest, AttestError, Attestation, OracleError, OracleState};

const A: [u8; 32] = [0xA1; 32];
const B: [u8; 32] = [0xB2; 32];
const REGISTRY_A: [u8; 32] = [0x0A; 32];
const Q1: [u8; 32] = [1; 32];

fn records(authority: [u8; 32], attestation: Option<Attestation>) -> Attest {
    Attest {
        attestation,
        oracle_state: OracleState::new(A, 255),
        oracle_state_key: REGISTRY_A,
        authority,
        bump: 250,
    }
}

#[test]
fn attest_without_a_runtime_hands_on_the_clock_error() {
    let mut ctx = records(A, None);
    let before = ctx;
    assert_eq!(
        attest(&mut ctx, Q1, 7000, 1, 1_800_000_000),
        Err(AttestError::Clock(ProgramError::UnsupportedSysvar))
    );
    assert_eq!(ctx, before);
    assert_eq!(ctx.oracle_state.total_attestations, 0);
    assert_eq!(ctx.attestation, None);
}

#[test]
fn attest_refuses_before_it_asks_the_clock() {
    let mut ctx = records(A, None);
    let before = ctx;
    assert_eq!(
        attest(&mut ctx, Q1, 10001, 1, 0),
        Err(AttestError::Refused(OracleError::InvalidEstimate))
    );
    assert_eq!(
        attest(&mut ctx, Q1, 10000, 3, 0),
        Err(AttestError::Refused(OracleError::InvalidConfidence))
    );
    assert_eq!(ctx, before);

    let mut ctx = records(B, None);
    let before = ctx;
    assert_eq!(
        attest(&mut ctx, Q1, 7000, 1, 0),
        Err(AttestError::Refused(OracleError::Unauthorized))
    );
    assert_eq!(ctx, before);

    let entry = Attestation::open(REGISTRY_A, Q1, 7000, 1, 0, 5, 250).unwrap();
    let mut ctx = records(A, Some(entry));
    let before = ctx;
    assert_eq!(
        attest(&mut ctx, Q1, 7000, 1, 0),
        Err(AttestError::Refused(OracleError::AlreadyExists))
    );
    assert_eq!(ctx, before);
}

#[test]
fn check_agrees_with_attest() {
    let entry = Attestation::open(REGISTRY_A, Q1, 7000, 1, 0, 5, 250).unwrap();
    assert_eq!(records(A, None).check(7000, 1), Ok(()));
    assert_eq!(records(A, None).check(10001, 3), Err(OracleError::InvalidEstimate));
    assert_eq!(records(A, None).check(0, 3), Err(OracleError::InvalidConfidence));
    assert_eq!(records(B, None).check(0, 0), Err(OracleError::Unauthorized));
    assert_eq!(records(A, Some(entry)).check(0, 0), Err(OracleError::AlreadyExists));
    assert_eq!(records(B, Some(entry)).check(0, 0), Err(OracleError::Unauthorized));
}

#[test]
fn has_room_until_the_count_is_full() {
    let mut ctx = records(A, None);
    assert!(ctx.has_room());
    ctx.oracle_state.total_attestations = u64::MAX - 1;
    assert!(ctx.has_room());
    ctx.oracle_state.total_attestations = u64::MAX;
    assert!(!ctx.has_room());
}
