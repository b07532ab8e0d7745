use fundus_ledger::errors::ErrorCode;
use fundus_ledger::identity::Identity;
use fundus_ledger::instructions::{initialize, update_platform_settings};
use fundus_ledger::program_state::ProgramState;

fn key(byte: u8) -> Identity {
    Identity::new([byte; 32])
}

#[test]
fn uninitialized_registry_is_empty() {
    let state = ProgramState::uninitialized();
    assert!(!state.initialized());
    assert_eq!(state.campaign_count(), 0);
    assert_eq!(state.platform_fee(), 0);
    assert_eq!(state.platform_address(), Identity::zero());
}

#[test]
fn initialize_sets_defaults() {
    let mut state = ProgramState::uninitialized();
    assert_eq!(initialize(&mut state, key(5)), Ok(()));
    assert!(state.initialized());
    assert_eq!(state.campaign_count(), 0);
    assert_eq!(state.platform_fee(), 3);
    assert_eq!(state.platform_address(), key(5));
}

#[test]
fn initialize_twice_fails_and_changes_nothing() {
    let mut state = ProgramState::uninitialized();
    initialize(&mut state, key(5)).unwrap();
    update_platform_settings(&mut state, key(5), 10).unwrap();
    let before = state;
    assert_eq!(initialize(&mut state, key(5)), Err(ErrorCode::AlreadyInitialized));
    assert_eq!(initialize(&mut state, key(6)), Err(ErrorCode::AlreadyInitialized));
    assert_eq!(state, before);
    assert_eq!(state.platform_fee(), 10);
    assert_eq!(state.platform_address(), key(5));
}

#[test]
fn settings_accept_fees_from_one_to_fifteen() {
    let mut state = ProgramState::uninitialized();
    initialize(&mut state, key(5)).unwrap();
    for fee in 1..=15u64 {
        assert_eq!(update_platform_settings(&mut state, key(5), fee), Ok(()));
        assert_eq!(state.platform_fee(), fee);
        assert_eq!(state.campaign_count(), 0);
        assert_eq!(state.platform_address(), key(5));
        assert!(state.initialized());
    }
}

#[test]
fn settings_reject_fees_out_of_range() {
    let mut state = ProgramState::uninitialized();
    initialize(&mut state, key(5)).unwrap();
    for fee in [0u64, 16, 100, u64::MAX] {
        assert_eq!(
            update_platform_settings(&mut state, key(5), fee),
            Err(ErrorCode::InvalidPlatformFee)
        );
        assert_eq!(state.platform_fee(), 3);
    }
}

#[test]
fn settings_are_for_the_platform_address_only() {
    let mut state = ProgramState::uninitialized();
    initialize(&mut state, key(5)).unwrap();
    assert_eq!(update_platform_settings(&mut state, key(6), 4), Err(ErrorCode::UnauthorisedAccess));
    assert_eq!(update_platform_settings(&mut state, key(6), 0), Err(ErrorCode::UnauthorisedAccess));
    assert_eq!(state.platform_fee(), 3);
}

#[test]
fn registry_from_parts_checks_the_fee() {
    let good = ProgramState::from_parts(true, 12, 15, key(1)).unwrap();
    assert!(good.initialized());
    assert_eq!(good.campaign_count(), 12);
    assert_eq!(good.platform_fee(), 15);
    assert_eq!(good.platform_address(), key(1));
    assert!(ProgramState::from_parts(true, 12, 16, key(1)).is_none());
    assert!(ProgramState::from_parts(true, 12, 0, key(1)).is_none());
    assert!(ProgramState::from_parts(false, 0, 0, key(1)).is_some());
    assert!(ProgramState::from_parts(false, 0, 16, key(1)).is_none());
}
