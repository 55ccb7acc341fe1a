use kitchen::frameless_runtime::{
    native_version, next_state, FramelessTransaction, Runtime, EPOCH_DURATION_IN_BLOCKS,
    MILLISECS_PER_BLOCK, PRIMARY_PROBABILITY, SLOT_DURATION,
};

#[test]
fn genesis_value_is_false() {
    assert!(!Runtime::new().state());
}

#[test]
fn transitions() {
    for prev in [false, true] {
        assert!(next_state(prev, &FramelessTransaction::SetTrue));
        assert!(!next_state(prev, &FramelessTransaction::Clear));
        assert_eq!(next_state(prev, &FramelessTransaction::Toggle), !prev);
    }
}

#[test]
fn apply_sequence() {
    let mut rt = Runtime::new();
    assert_eq!(rt.apply_extrinsic(FramelessTransaction::Toggle), Ok(()));
    assert!(rt.state());
    assert_eq!(rt.apply_extrinsic(FramelessTransaction::Toggle), Ok(()));
    assert!(!rt.state());
    assert_eq!(rt.apply_extrinsic(FramelessTransaction::SetTrue), Ok(()));
    assert!(rt.state());
    assert_eq!(rt.apply_extrinsic(FramelessTransaction::SetTrue), Ok(()));
    assert!(rt.state());
    assert_eq!(rt.apply_extrinsic(FramelessTransaction::Clear), Ok(()));
    assert!(!rt.state());
    assert_eq!(rt.apply_extrinsic(FramelessTransaction::Clear), Ok(()));
    assert!(!rt.state());
}

#[test]
fn toggle_twice_restores() {
    for prev in [false, true] {
        let once = next_state(prev, &FramelessTransaction::Toggle);
        assert_eq!(next_state(once, &FramelessTransaction::Toggle), prev);
    }
}

#[test]
fn every_transaction_is_valid() {
    for tx in [FramelessTransaction::SetTrue, FramelessTransaction::Clear, FramelessTransaction::Toggle] {
        let v = Runtime::validate_transaction(&tx).expect("valid");
        assert_eq!(v.priority, 1);
        assert!(v.requires.is_empty());
        assert!(v.provides.is_empty());
        assert_eq!(v.longevity, u64::MAX);
        assert!(v.propagate);
    }
}

#[test]
fn no_inherents() {
    assert!(Runtime::inherent_extrinsics().is_empty());
    let r = Runtime::check_inherents(&[FramelessTransaction::Toggle]);
    assert!(r.okay);
    assert!(!r.fatal_error);
    assert!(r.errors.is_empty());
}

#[test]
fn random_seed_is_zero() {
    assert_eq!(Runtime::random_seed(), [0u8; 32]);
}

#[test]
fn versions() {
    let v = Runtime::version();
    assert_eq!(v.spec_name, "frameless-runtime");
    assert_eq!(v.impl_name, "frameless-runtime");
    assert_eq!(v.authoring_version, 1);
    assert_eq!(v.spec_version, 1);
    assert_eq!(v.impl_version, 1);
    let n = native_version();
    assert_eq!(n.runtime_version.spec_name, "frameless-runtime");
    assert_eq!(n.runtime_version.spec_version, 1);
    assert!(n.can_author_with.is_empty());
}

#[test]
fn block_production_constants() {
    assert_eq!(MILLISECS_PER_BLOCK, 6000);
    assert_eq!(SLOT_DURATION, 6000);
    assert_eq!(EPOCH_DURATION_IN_BLOCKS, 100);
    assert_eq!(PRIMARY_PROBABILITY, (1, 4));
    let c = Runtime::configuration(vec![([3u8; 32], 1)], [9u8; 32]);
    assert_eq!(c.slot_duration, 6000);
    assert_eq!(c.epoch_length, 100);
    assert_eq!(c.c, (1, 4));
    assert_eq!(c.genesis_authorities, vec![([3u8; 32], 1)]);
    assert_eq!(c.randomness, [9u8; 32]);
    assert!(c.secondary_slots);
}
