use atomic_primitives::counts::{
    clone_overflows, decide_downgrade, decide_upgrade, downgrade_outcome, downgrade_step,
    is_unique, lock_taken, upgrade_outcome, upgrade_step, was_last, Overflow, Refused,
    CLONE_LIMIT, LOCKED,
};

#[test]
fn reserved_values() {
    assert_eq!(LOCKED, usize::MAX);
    assert_eq!(CLONE_LIMIT, usize::MAX / 2);
}

#[test]
fn upgrade_of_a_dead_payload_stores_nothing() {
    assert_eq!(decide_upgrade(0), Ok(None));
    assert_eq!(upgrade_step(0), None);
}

#[test]
fn upgrade_raises_the_count_by_one() {
    assert_eq!(decide_upgrade(1), Ok(Some(2)));
    assert_eq!(decide_upgrade(41), Ok(Some(42)));
    assert_eq!(decide_upgrade(usize::MAX - 1), Ok(Some(usize::MAX)));
    assert_eq!(upgrade_step(1), Some(2));
    assert_eq!(upgrade_step(usize::MAX - 1), Some(usize::MAX));
}

#[test]
fn upgrade_of_a_full_count_overflows() {
    assert_eq!(decide_upgrade(usize::MAX), Err(Overflow));
    assert_eq!(upgrade_step(usize::MAX), None);
}

#[test]
fn downgrade_raises_the_count_by_one() {
    assert_eq!(decide_downgrade(0), Ok(1));
    assert_eq!(decide_downgrade(1), Ok(2));
    assert_eq!(decide_downgrade(usize::MAX - 2), Ok(usize::MAX - 1));
    assert_eq!(downgrade_step(1), Some(2));
    assert_eq!(downgrade_step(usize::MAX - 2), Some(usize::MAX - 1));
}

#[test]
fn downgrade_waits_for_the_lock() {
    assert_eq!(decide_downgrade(LOCKED), Err(Refused::Locked));
    assert_eq!(downgrade_step(LOCKED), None);
}

#[test]
fn downgrade_never_counts_up_to_the_lock() {
    assert_eq!(decide_downgrade(LOCKED - 1), Err(Refused::Overflow));
    assert_eq!(downgrade_step(LOCKED - 1), None);
}

#[test]
fn clone_limit_is_half_the_range() {
    assert!(!clone_overflows(0));
    assert!(!clone_overflows(1));
    assert!(!clone_overflows(usize::MAX / 2));
    assert!(clone_overflows(usize::MAX / 2 + 1));
    assert!(clone_overflows(usize::MAX));
}

#[test]
fn last_unit_is_the_one_found_at_one() {
    assert!(was_last(1));
    assert!(!was_last(0));
    assert!(!was_last(2));
    assert!(!was_last(usize::MAX));
}

#[test]
fn unique_means_a_strong_count_of_one() {
    assert!(is_unique(1));
    assert!(!is_unique(0));
    assert!(!is_unique(2));
    assert!(!is_unique(usize::MAX));
}

#[test]
fn upgrade_that_stored_hands_out_a_handle() {
    assert_eq!(upgrade_outcome(Ok(1)), Ok(true));
    assert_eq!(upgrade_outcome(Ok(2)), Ok(true));
    assert_eq!(upgrade_outcome(Ok(usize::MAX - 1)), Ok(true));
}

#[test]
fn upgrade_that_stopped_at_zero_hands_out_none() {
    assert_eq!(upgrade_outcome(Err(0)), Ok(false));
}

#[test]
fn upgrade_that_stopped_on_a_full_count_overflows() {
    assert_eq!(upgrade_outcome(Err(usize::MAX)), Err(Overflow));
}

#[test]
fn downgrade_that_stored_hands_out_a_handle() {
    assert_eq!(downgrade_outcome(Ok(1)), Ok(()));
    assert_eq!(downgrade_outcome(Ok(usize::MAX - 2)), Ok(()));
}

#[test]
fn downgrade_that_stopped_on_the_lock_asks_again() {
    assert_eq!(downgrade_outcome(Err(LOCKED)), Err(Refused::Locked));
}

#[test]
fn downgrade_that_stopped_below_the_lock_overflows() {
    assert_eq!(downgrade_outcome(Err(LOCKED - 1)), Err(Refused::Overflow));
}

#[test]
fn lock_is_taken_by_the_swap_that_found_one() {
    assert!(lock_taken(Ok(1)));
    assert!(!lock_taken(Err(2)));
    assert!(!lock_taken(Err(0)));
    assert!(!lock_taken(Err(LOCKED)));
}
