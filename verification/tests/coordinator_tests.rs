use shard_store::coordinator::Coordination;

#[test]
fn exactly_one_process_wins_the_race() {
    let mut c = Coordination::new_cohort(3);
    let leaders = [c.try_lock(0), c.try_lock(1), c.try_lock(2)];
    assert_eq!(leaders.iter().filter(|l| **l).count(), 1);
    assert!(leaders[0]);
    assert!(!leaders[1]);
    assert!(!leaders[2]);
}

#[test]
fn nonleaders_wait_for_the_leaders_commit() {
    let mut c = Coordination::new_cohort(2);
    let leader0 = c.try_lock(0);
    let leader1 = c.try_lock(1);
    assert!(leader0);
    assert!(!leader1);

    // the leader's one round trip also takes lock 2
    assert!(c.lock2_free());
    c.acquire_blocking(0);

    // the non-leader is blocked while the leader works
    assert!(!c.lock2_free());
    c.commit_work(0);
    assert!(!c.lock2_free());
    c.release_locks(0);

    // only now can the non-leader pass the barrier, and it sees the
    // committed migration
    assert!(c.lock2_free());
    c.acquire_blocking(1);
    assert!(c.committed);
    c.release_locks(1);
}

#[test]
fn a_failed_leader_still_unblocks_waiters() {
    let mut c = Coordination::new_cohort(2);
    assert!(c.try_lock(0));
    assert!(!c.try_lock(1));
    c.acquire_blocking(0);
    c.fail_work(0);
    // the failed leader releases both locks before aborting, so the
    // waiting non-leader is unblocked rather than deadlocked
    c.release_locks(0);
    assert!(c.lock2_free());
    assert_eq!(c.lock1, None);
    c.acquire_blocking(1);
    assert!(!c.committed);
    assert!(c.failed);
}

#[test]
fn leader_releases_both_locks() {
    let mut c = Coordination::new_cohort(1);
    assert!(c.try_lock(0));
    c.acquire_blocking(0);
    assert_eq!(c.lock1, Some(0));
    assert_eq!(c.lock2, Some(0));
    c.commit_work(0);
    c.release_locks(0);
    assert_eq!(c.lock1, None);
    assert_eq!(c.lock2, None);
}

#[test]
fn nonleader_release_keeps_lock_one_free_state() {
    let mut c = Coordination::new_cohort(2);
    assert!(c.try_lock(0));
    assert!(!c.try_lock(1));
    c.acquire_blocking(0);
    c.commit_work(0);
    c.release_locks(0);
    c.acquire_blocking(1);
    assert_eq!(c.lock2, Some(1));
    c.release_locks(1);
    assert_eq!(c.lock1, None);
    assert_eq!(c.lock2, None);
    assert!(c.committed);
}
