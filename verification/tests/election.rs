use leader_election::ElectionRecord;
use leader_election::Elector;
use leader_election::ElectorBuilder;
use leader_election::ElectorError;
use leader_election::MemoryLock;

fn elector(id: &str) -> Elector<MemoryLock> {
    Elector::new(MemoryLock::new(id.to_string()))
}

fn held_record(holder: &str, at: u64, transitions: i32) -> ElectionRecord {
    ElectionRecord {
        holder_id: Some(holder.to_string()),
        lease_duration_seconds: Some(15),
        acquire_time: Some(at),
        renew_time: Some(at),
        lease_transitions: Some(transitions),
    }
}

#[test]
fn solo_acquire_creates_the_record_and_announces_once() {
    let mut a = elector("a");
    let t0 = 1_000_000;
    assert!(a.acquire_or_renew(t0));
    assert!(a.is_leader());
    assert_eq!(a.observed_time_micros, Some(t0));

    let rec = a.cfg.lock.stored_record().expect("create must have written");
    assert_eq!(rec.holder_id.as_deref(), Some("a"));
    assert_eq!(rec.lease_duration_seconds, Some(15));
    assert_eq!(rec.acquire_time, Some(t0));
    assert_eq!(rec.renew_time, Some(t0));
    assert_eq!(rec.lease_transitions, Some(0));

    // The new holder is announced exactly once.
    assert_eq!(a.report_transition_if_needed().as_deref(), Some("a"));
    assert_eq!(a.report_transition_if_needed(), None);
}

#[test]
fn uncontested_renewals_keep_transitions_and_acquire_time() {
    let mut a = elector("a");
    let t0 = 1_000_000;
    assert!(a.acquire_or_renew(t0));
    for i in 1..=5u64 {
        assert!(a.acquire_or_renew(t0 + i * 2_000_000));
    }
    let rec = a.cfg.lock.stored_record().expect("record must exist");
    assert_eq!(rec.lease_transitions, Some(0));
    assert_eq!(rec.acquire_time, Some(t0));
    assert_eq!(rec.renew_time, Some(t0 + 5 * 2_000_000));
    assert!(a.is_leader());
}

#[test]
fn handover_waits_out_the_lease_and_increments_transitions() {
    // "a" held with acquire_time 0 and three transitions, then stopped
    // renewing.
    let mut b = elector("b");
    b.cfg.lock.put_record(Some(held_record("a", 0, 3)));

    // First competing read establishes the observation; the foreign
    // lease is not yet expired by b's own clock, so b stands down.
    let t1 = 16_000_000;
    assert!(!b.acquire_or_renew(t1));
    assert!(!b.is_leader());

    // Once b's own lease window has passed with no change, b takes over.
    let t2 = t1 + 15_000_000;
    assert!(b.acquire_or_renew(t2));
    assert!(b.is_leader());

    let rec = b.cfg.lock.stored_record().expect("record must exist");
    assert_eq!(rec.holder_id.as_deref(), Some("b"));
    assert_eq!(rec.lease_transitions, Some(4));
    assert_eq!(rec.acquire_time, Some(t2));
    assert_eq!(b.report_transition_if_needed().as_deref(), Some("b"));
}

#[test]
fn transport_errors_fail_the_attempt_and_leave_observations_alone() {
    let mut a = elector("a");
    assert!(a.acquire_or_renew(1_000_000));

    a.cfg.lock.inject_failures(3);
    assert!(!a.acquire_or_renew(3_000_000));
    assert!(!a.acquire_or_renew(5_000_000));
    assert!(!a.acquire_or_renew(7_000_000));

    // Failed attempts never disturb the observation pair.
    assert_eq!(a.observed_time_micros, Some(1_000_000));

    // The backend recovers: renewal picks up where it left off.
    assert!(a.acquire_or_renew(9_000_000));
    assert_eq!(a.observed_time_micros, Some(9_000_000));
    let rec = a.cfg.lock.stored_record().expect("record must exist");
    assert_eq!(rec.lease_transitions, Some(0));
}

#[test]
fn contested_acquire_settles_on_one_leader() {
    let mut a = elector("a");
    let mut b = elector("b");
    let t0 = 1_000_000;

    // The control plane accepts exactly one create; the loser sees the
    // winner's record on its next read.
    assert!(a.acquire_or_renew(t0));
    b.cfg.lock.put_record(a.cfg.lock.stored_record());
    assert!(!b.acquire_or_renew(t0));

    assert!(a.is_leader());
    assert!(!b.is_leader());
    assert!(!(a.is_leader() && b.is_leader()));
    let rec = a.cfg.lock.stored_record().expect("record must exist");
    assert_eq!(rec.lease_transitions, Some(0));
}

#[test]
fn health_check_passes_for_a_fresh_leader() {
    let mut a = elector("a");
    assert!(a.acquire_or_renew(0));
    assert!(a.check(1_000_000, 1).is_ok());
}

#[test]
fn health_check_fails_exactly_past_lease_plus_tolerance() {
    let mut a = elector("a");
    assert!(a.acquire_or_renew(0));
    // lease 15 s, tolerance 1 s: 16 s elapsed is still healthy,
    // a microsecond more is not.
    assert!(a.check(1_000_000, 16_000_000).is_ok());
    assert_eq!(a.check(1_000_000, 16_000_001), Err(ElectorError::Validation));
}

#[test]
fn health_check_never_fails_for_a_non_leader() {
    let mut b = elector("b");
    b.cfg.lock.put_record(Some(held_record("a", 0, 0)));
    assert!(!b.acquire_or_renew(1_000_000));
    assert!(b.check(0, u64::MAX).is_ok());
}

#[test]
fn graceful_release_shortens_the_lease_and_keeps_transitions() {
    let mut a = elector("a");
    let t0 = 1_000_000;
    assert!(a.acquire_or_renew(t0));
    let t1 = 2_000_000;
    assert!(a.release(t1));

    let rec = a.cfg.lock.stored_record().expect("record must exist");
    assert_eq!(rec.holder_id.as_deref(), Some("a"));
    assert_eq!(rec.lease_duration_seconds, Some(1));
    assert_eq!(rec.acquire_time, Some(t1));
    assert_eq!(rec.renew_time, Some(t1));
    assert_eq!(rec.lease_transitions, Some(0));

    // A successor whose own lease window is one second observes the
    // released record expiring within about a second and takes over.
    let mut b = ElectorBuilder::new(MemoryLock::new("b".to_string()))
        .lease_duration(1_000_000)
        .renew_deadline(800_000)
        .retry_period(200_000)
        .build()
        .ok()
        .expect("valid timings must build");
    b.cfg.lock.put_record(a.cfg.lock.stored_record());

    let t2 = t1 + 500_000;
    assert!(!b.acquire_or_renew(t2));
    let t3 = t2 + 1_000_000;
    assert!(b.acquire_or_renew(t3));
    let rec_b = b.cfg.lock.stored_record().expect("record must exist");
    assert_eq!(rec_b.holder_id.as_deref(), Some("b"));
    assert_eq!(rec_b.lease_transitions, Some(1));
}

#[test]
fn release_without_leadership_writes_nothing() {
    let mut n = elector("n");
    assert!(n.release(5));
    assert!(n.cfg.lock.stored_record().is_none());
}

#[test]
fn failed_release_reports_false_and_keeps_the_observation() {
    let mut a = elector("a");
    assert!(a.acquire_or_renew(1_000_000));
    a.cfg.lock.inject_failures(1);
    assert!(!a.release(2_000_000));
    assert_eq!(a.observed_time_micros, Some(1_000_000));
    assert!(a.is_leader());
}

#[test]
fn leader_identity_is_stable_across_operations() {
    let mut a = elector("a");
    let id0 = a.leader_id();
    assert_eq!(id0, "a");
    assert!(a.acquire_or_renew(1_000_000));
    assert_eq!(a.leader_id(), id0);
    a.report_transition_if_needed();
    assert_eq!(a.leader_id(), id0);
    assert!(a.release(2_000_000));
    assert_eq!(a.leader_id(), id0);
}

#[test]
fn observed_holder_changes_are_each_announced_once() {
    let mut b = elector("b");
    b.cfg.lock.put_record(Some(held_record("a", 0, 0)));
    assert!(!b.acquire_or_renew(1_000_000));

    // First observation announces "a"; repeating it announces nothing.
    assert_eq!(b.report_transition_if_needed().as_deref(), Some("a"));
    assert_eq!(b.report_transition_if_needed(), None);

    // The holder changes to "c": announced once, then suppressed again.
    b.cfg.lock.put_record(Some(held_record("c", 2_000_000, 1)));
    assert!(!b.acquire_or_renew(3_000_000));
    assert_eq!(b.report_transition_if_needed().as_deref(), Some("c"));
    assert_eq!(b.report_transition_if_needed(), None);
}
