use leader_election::ElectionRecord;
use leader_election::Lock;
use leader_election::LockError;
use leader_election::MemoryLock;

fn record(holder: &str) -> ElectionRecord {
    ElectionRecord {
        holder_id: Some(holder.to_string()),
        lease_duration_seconds: Some(15),
        acquire_time: Some(1),
        renew_time: Some(1),
        lease_transitions: Some(0),
    }
}

#[test]
fn lock_id_returns_the_identity_it_was_made_with() {
    let lock = MemoryLock::new("me".to_string());
    assert_eq!(lock.lock_id(), "me");
    assert_eq!(lock.lock_id(), "me");
}

#[test]
fn get_on_an_absent_resource_is_not_found() {
    let mut lock = MemoryLock::new("a".to_string());
    assert_eq!(lock.get().err(), Some(LockError::NotFound));
}

#[test]
fn create_stores_and_refuses_a_second_create() {
    let mut lock = MemoryLock::new("a".to_string());
    assert!(lock.create(&record("a")).is_ok());
    assert!(lock.get().ok().expect("stored") == record("a"));
    assert_eq!(lock.create(&record("b")).err(), Some(LockError::AlreadyExists));
    // The stored record is untouched by the refused create.
    assert!(lock.get().ok().expect("stored") == record("a"));
}

#[test]
fn update_requires_an_existing_resource() {
    let mut lock = MemoryLock::new("a".to_string());
    assert_eq!(lock.update(&record("a")).err(), Some(LockError::NotFound));
    assert!(lock.create(&record("a")).is_ok());
    assert!(lock.update(&record("b")).is_ok());
    assert!(lock.get().ok().expect("stored") == record("b"));
}

#[test]
fn injected_failures_surface_as_transport_errors_then_clear() {
    let mut lock = MemoryLock::new("a".to_string());
    assert!(lock.create(&record("a")).is_ok());
    lock.inject_failures(2);
    assert_eq!(lock.get().err(), Some(LockError::Transport));
    assert_eq!(lock.update(&record("b")).err(), Some(LockError::Transport));
    // The failures are spent; the stored record was never disturbed.
    assert!(lock.get().ok().expect("stored") == record("a"));
}
