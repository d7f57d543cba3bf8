use leader_election::ElectionRecord;
use leader_election::LeaseSpec;

fn sample_record() -> ElectionRecord {
    ElectionRecord {
        holder_id: Some("a".to_string()),
        lease_duration_seconds: Some(15),
        acquire_time: Some(1_000_000),
        renew_time: Some(2_000_000),
        lease_transitions: Some(3),
    }
}

#[test]
fn empty_record_has_every_field_absent() {
    let r = ElectionRecord::empty();
    assert!(r.holder_id.is_none());
    assert!(r.lease_duration_seconds.is_none());
    assert!(r.acquire_time.is_none());
    assert!(r.renew_time.is_none());
    assert!(r.lease_transitions.is_none());
}

#[test]
fn default_record_is_empty() {
    let d = ElectionRecord::default();
    assert!(d == ElectionRecord::empty());
}

#[test]
fn clone_preserves_every_field() {
    let r = sample_record();
    let c = r.clone();
    assert!(c == r);
    assert_eq!(c.holder_id.as_deref(), Some("a"));
    assert_eq!(c.lease_transitions, Some(3));
}

#[test]
fn records_equal_iff_all_fields_agree() {
    let r = sample_record();
    assert!(r == sample_record());

    let mut other_holder = sample_record();
    other_holder.holder_id = Some("b".to_string());
    assert!(r != other_holder);

    let mut absent_holder = sample_record();
    absent_holder.holder_id = None;
    assert!(r != absent_holder);

    let mut other_duration = sample_record();
    other_duration.lease_duration_seconds = Some(16);
    assert!(r != other_duration);

    let mut other_acquire = sample_record();
    other_acquire.acquire_time = Some(999_999);
    assert!(r != other_acquire);

    let mut other_renew = sample_record();
    other_renew.renew_time = None;
    assert!(r != other_renew);

    let mut other_transitions = sample_record();
    other_transitions.lease_transitions = Some(4);
    assert!(r != other_transitions);

    assert!(ElectionRecord::empty() == ElectionRecord::empty());
}

#[test]
fn record_to_lease_spec_maps_field_by_field() {
    let spec = LeaseSpec::from(sample_record());
    assert_eq!(spec.holder_identity.as_deref(), Some("a"));
    assert_eq!(spec.lease_duration_seconds, Some(15));
    assert_eq!(spec.acquire_time, Some(1_000_000));
    assert_eq!(spec.renew_time, Some(2_000_000));
    assert_eq!(spec.lease_transitions, Some(3));
}

#[test]
fn record_round_trips_through_lease_spec() {
    let original = sample_record();
    let back = ElectionRecord::from(LeaseSpec::from(sample_record()));
    assert!(back == original);

    let empty_back = ElectionRecord::from(LeaseSpec::from(ElectionRecord::empty()));
    assert!(empty_back == ElectionRecord::empty());
}

#[test]
fn lease_spec_round_trips_through_record() {
    let spec = LeaseSpec {
        acquire_time: Some(7),
        holder_identity: Some("holder".to_string()),
        lease_duration_seconds: None,
        lease_transitions: Some(0),
        renew_time: None,
    };
    let back = LeaseSpec::from(ElectionRecord::from(LeaseSpec {
        acquire_time: Some(7),
        holder_identity: Some("holder".to_string()),
        lease_duration_seconds: None,
        lease_transitions: Some(0),
        renew_time: None,
    }));
    assert!(back == spec);
}
