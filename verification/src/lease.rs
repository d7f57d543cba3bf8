//! The Lease-style backend schema.
//!
//! A Lease-backed lock persists exactly the five election-record fields
//! inside the backing object's spec, under the backend's own field names.
//! This module holds that schema as plain values and the field-by-field
//! conversions in both directions; converting a record to the backend
//! schema and back is the identity, and likewise starting from the schema.

use crate::record::ElectionRecord;
use vstd::prelude::*;
use vstd::std_specs::convert::FromSpec;

verus! {

/// Mathematical image of a [`LeaseSpec`].
pub struct LeaseSpecView {
    pub acquire_time: Option<int>,
    pub holder_identity: Option<Seq<char>>,
    pub lease_duration_seconds: Option<int>,
    pub lease_transitions: Option<int>,
    pub renew_time: Option<int>,
}

/// The spec portion of a Lease-style lock resource, as plain values:
/// timestamps are microseconds since the epoch.
#[derive(Debug)]
pub struct LeaseSpec {
    pub acquire_time: Option<u64>,
    pub holder_identity: Option<String>,
    pub lease_duration_seconds: Option<i32>,
    pub lease_transitions: Option<i32>,
    pub renew_time: Option<u64>,
}

impl View for LeaseSpec {
    type V = LeaseSpecView;

    open spec fn view(&self) -> LeaseSpecView {
        LeaseSpecView {
            acquire_time: match self.acquire_time {
                Some(v) => Some(v as int),
                None => None,
            },
            holder_identity: match self.holder_identity {
                Some(h) => Some(h@),
                None => None,
            },
            lease_duration_seconds: match self.lease_duration_seconds {
                Some(v) => Some(v as int),
                None => None,
            },
            lease_transitions: match self.lease_transitions {
                Some(v) => Some(v as int),
                None => None,
            },
            renew_time: match self.renew_time {
                Some(v) => Some(v as int),
                None => None,
            },
        }
    }
}

impl From<ElectionRecord> for LeaseSpec {
    /// Field-by-field translation of a record into the backend schema.
    fn from(x: ElectionRecord) -> (r: Self) {
        LeaseSpec {
            acquire_time: x.acquire_time,
            holder_identity: x.holder_id,
            lease_duration_seconds: x.lease_duration_seconds,
            lease_transitions: x.lease_transitions,
            renew_time: x.renew_time,
        }
    }
}

impl vstd::std_specs::convert::FromSpecImpl<ElectionRecord> for LeaseSpec {
    open spec fn obeys_from_spec() -> bool {
        true
    }

    open spec fn from_spec(x: ElectionRecord) -> LeaseSpec {
        LeaseSpec {
            acquire_time: x.acquire_time,
            holder_identity: x.holder_id,
            lease_duration_seconds: x.lease_duration_seconds,
            lease_transitions: x.lease_transitions,
            renew_time: x.renew_time,
        }
    }
}

impl From<LeaseSpec> for ElectionRecord {
    /// Field-by-field translation of the backend schema into a record.
    fn from(x: LeaseSpec) -> (r: Self) {
        ElectionRecord {
            holder_id: x.holder_identity,
            lease_duration_seconds: x.lease_duration_seconds,
            acquire_time: x.acquire_time,
            renew_time: x.renew_time,
            lease_transitions: x.lease_transitions,
        }
    }
}

impl vstd::std_specs::cmp::PartialEqSpecImpl for LeaseSpec {
    open spec fn obeys_eq_spec() -> bool {
        true
    }

    open spec fn eq_spec(&self, other: &Self) -> bool {
        self@ == other@
    }
}

impl PartialEq for LeaseSpec {
    /// Two specs are equal exactly when all five fields agree.
    fn eq(&self, other: &Self) -> (r: bool) {
        crate::record::opt_u64_eq(&self.acquire_time, &other.acquire_time)
            && crate::record::opt_string_eq(&self.holder_identity, &other.holder_identity)
            && crate::record::opt_i32_eq(
                &self.lease_duration_seconds,
                &other.lease_duration_seconds,
            )
            && crate::record::opt_i32_eq(&self.lease_transitions, &other.lease_transitions)
            && crate::record::opt_u64_eq(&self.renew_time, &other.renew_time)
    }
}

impl vstd::std_specs::convert::FromSpecImpl<LeaseSpec> for ElectionRecord {
    open spec fn obeys_from_spec() -> bool {
        true
    }

    open spec fn from_spec(x: LeaseSpec) -> ElectionRecord {
        ElectionRecord {
            holder_id: x.holder_identity,
            lease_duration_seconds: x.lease_duration_seconds,
            acquire_time: x.acquire_time,
            renew_time: x.renew_time,
            lease_transitions: x.lease_transitions,
        }
    }
}

/// Translating a record into the backend schema and back returns the very
/// record that was put in.
pub proof fn lemma_record_round_trip(r: ElectionRecord)
    ensures
        <ElectionRecord as FromSpec<LeaseSpec>>::from_spec(
            <LeaseSpec as FromSpec<ElectionRecord>>::from_spec(r),
        ) == r,
{
}

/// Translating the backend schema into a record and back returns the very
/// spec that was put in.
pub proof fn lemma_lease_spec_round_trip(s: LeaseSpec)
    ensures
        <LeaseSpec as FromSpec<ElectionRecord>>::from_spec(
            <ElectionRecord as FromSpec<LeaseSpec>>::from_spec(s),
        ) == s,
{
}

} // verus!
