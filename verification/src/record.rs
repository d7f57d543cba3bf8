//! The election record: the payload written to the shared lock resource.
//!
//! Every field is optional so that partial or legacy records read from the
//! backend are tolerated. Timestamps are microseconds since the epoch;
//! the claimed lease length is whole seconds, as the backend schema stores
//! it. Records are value types: cloned freely, compared structurally.

use vstd::prelude::*;

verus! {

/// Mathematical image of an [`ElectionRecord`]: strings as character
/// sequences, machine integers as unbounded integers.
pub struct RecordView {
    pub holder_id: Option<Seq<char>>,
    pub lease_duration_seconds: Option<int>,
    pub acquire_time: Option<int>,
    pub renew_time: Option<int>,
    pub lease_transitions: Option<int>,
}

/// The payload stored in the shared lock resource.
///
/// - `holder_id`: identity of the current claimed leader.
/// - `lease_duration_seconds`: whole seconds the holder claims the lease for.
/// - `acquire_time`: microseconds since the epoch when the current holder
///   first acquired leadership.
/// - `renew_time`: microseconds since the epoch of the most recent
///   successful renewal.
/// - `lease_transitions`: counter of holder changes since the record was
///   created.
#[derive(Debug)]
pub struct ElectionRecord {
    pub holder_id: Option<String>,
    pub lease_duration_seconds: Option<i32>,
    pub acquire_time: Option<u64>,
    pub renew_time: Option<u64>,
    pub lease_transitions: Option<i32>,
}

impl View for ElectionRecord {
    type V = RecordView;

    open spec fn view(&self) -> RecordView {
        RecordView {
            holder_id: match self.holder_id {
                Some(h) => Some(h@),
                None => None,
            },
            lease_duration_seconds: match self.lease_duration_seconds {
                Some(v) => Some(v as int),
                None => None,
            },
            acquire_time: match self.acquire_time {
                Some(v) => Some(v as int),
                None => None,
            },
            renew_time: match self.renew_time {
                Some(v) => Some(v as int),
                None => None,
            },
            lease_transitions: match self.lease_transitions {
                Some(v) => Some(v as int),
                None => None,
            },
        }
    }
}

/// The holder identity of a record, reading an absent holder as the empty
/// string, as observers of the record do.
pub open spec fn holder_or_empty(r: RecordView) -> Seq<char> {
    match r.holder_id {
        Some(h) => h,
        None => Seq::<char>::empty(),
    }
}

/// The transition counter of a record, reading an absent counter as zero.
pub open spec fn transitions_or_zero(r: RecordView) -> int {
    match r.lease_transitions {
        Some(t) => t,
        None => 0,
    }
}

/// Equality on optional strings, by contents.
pub fn opt_string_eq(a: &Option<String>, b: &Option<String>) -> (r: bool)
    ensures
        r == match (*a, *b) {
            (Some(x), Some(y)) => x@ == y@,
            (None, None) => true,
            _ => false,
        },
{
    match (a, b) {
        (Some(x), Some(y)) => *x == *y,
        (None, None) => true,
        _ => false,
    }
}

/// Equality on optional 32-bit integers.
pub fn opt_i32_eq(a: &Option<i32>, b: &Option<i32>) -> (r: bool)
    ensures
        r == match (*a, *b) {
            (Some(x), Some(y)) => x == y,
            (None, None) => true,
            _ => false,
        },
{
    match (a, b) {
        (Some(x), Some(y)) => x == y,
        (None, None) => true,
        _ => false,
    }
}

/// Equality on optional 64-bit timestamps.
pub fn opt_u64_eq(a: &Option<u64>, b: &Option<u64>) -> (r: bool)
    ensures
        r == match (*a, *b) {
            (Some(x), Some(y)) => x == y,
            (None, None) => true,
            _ => false,
        },
{
    match (a, b) {
        (Some(x), Some(y)) => x == y,
        (None, None) => true,
        _ => false,
    }
}

impl ElectionRecord {
    /// The canonical empty record: every field absent.
    pub fn empty() -> (r: ElectionRecord)
        ensures
            r@ == (RecordView {
                holder_id: None,
                lease_duration_seconds: None,
                acquire_time: None,
                renew_time: None,
                lease_transitions: None,
            }),
    {
        ElectionRecord {
            holder_id: None,
            lease_duration_seconds: None,
            acquire_time: None,
            renew_time: None,
            lease_transitions: None,
        }
    }
}

impl Default for ElectionRecord {
    /// The default record is the canonical empty form.
    fn default() -> (r: Self)
        ensures
            r@ == (RecordView {
                holder_id: None,
                lease_duration_seconds: None,
                acquire_time: None,
                renew_time: None,
                lease_transitions: None,
            }),
    {
        ElectionRecord::empty()
    }
}

impl Clone for ElectionRecord {
    /// Cloning preserves the record contents exactly.
    fn clone(&self) -> (r: Self)
        ensures
            r@ == self@,
    {
        ElectionRecord {
            holder_id: match &self.holder_id {
                Some(h) => Some(h.clone()),
                None => None,
            },
            lease_duration_seconds: self.lease_duration_seconds,
            acquire_time: self.acquire_time,
            renew_time: self.renew_time,
            lease_transitions: self.lease_transitions,
        }
    }
}

impl PartialEq for ElectionRecord {
    /// Two records are equal exactly when all five fields agree.
    fn eq(&self, other: &Self) -> (r: bool) {
        opt_string_eq(&self.holder_id, &other.holder_id)
            && opt_i32_eq(&self.lease_duration_seconds, &other.lease_duration_seconds)
            && opt_u64_eq(&self.acquire_time, &other.acquire_time)
            && opt_u64_eq(&self.renew_time, &other.renew_time)
            && opt_i32_eq(&self.lease_transitions, &other.lease_transitions)
    }
}

impl vstd::std_specs::cmp::PartialEqSpecImpl for ElectionRecord {
    open spec fn obeys_eq_spec() -> bool {
        true
    }

    open spec fn eq_spec(&self, other: &Self) -> bool {
        self@ == other@
    }
}

} // verus!
