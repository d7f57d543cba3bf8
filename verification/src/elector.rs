//! The elector: the acquire/renew/release state machine.
//!
//! An elector owns a lock handle, a set of timings, and the cached
//! observation pair `(observed_record, observed_time_micros)` — the last
//! record it read or wrote, and the local clock reading at which that
//! record was established. Both halves of the pair move in the same
//! logical step, never independently.
//!
//! The driving loop, the callback executor and the clock live with the
//! embedding application: every operation here takes the current time as
//! a plain value and returns what the loop needs to act on. Each step is
//! verified for every outcome the lock can produce.

use crate::builder::ElectorBuilder;
use crate::lock::Lock;
use crate::lock::LockError;
use crate::record::ElectionRecord;
use crate::record::RecordView;
use crate::record::holder_or_empty;
use crate::record::transitions_or_zero;
use vstd::prelude::*;

verus! {

/// Duration a holder claims the lease for, unless configured: 15 s.
pub const DEFAULT_LEASE_DURATION_MICROS: u64 = 15_000_000;

/// Longest a leader may fail to renew before self-demoting, unless
/// configured: 10 s.
pub const DEFAULT_RENEW_DEADLINE_MICROS: u64 = 10_000_000;

/// Base interval between acquire or renew attempts, unless configured: 2 s.
pub const DEFAULT_RETRY_PERIOD_MICROS: u64 = 2_000_000;

/// The health probe's error: the elector believes itself leader but has
/// not refreshed its own observation within its lease window.
#[derive(Clone, Copy, PartialEq, Eq, Structural, Debug)]
pub enum ElectorError {
    Validation,
}

/// The lock an elector drives, and its timings, in microseconds.
pub struct Config<L: Lock> {
    pub lock: L,
    pub lease_duration_micros: u64,
    pub renew_deadline_micros: u64,
    pub retry_period_micros: u64,
}

/// The notification hooks an embedding application provides: called once
/// after the first successful acquire, once when the elector stops
/// leading, and whenever the observed holder changes. The library only
/// decides when a notification is due; the driving loop dispatches these.
pub struct Callbacks<F0, F1, F2> {
    pub on_started_leading: F0,
    pub on_stopped_leading: F1,
    pub on_new_leader: F2,
}

/// The election state machine.
pub struct Elector<L: Lock> {
    pub cfg: Config<L>,
    pub observed_record: Option<ElectionRecord>,
    pub observed_time_micros: Option<u64>,
    pub reported_leader: String,
}

/// The claimed lease length in whole seconds, as the record stores it:
/// the microsecond duration rounded down, capped at what the record field
/// can hold.
pub open spec fn lease_seconds_spec(lease_duration_micros: int) -> int {
    if lease_duration_micros / 1_000_000 > i32::MAX as int {
        i32::MAX as int
    } else {
        lease_duration_micros / 1_000_000
    }
}

/// Exec counterpart of [`lease_seconds_spec`].
pub fn lease_seconds(lease_duration_micros: u64) -> (r: i32)
    ensures
        r as int == lease_seconds_spec(lease_duration_micros as int),
{
    let secs = lease_duration_micros / 1_000_000;
    if secs > i32::MAX as u64 {
        i32::MAX
    } else {
        secs as i32
    }
}

/// The record a contender proposes: itself as holder, the claimed lease
/// length, acquisition and renewal stamped `now`, and a fresh transition
/// counter.
pub open spec fn candidate_record_spec(own_id: Seq<char>, now_micros: u64, lease_duration_micros: u64) -> RecordView {
    RecordView {
        holder_id: Some(own_id),
        lease_duration_seconds: Some(lease_seconds_spec(lease_duration_micros as int)),
        acquire_time: Some(now_micros as int),
        renew_time: Some(now_micros as int),
        lease_transitions: Some(0),
    }
}

/// Exec counterpart of [`candidate_record_spec`].
pub fn candidate_record(own_id: String, now_micros: u64, lease_duration_micros: u64) -> (r: ElectionRecord)
    ensures
        r@ == candidate_record_spec(own_id@, now_micros, lease_duration_micros),
{
    ElectionRecord {
        holder_id: Some(own_id),
        lease_duration_seconds: Some(lease_seconds(lease_duration_micros)),
        acquire_time: Some(now_micros),
        renew_time: Some(now_micros),
        lease_transitions: Some(0),
    }
}

/// Whether a record names `own_id` as the holder.
pub open spec fn is_holder(rec: RecordView, own_id: Seq<char>) -> bool {
    rec.holder_id matches Some(h) && h == own_id
}

/// The guard that keeps a contender from stealing a live lease: the
/// record names a non-empty holder other than us, and the lease window
/// measured from our own observation has not yet elapsed.
pub open spec fn foreign_lease_unexpired_spec(
    old_rec: RecordView,
    observed_time_micros: Option<u64>,
    now_micros: u64,
    lease_duration_micros: u64,
    own_id: Seq<char>,
) -> bool {
    &&& holder_or_empty(old_rec).len() > 0
    &&& (observed_time_micros matches Some(obs) && obs + lease_duration_micros > now_micros)
    &&& !is_holder(old_rec, own_id)
}

/// Exec counterpart of [`foreign_lease_unexpired_spec`].
pub fn foreign_lease_unexpired(
    old_record: &ElectionRecord,
    observed_time_micros: Option<u64>,
    now_micros: u64,
    lease_duration_micros: u64,
    own_id: &String,
) -> (r: bool)
    ensures
        r == foreign_lease_unexpired_spec(
            old_record@,
            observed_time_micros,
            now_micros,
            lease_duration_micros,
            own_id@,
        ),
{
    let holder_nonempty = match &old_record.holder_id {
        Some(h) => !h.as_str().is_empty(),
        None => false,
    };
    let unexpired = match observed_time_micros {
        Some(obs) => obs > now_micros || now_micros - obs < lease_duration_micros,
        None => false,
    };
    let held_by_us = match &old_record.holder_id {
        Some(h) => *h == *own_id,
        None => false,
    };
    holder_nonempty && unexpired && !held_by_us
}

/// The saturating step the transition counter takes on a handover.
pub open spec fn incremented_transitions(old_rec: RecordView) -> int {
    let t = transitions_or_zero(old_rec);
    if t < i32::MAX as int {
        t + 1
    } else {
        t
    }
}

/// The record written on a claim or renewal, corrected from the record
/// currently on the server: the server's transition counter is kept when
/// the writer already holds the lease — together with the original
/// acquisition time — and stepped by one on a genuine handover.
pub open spec fn renewal_record_spec(candidate: RecordView, old_rec: RecordView, own_id: Seq<char>) -> RecordView {
    if is_holder(old_rec, own_id) {
        RecordView {
            holder_id: candidate.holder_id,
            lease_duration_seconds: candidate.lease_duration_seconds,
            acquire_time: old_rec.acquire_time,
            renew_time: candidate.renew_time,
            lease_transitions: old_rec.lease_transitions,
        }
    } else {
        RecordView {
            holder_id: candidate.holder_id,
            lease_duration_seconds: candidate.lease_duration_seconds,
            acquire_time: candidate.acquire_time,
            renew_time: candidate.renew_time,
            lease_transitions: Some(incremented_transitions(old_rec)),
        }
    }
}

/// Exec counterpart of [`renewal_record_spec`].
pub fn renewal_record(candidate: ElectionRecord, old_record: &ElectionRecord, own_id: &String) -> (r: ElectionRecord)
    ensures
        r@ == renewal_record_spec(candidate@, old_record@, own_id@),
{
    let leading = match &old_record.holder_id {
        Some(h) => *h == *own_id,
        None => false,
    };
    if leading {
        ElectionRecord {
            acquire_time: old_record.acquire_time,
            lease_transitions: old_record.lease_transitions,
            ..candidate
        }
    } else {
        let t: i32 = match old_record.lease_transitions {
            Some(t) => t,
            None => 0,
        };
        let stepped: i32 = if t < i32::MAX {
            t + 1
        } else {
            t
        };
        ElectionRecord { lease_transitions: Some(stepped), ..candidate }
    }
}

/// What one announcement step does: a holder equal to the identity last
/// announced is suppressed; any other is announced and remembered.
pub open spec fn report_decision(reported: Seq<char>, holder: Seq<char>) -> Option<Seq<char>> {
    if holder == reported {
        None
    } else {
        Some(holder)
    }
}

impl<L: Lock> Config<L> {
    /// The timing invariant every built configuration satisfies: a leader
    /// self-demotes before its lease can lapse, and retries fit inside
    /// the renew deadline.
    pub open spec fn timings_wf(&self) -> bool {
        crate::builder::timings_valid(
            self.lease_duration_micros,
            self.renew_deadline_micros,
            self.retry_period_micros,
        )
    }
}

impl<L: Lock> Elector<L> {
    /// This elector's identity.
    pub open spec fn id_spec(&self) -> Seq<char> {
        self.cfg.lock.id()
    }

    /// Whether the last observed record names this elector as holder.
    pub open spec fn is_leader_spec(&self) -> bool {
        match self.observed_record {
            Some(rec) => match rec.holder_id {
                Some(h) => h@ == self.id_spec(),
                None => false,
            },
            None => false,
        }
    }

    /// The observed holder identity, read as empty when nothing has been
    /// observed or the record names no holder.
    pub open spec fn observed_holder_or_empty(&self) -> Seq<char> {
        match self.observed_record {
            Some(rec) => holder_or_empty(rec@),
            None => Seq::<char>::empty(),
        }
    }

    /// The two halves of the observation pair are set in the same logical
    /// step: either both are present or neither is.
    pub open spec fn observed_wf(&self) -> bool {
        self.observed_record is Some <==> self.observed_time_micros is Some
    }

    /// The health probe's failing condition: the elector believes itself
    /// leader, yet more than the lease duration plus the caller's
    /// tolerance has passed since its observation was established.
    pub open spec fn check_violation(&self, max_tolerable_expired_micros: u64, now_micros: u64) -> bool {
        &&& self.is_leader_spec()
        &&& (self.observed_time_micros matches Some(obs) && now_micros - obs
            > self.cfg.lease_duration_micros + max_tolerable_expired_micros)
    }

    /// An elector over the given lock with the default timings; touches
    /// nothing remote.
    pub fn new(lock: L) -> (r: Elector<L>)
        ensures
            r.cfg.lock == lock,
            r.cfg.lease_duration_micros == DEFAULT_LEASE_DURATION_MICROS,
            r.cfg.renew_deadline_micros == DEFAULT_RENEW_DEADLINE_MICROS,
            r.cfg.retry_period_micros == DEFAULT_RETRY_PERIOD_MICROS,
            r.observed_record is None,
            r.observed_time_micros is None,
            r.reported_leader@ == Seq::<char>::empty(),
    {
        let built = ElectorBuilder::new(lock).build();
        match built {
            Ok(e) => e,
            Err(_) => vstd::pervasive::unreached(),
        }
    }

    /// This elector's own identity string — the identity it competes
    /// under, not the observed holder.
    pub fn leader_id(&self) -> (r: String)
        ensures
            r@ == self.id_spec(),
    {
        self.cfg.lock.lock_id()
    }

    /// Whether the last observed record names this elector as holder.
    pub fn is_leader(&self) -> (r: bool)
        ensures
            r == self.is_leader_spec(),
    {
        match &self.observed_record {
            Some(rec) => match &rec.holder_id {
                Some(h) => {
                    let me = self.cfg.lock.lock_id();
                    *h == me
                },
                None => false,
            },
            None => false,
        }
    }

    /// Health probe: fails exactly when this elector believes itself
    /// leader but has not re-established its observation within its own
    /// lease window plus the caller's tolerance — a stalled process that
    /// should report itself unhealthy whatever the control plane says.
    pub fn check(&self, max_tolerable_expired_micros: u64, now_micros: u64) -> (r: Result<
        (),
        ElectorError,
    >)
        ensures
            r is Err <==> self.check_violation(max_tolerable_expired_micros, now_micros),
            r is Err ==> r == Result::<(), ElectorError>::Err(ElectorError::Validation),
    {
        if self.is_leader() {
            match self.observed_time_micros {
                Some(obs) => {
                    if now_micros > obs {
                        let elapsed = now_micros - obs;
                        if elapsed > self.cfg.lease_duration_micros && (elapsed
                            - self.cfg.lease_duration_micros) > max_tolerable_expired_micros {
                            return Err(ElectorError::Validation);
                        }
                    }
                },
                None => {},
            }
        }
        Ok(())
    }

    /// One step of the core protocol: try to claim or renew the lease,
    /// collapsing every failure into a `false` return for the driving
    /// loop to retry.
    ///
    /// Reads the shared record; creates the candidate when none exists;
    /// refreshes the observation pair whenever the server view changed;
    /// stands down while a foreign lease is live; otherwise writes the
    /// corrected record. Returns `true` exactly on a successful write,
    /// and then the observation pair holds the written record at `now`.
    pub fn acquire_or_renew(&mut self, now_micros: u64) -> (r: bool)
        ensures
            final(self).cfg.lock.id() == old(self).cfg.lock.id(),
            final(self).cfg.lease_duration_micros == old(self).cfg.lease_duration_micros,
            final(self).cfg.renew_deadline_micros == old(self).cfg.renew_deadline_micros,
            final(self).cfg.retry_period_micros == old(self).cfg.retry_period_micros,
            final(self).reported_leader == old(self).reported_leader,
            old(self).observed_wf() ==> final(self).observed_wf(),
            r ==> final(self).is_leader_spec(),
            r ==> final(self).observed_time_micros == Some(now_micros),
            r ==> (final(self).observed_record matches Some(rec) && (rec@.holder_id == Some(
                old(self).id_spec(),
            ) && rec@.renew_time == Some(now_micros as int) && rec@.lease_duration_seconds == Some(
                lease_seconds_spec(old(self).cfg.lease_duration_micros as int),
            ))),
            !r ==> (final(self).observed_record == old(self).observed_record
                && final(self).observed_time_micros == old(self).observed_time_micros)
                || final(self).observed_time_micros == Some(now_micros),
    {
        let own_id = self.cfg.lock.lock_id();
        let candidate = candidate_record(
            own_id.clone(),
            now_micros,
            self.cfg.lease_duration_micros,
        );

        match self.cfg.lock.get() {
            Err(LockError::NotFound) => {
                // No record yet: try to create ours.
                match self.cfg.lock.create(&candidate) {
                    Err(_) => false,
                    Ok(_) => {
                        self.observed_record = Some(candidate);
                        self.observed_time_micros = Some(now_micros);
                        true
                    },
                }
            },
            Err(_) => false,
            Ok(old_record) => {
                // The server view changed: re-establish the observation
                // pair, resetting the local lease-expiry clock.
                let same = match &self.observed_record {
                    Some(obs) => *obs == old_record,
                    None => false,
                };
                if !same {
                    self.observed_record = Some(old_record.clone());
                    self.observed_time_micros = Some(now_micros);
                }
                // A live lease held by someone else: do not write.
                if foreign_lease_unexpired(
                    &old_record,
                    self.observed_time_micros,
                    now_micros,
                    self.cfg.lease_duration_micros,
                    &own_id,
                ) {
                    return false;
                }
                // Claim or renew with the corrected record.
                let next = renewal_record(candidate, &old_record, &own_id);
                match self.cfg.lock.update(&next) {
                    Err(_) => false,
                    Ok(_) => {
                        self.observed_record = Some(next);
                        self.observed_time_micros = Some(now_micros);
                        true
                    },
                }
            },
        }
    }

    /// Graceful hand-off for a stopping leader: shorten the claimed lease
    /// to one second so the next candidate barely waits. Keeps the
    /// transition counter and the holder, stamps both times `now`. A
    /// non-leader has nothing to release and reports success; a failed
    /// write reports `false` and is not retried.
    pub fn release(&mut self, now_micros: u64) -> (r: bool)
        ensures
            final(self).cfg.lock.id() == old(self).cfg.lock.id(),
            final(self).cfg.lease_duration_micros == old(self).cfg.lease_duration_micros,
            final(self).cfg.renew_deadline_micros == old(self).cfg.renew_deadline_micros,
            final(self).cfg.retry_period_micros == old(self).cfg.retry_period_micros,
            final(self).reported_leader == old(self).reported_leader,
            old(self).observed_wf() ==> final(self).observed_wf(),
            !old(self).is_leader_spec() ==> r && *final(self) == *old(self),
            old(self).is_leader_spec() && r ==> (final(self).observed_record matches Some(rec)
                && (rec@.holder_id == Some(old(self).id_spec())
                && rec@.lease_duration_seconds == Some(1int) && rec@.acquire_time == Some(
                now_micros as int,
            ) && rec@.renew_time == Some(now_micros as int)
                && (old(self).observed_record matches Some(prev) && rec@.lease_transitions
                == prev@.lease_transitions))),
            old(self).is_leader_spec() && r ==> final(self).observed_time_micros == Some(
                now_micros,
            ),
            old(self).is_leader_spec() && !r ==> (final(self).observed_record
                == old(self).observed_record
                && final(self).observed_time_micros == old(self).observed_time_micros),
    {
        if !self.is_leader() {
            return true;
        }
        let transitions: Option<i32> = match &self.observed_record {
            Some(rec) => rec.lease_transitions,
            None => None,
        };
        let new_record = ElectionRecord {
            holder_id: Some(self.cfg.lock.lock_id()),
            lease_duration_seconds: Some(1),
            acquire_time: Some(now_micros),
            renew_time: Some(now_micros),
            lease_transitions: transitions,
        };
        match self.cfg.lock.update(&new_record) {
            Err(_) => false,
            Ok(_) => {
                self.observed_record = Some(new_record);
                self.observed_time_micros = Some(now_micros);
                true
            },
        }
    }

    /// Announce the observed holder if it differs from the identity last
    /// announced; remember what was announced. Returns the identity to
    /// hand to the `on_new_leader` hook, or nothing when the holder is
    /// unchanged — the same identity is never announced twice running.
    pub fn report_transition_if_needed(&mut self) -> (r: Option<String>)
        ensures
            final(self).cfg == old(self).cfg,
            final(self).observed_record == old(self).observed_record,
            final(self).observed_time_micros == old(self).observed_time_micros,
            match report_decision(
                old(self).reported_leader@,
                old(self).observed_holder_or_empty(),
            ) {
                Some(announced) => r matches Some(id) && id@ == announced
                    && final(self).reported_leader@ == announced,
                None => r is None && final(self).reported_leader == old(self).reported_leader,
            },
    {
        let holder: String = match &self.observed_record {
            Some(rec) => match &rec.holder_id {
                Some(h) => h.clone(),
                None => String::new(),
            },
            None => String::new(),
        };
        if holder == self.reported_leader {
            return None;
        }
        self.reported_leader = holder.clone();
        Some(holder)
    }
}

/// Mutual exclusion at steady state: two electors with distinct
/// identities whose observations agree on the shared record are never
/// both leaders — each believes itself leader only when the record names
/// it, and one record names at most one holder.
pub proof fn lemma_mutual_exclusion_at_steady_state<LA: Lock, LB: Lock>(
    a: &Elector<LA>,
    b: &Elector<LB>,
)
    requires
        a.id_spec() != b.id_spec(),
        a.observed_record matches Some(ra) && (b.observed_record matches Some(rb) && ra@ == rb@),
    ensures
        !(a.is_leader_spec() && b.is_leader_spec()),
{
}

/// The transition counter never decreases across a successful write: a
/// renewal keeps the counter of the record it replaces, a handover steps
/// it up (saturating at the field's limit).
pub proof fn lemma_transitions_monotone(
    candidate: RecordView,
    old_rec: RecordView,
    own_id: Seq<char>,
)
    ensures
        transitions_or_zero(renewal_record_spec(candidate, old_rec, own_id))
            >= transitions_or_zero(old_rec),
{
}

/// A holder's own renewal leaves the transition counter exactly where it
/// was.
pub proof fn lemma_renewal_preserves_transitions(
    candidate: RecordView,
    old_rec: RecordView,
    own_id: Seq<char>,
)
    requires
        is_holder(old_rec, own_id),
    ensures
        renewal_record_spec(candidate, old_rec, own_id).lease_transitions
            == old_rec.lease_transitions,
        renewal_record_spec(candidate, old_rec, own_id).acquire_time == old_rec.acquire_time,
{
}

/// Any run of uncontested renewals leaves the transition counter — and
/// the acquisition time — unchanged from the record the run started
/// with: `records[i + 1]` is what the holder writes over `records[i]`.
pub proof fn lemma_renewal_run_preserves_transitions(
    records: Seq<RecordView>,
    candidates: Seq<RecordView>,
    own_id: Seq<char>,
)
    requires
        records.len() >= 1,
        candidates.len() + 1 == records.len(),
        forall|i: int|
            0 <= i < candidates.len() ==> is_holder(#[trigger] records[i], own_id) && records[i
                + 1] == renewal_record_spec(candidates[i], records[i], own_id),
    ensures
        records.last().lease_transitions == records.first().lease_transitions,
        records.last().acquire_time == records.first().acquire_time,
    decreases records.len(),
{
    if records.len() > 1 {
        let shorter = records.drop_last();
        let n = candidates.len() as int;
        lemma_renewal_run_preserves_transitions(shorter, candidates.drop_last(), own_id);
        lemma_renewal_preserves_transitions(candidates[n - 1], records[n - 1], own_id);
        assert(shorter.last() == records[n - 1]);
        assert(shorter.first() == records.first());
    }
}

/// Consecutive announcements never repeat an identity: once an identity
/// has been announced and remembered, the next announcement can only be
/// of a different one.
pub proof fn lemma_no_consecutive_duplicate_announcements(
    reported: Seq<char>,
    first_holder: Seq<char>,
    second_holder: Seq<char>,
)
    requires
        report_decision(reported, first_holder) is Some,
        report_decision(report_decision(reported, first_holder).unwrap(), second_holder) is Some,
    ensures
        report_decision(report_decision(reported, first_holder).unwrap(), second_holder).unwrap()
            != report_decision(reported, first_holder).unwrap(),
{
}

} // verus!
