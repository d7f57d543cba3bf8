//! The lock abstraction: uniform CRUD over a remote election record.
//!
//! A lock is a handle bound to one shared resource and one caller
//! identity. The control plane behind it arbitrates concurrent writes, so
//! nothing is promised here about whether a call succeeds — only that the
//! handle's identity never changes. The election logic is verified for
//! every outcome a backend can produce.
//!
//! [`MemoryLock`] is a backend over process memory, for driving the
//! elector without a control plane; network-backed implementations live
//! with the embedding application.

use crate::record::ElectionRecord;
use vstd::prelude::*;

verus! {

/// Why a lock operation failed.
///
/// - `NotFound`: the shared resource does not exist.
/// - `AlreadyExists`: `create` raced with another writer that created the
///   resource first.
/// - `Conflict`: the caller's view of the resource is stale; the write was
///   rejected.
/// - `Transport`: the backend could not be reached or its answer could not
///   be read.
#[derive(Clone, Copy, PartialEq, Eq, Structural, Debug)]
pub enum LockError {
    NotFound,
    AlreadyExists,
    Conflict,
    Transport,
}

/// The kinds of backing resource a lock can use.
#[derive(Clone, Copy, PartialEq, Eq, Structural, Debug)]
pub enum LockKind {
    Endpoint,
    ConfigMap,
    Lease,
}

/// A handle on the shared election resource, bound to a caller identity.
///
/// `create`, `get` and `update` may fail in any way at any time; callers
/// must treat every outcome as possible. The identity the handle was made
/// with is immutable: every operation leaves `id()` unchanged.
pub trait Lock: Sized {
    /// The caller identity this handle was made with.
    spec fn id(&self) -> Seq<char>;

    /// The caller's identity string.
    fn lock_id(&self) -> (r: String)
        ensures
            r@ == self.id(),
    ;

    /// Create the backing resource holding `record`. Fails with
    /// `AlreadyExists` if the resource is already there.
    fn create(&mut self, record: &ElectionRecord) -> (r: Result<(), LockError>)
        ensures
            final(self).id() == old(self).id(),
    ;

    /// Read the current record. Fails with `NotFound` if the resource is
    /// absent.
    fn get(&mut self) -> (r: Result<ElectionRecord, LockError>)
        ensures
            final(self).id() == old(self).id(),
    ;

    /// Replace the record. Fails with `Conflict` if the caller's view is
    /// stale, or `NotFound` if the resource was deleted.
    fn update(&mut self, record: &ElectionRecord) -> (r: Result<(), LockError>)
        ensures
            final(self).id() == old(self).id(),
    ;
}

/// A lock over process memory: the stored record plays the part of the
/// shared resource. A countdown of injected transport failures lets a
/// caller exercise the elector's behaviour under an unreachable backend.
pub struct MemoryLock {
    pub id: String,
    pub stored: Option<ElectionRecord>,
    pub failures_left: u32,
}

impl MemoryLock {
    /// A fresh handle with the given identity and no resource yet.
    pub fn new(id: String) -> (r: MemoryLock)
        ensures
            r.id() == id@,
            r.stored is None,
            r.failures_left == 0,
    {
        MemoryLock { id, stored: None, failures_left: 0 }
    }

    /// A copy of the stored record, if the resource exists.
    pub fn stored_record(&self) -> (r: Option<ElectionRecord>)
        ensures
            match (r, self.stored) {
                (Some(a), Some(b)) => a@ == b@,
                (None, None) => true,
                _ => false,
            },
    {
        match &self.stored {
            Some(rec) => Some(rec.clone()),
            None => None,
        }
    }

    /// Overwrite the stored resource, bypassing the lock protocol — as
    /// another process writing to the shared resource would.
    pub fn put_record(&mut self, record: Option<ElectionRecord>)
        ensures
            final(self).id() == old(self).id(),
            final(self).stored == record,
            final(self).failures_left == old(self).failures_left,
    {
        self.stored = record;
    }

    /// Make the next `n` operations fail with a transport error.
    pub fn inject_failures(&mut self, n: u32)
        ensures
            final(self).id() == old(self).id(),
            final(self).stored == old(self).stored,
            final(self).failures_left == n,
    {
        self.failures_left = n;
    }

    fn take_failure(&mut self) -> (r: bool)
        ensures
            final(self).id == old(self).id,
            final(self).stored == old(self).stored,
            r == (old(self).failures_left > 0),
            final(self).failures_left == if old(self).failures_left > 0 {
                (old(self).failures_left - 1) as u32
            } else {
                0u32
            },
    {
        if self.failures_left > 0 {
            self.failures_left = self.failures_left - 1;
            true
        } else {
            false
        }
    }
}

impl Lock for MemoryLock {
    open spec fn id(&self) -> Seq<char> {
        self.id@
    }

    fn lock_id(&self) -> (r: String)
        ensures
            r@ == self.id(),
    {
        self.id.clone()
    }

    fn create(&mut self, record: &ElectionRecord) -> (r: Result<(), LockError>)
        ensures
            final(self).id() == old(self).id(),
            !(old(self).failures_left > 0) ==> match old(self).stored {
                Some(_) => r == Result::<(), LockError>::Err(LockError::AlreadyExists)
                    && final(self).stored == old(self).stored,
                None => r == Result::<(), LockError>::Ok(()) && (final(self).stored matches Some(s)
                    && s@ == record@),
            },
            old(self).failures_left > 0 ==> r == Result::<(), LockError>::Err(
                LockError::Transport,
            ) && final(self).stored == old(self).stored,
    {
        if self.take_failure() {
            return Err(LockError::Transport);
        }
        match &self.stored {
            Some(_) => Err(LockError::AlreadyExists),
            None => {
                self.stored = Some(record.clone());
                Ok(())
            },
        }
    }

    fn get(&mut self) -> (r: Result<ElectionRecord, LockError>)
        ensures
            final(self).id() == old(self).id(),
            final(self).stored == old(self).stored,
            !(old(self).failures_left > 0) ==> match old(self).stored {
                Some(s) => r matches Ok(rec) && rec@ == s@,
                None => r == Result::<ElectionRecord, LockError>::Err(LockError::NotFound),
            },
            old(self).failures_left > 0 ==> r == Result::<ElectionRecord, LockError>::Err(
                LockError::Transport,
            ),
    {
        if self.take_failure() {
            return Err(LockError::Transport);
        }
        match &self.stored {
            Some(rec) => Ok(rec.clone()),
            None => Err(LockError::NotFound),
        }
    }

    fn update(&mut self, record: &ElectionRecord) -> (r: Result<(), LockError>)
        ensures
            final(self).id() == old(self).id(),
            !(old(self).failures_left > 0) ==> match old(self).stored {
                Some(_) => r == Result::<(), LockError>::Ok(()) && (final(self).stored matches Some(
                    s,
                ) && s@ == record@),
                None => r == Result::<(), LockError>::Err(LockError::NotFound)
                    && final(self).stored == old(self).stored,
            },
            old(self).failures_left > 0 ==> r == Result::<(), LockError>::Err(
                LockError::Transport,
            ) && final(self).stored == old(self).stored,
    {
        if self.take_failure() {
            return Err(LockError::Transport);
        }
        match &self.stored {
            Some(_) => {
                self.stored = Some(record.clone());
                Ok(())
            },
            None => Err(LockError::NotFound),
        }
    }
}

} // verus!
