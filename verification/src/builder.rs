//! Validated assembly of an elector.
//!
//! The builder starts from the default timings and rejects, at `build`
//! time, any combination in which the renew deadline does not fit
//! strictly inside the lease duration, or the retry period does not fit
//! inside the renew deadline. The builder is single-use: `build` consumes
//! it.

use crate::elector::Config;
use crate::elector::DEFAULT_LEASE_DURATION_MICROS;
use crate::elector::DEFAULT_RENEW_DEADLINE_MICROS;
use crate::elector::DEFAULT_RETRY_PERIOD_MICROS;
use crate::elector::Elector;
use crate::lock::Lock;
use vstd::prelude::*;

verus! {

/// Why a configuration was rejected.
///
/// - `RenewDeadlineTooLong`: the renew deadline is not strictly shorter
///   than the lease duration.
/// - `RetryPeriodTooLong`: the retry period is longer than the renew
///   deadline.
#[derive(Clone, Copy, PartialEq, Eq, Structural, Debug)]
pub enum ConfigError {
    RenewDeadlineTooLong,
    RetryPeriodTooLong,
}

/// Single-use builder for an [`Elector`].
pub struct ElectorBuilder<L: Lock> {
    pub lock: L,
    pub lease_duration_micros: u64,
    pub renew_deadline_micros: u64,
    pub retry_period_micros: u64,
}

/// The timing invariant `build` enforces.
pub open spec fn timings_valid(
    lease_duration_micros: u64,
    renew_deadline_micros: u64,
    retry_period_micros: u64,
) -> bool {
    &&& renew_deadline_micros < lease_duration_micros
    &&& retry_period_micros <= renew_deadline_micros
}

impl<L: Lock> ElectorBuilder<L> {
    /// A builder over the given lock, with the default timings.
    pub fn new(lock: L) -> (r: ElectorBuilder<L>)
        ensures
            r.lock == lock,
            r.lease_duration_micros == DEFAULT_LEASE_DURATION_MICROS,
            r.renew_deadline_micros == DEFAULT_RENEW_DEADLINE_MICROS,
            r.retry_period_micros == DEFAULT_RETRY_PERIOD_MICROS,
    {
        ElectorBuilder {
            lock,
            lease_duration_micros: DEFAULT_LEASE_DURATION_MICROS,
            renew_deadline_micros: DEFAULT_RENEW_DEADLINE_MICROS,
            retry_period_micros: DEFAULT_RETRY_PERIOD_MICROS,
        }
    }

    /// Replace the lease duration.
    pub fn lease_duration(self, micros: u64) -> (r: Self)
        ensures
            r.lock == self.lock,
            r.lease_duration_micros == micros,
            r.renew_deadline_micros == self.renew_deadline_micros,
            r.retry_period_micros == self.retry_period_micros,
    {
        ElectorBuilder { lease_duration_micros: micros, ..self }
    }

    /// Replace the renew deadline.
    pub fn renew_deadline(self, micros: u64) -> (r: Self)
        ensures
            r.lock == self.lock,
            r.lease_duration_micros == self.lease_duration_micros,
            r.renew_deadline_micros == micros,
            r.retry_period_micros == self.retry_period_micros,
    {
        ElectorBuilder { renew_deadline_micros: micros, ..self }
    }

    /// Replace the retry period.
    pub fn retry_period(self, micros: u64) -> (r: Self)
        ensures
            r.lock == self.lock,
            r.lease_duration_micros == self.lease_duration_micros,
            r.renew_deadline_micros == self.renew_deadline_micros,
            r.retry_period_micros == micros,
    {
        ElectorBuilder { retry_period_micros: micros, ..self }
    }

    /// Assemble the elector, rejecting invalid timings: succeeds exactly
    /// when the renew deadline fits strictly inside the lease duration
    /// and the retry period fits inside the renew deadline. A fresh
    /// elector has observed nothing and announced nobody.
    pub fn build(self) -> (r: Result<Elector<L>, ConfigError>)
        ensures
            r is Ok <==> timings_valid(
                self.lease_duration_micros,
                self.renew_deadline_micros,
                self.retry_period_micros,
            ),
            self.renew_deadline_micros >= self.lease_duration_micros ==> r == Result::<
                Elector<L>,
                ConfigError,
            >::Err(ConfigError::RenewDeadlineTooLong),
            self.renew_deadline_micros < self.lease_duration_micros
                && self.retry_period_micros > self.renew_deadline_micros ==> r == Result::<
                Elector<L>,
                ConfigError,
            >::Err(ConfigError::RetryPeriodTooLong),
            r matches Ok(e) ==> {
                &&& e.cfg.lock == self.lock
                &&& e.cfg.lease_duration_micros == self.lease_duration_micros
                &&& e.cfg.renew_deadline_micros == self.renew_deadline_micros
                &&& e.cfg.retry_period_micros == self.retry_period_micros
                &&& e.cfg.timings_wf()
                &&& e.observed_record is None
                &&& e.observed_time_micros is None
                &&& e.reported_leader@ == Seq::<char>::empty()
            },
    {
        if self.renew_deadline_micros >= self.lease_duration_micros {
            return Err(ConfigError::RenewDeadlineTooLong);
        }
        if self.retry_period_micros > self.renew_deadline_micros {
            return Err(ConfigError::RetryPeriodTooLong);
        }
        Ok(
            Elector {
                cfg: Config {
                    lock: self.lock,
                    lease_duration_micros: self.lease_duration_micros,
                    renew_deadline_micros: self.renew_deadline_micros,
                    retry_period_micros: self.retry_period_micros,
                },
                observed_record: None,
                observed_time_micros: None,
                reported_leader: String::new(),
            },
        )
    }
}

} // verus!
