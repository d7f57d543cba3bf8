//! Backoff strategies for the election loops.
//!
//! A strategy produces the delay, in microseconds, to wait before the next
//! attempt. `Repeat` ticks at a fixed period. `Jitter` stretches the
//! period by a random fraction of `period * factor`; a factor of zero or
//! less degenerates to the fixed period. The driving loop that performs
//! the actual sleeping lives with the embedding application; it only asks
//! a strategy how long the next wait is.
//!
//! The jitter factor is carried in permille: a `factor_permille` of 1200
//! stretches the period by up to 1.2 times itself. The random fraction is
//! drawn in permille steps as well.

use vstd::prelude::*;

verus! {

/// Longest period a jittered strategy accepts, in microseconds.
pub const MAX_PERIOD_MICROS: u64 = 1_000_000_000_000;

/// Largest jitter factor accepted, in permille.
pub const MAX_FACTOR_PERMILLE: i64 = 1_000_000;

/// Relies on rand::random: a machine-random 64-bit value. Nothing is
/// promised of the result; callers bound it themselves.
#[verifier::external_body]
fn random_u64() -> u64 {
    rand::random::<u64>()
}

/// A source of delays between task invocations.
pub trait Backoff: Sized {
    /// When the strategy's parameters are in range.
    spec fn wf(&self) -> bool;

    /// The delay produced for one draw of entropy.
    spec fn delay_spec(&self, entropy: u64) -> int;

    /// The delay before the next attempt, in microseconds. Every result
    /// is the strategy's delay for some draw of entropy.
    fn tick_micros(&self) -> (r: u64)
        requires
            self.wf(),
        ensures
            exists|e: u64| r == self.delay_spec(e),
    ;
}

/// Fixed-period strategy: every delay is exactly the period.
pub struct Repeat {
    pub period_micros: u64,
}

impl Backoff for Repeat {
    open spec fn wf(&self) -> bool {
        true
    }

    open spec fn delay_spec(&self, entropy: u64) -> int {
        self.period_micros as int
    }

    fn tick_micros(&self) -> (r: u64)
        ensures
            r == self.period_micros,
            exists|e: u64| r == self.delay_spec(e),
    {
        proof {
            assert(self.period_micros == self.delay_spec(0u64));
        }
        self.period_micros
    }
}

/// Jittered strategy: each delay is the period stretched by a uniformly
/// drawn fraction of `period * factor`.
pub struct Jitter {
    pub period_micros: u64,
    pub factor_permille: i64,
}

impl Jitter {
    /// The delay for a fraction drawn in permille steps: zero permille
    /// leaves the period bare, a thousand permille stretches it by the
    /// whole factor. A factor of zero or less never stretches.
    pub open spec fn delay_for_fraction(&self, fraction_permille: int) -> int {
        if self.factor_permille <= 0 {
            self.period_micros as int
        } else {
            self.period_micros + (self.period_micros * self.factor_permille * fraction_permille)
                / 1_000_000
        }
    }

    /// The jittered delay, computed from one permille fraction.
    pub fn delay_micros(&self, fraction_permille: u64) -> (r: u64)
        requires
            self.wf(),
            fraction_permille <= 1000,
        ensures
            r == self.delay_for_fraction(fraction_permille as int),
    {
        if self.factor_permille <= 0 {
            self.period_micros
        } else {
            let p = self.period_micros as u128;
            let f = self.factor_permille as u128;
            let m = fraction_permille as u128;
            proof {
                assert(p * f <= 1_000_000_000_000u128 * 1_000_000 && p * f * m
                    <= 1_000_000_000_000u128 * 1_000_000 * 1000) by (nonlinear_arith)
                    requires
                        p <= 1_000_000_000_000u128,
                        f <= 1_000_000u128,
                        m <= 1000u128,
                ;
            }
            let extra = (p * f * m) / 1_000_000;
            self.period_micros + (extra as u64)
        }
    }
}

impl Backoff for Jitter {
    open spec fn wf(&self) -> bool {
        self.period_micros <= MAX_PERIOD_MICROS && self.factor_permille <= MAX_FACTOR_PERMILLE
    }

    open spec fn delay_spec(&self, entropy: u64) -> int {
        self.delay_for_fraction((entropy % 1001) as int)
    }

    fn tick_micros(&self) -> (r: u64)
        ensures
            exists|e: u64| r == self.delay_spec(e),
    {
        let e = random_u64();
        let fraction = e % 1001;
        let r = self.delay_micros(fraction);
        proof {
            assert(r == self.delay_spec(e));
        }
        r
    }
}

/// A jitter whose factor is zero or less produces, for every draw of
/// entropy, exactly the delay of the fixed-period strategy with the same
/// period.
pub proof fn lemma_jitter_degenerates_to_repeat(j: Jitter, p: Repeat, entropy: u64)
    requires
        j.factor_permille <= 0,
        j.period_micros == p.period_micros,
    ensures
        j.delay_spec(entropy) == p.delay_spec(entropy),
{
}

} // verus!
