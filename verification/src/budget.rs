//! The byte budget: how many bytes may still be produced before the next
//! reseed is attempted, and how long a failed attempt postpones the next one.

use vstd::prelude::*;
use crate::error::ErrorKind;

verus! {

/// The bytes to wait after a seeding that failed with `kind`, under a budget of
/// `threshold` bytes: none after a temporary failure, a 256th of the budget
/// (rounded down: the budget shifted right by eight bits) after another
/// failure that is worth a retry, and the whole budget after any other.
pub open spec fn spec_retry_delay(kind: ErrorKind, threshold: int) -> int {
    if kind == ErrorKind::Transient {
        0
    } else if kind.retryable() {
        threshold / 256
    } else {
        threshold
    }
}

/// The budget once a reseed attempt has ended: the whole of `threshold` after
/// a seeding that succeeded (`failure` is `None`), the retry delay after one
/// that failed.
pub open spec fn budget_after_attempt(threshold: int, failure: Option<ErrorKind>) -> int {
    match failure {
        None => threshold,
        Some(kind) => spec_retry_delay(kind, threshold),
    }
}

/// Whether producing `produced` bytes uses up a budget of `remaining` bytes,
/// so that a reseed is to be attempted.
pub open spec fn reseed_due(remaining: int, produced: int) -> bool {
    remaining - produced <= 0
}

/// Whether `remaining` is a budget that a reseed attempt can leave behind.
pub open spec fn is_reset(threshold: int, remaining: int) -> bool {
    remaining == threshold || remaining == threshold / 256 || remaining == 0
}

/// The bytes to wait after a seeding that failed with `kind`.
pub fn retry_delay(kind: ErrorKind, threshold: i64) -> (delay: i64)
    ensures
        delay == spec_retry_delay(kind, threshold as int),
{
    match kind {
        ErrorKind::Transient => 0,
        kind if kind.should_retry() => {
            assert(threshold >> 8 == threshold / 256) by (bit_vector);
            threshold >> 8
        },
        _ => threshold,
    }
}

/// A retry delay never exceeds the budget, and is never negative.
pub proof fn lemma_retry_delay_bounds(kind: ErrorKind, threshold: int)
    requires
        0 <= threshold,
    ensures
        0 <= spec_retry_delay(kind, threshold) <= threshold,
        is_reset(threshold, spec_retry_delay(kind, threshold)),
{
}

/// A byte budget: `threshold` bytes are granted at a time, `remaining` of them
/// are left. Always `0 <= remaining <= threshold`.
#[derive(Clone, Copy, Debug)]
pub struct Budget {
    threshold: i64,
    remaining: i64,
}

impl Budget {
    #[verifier::type_invariant]
    spec fn within_threshold(&self) -> bool {
        0 <= self.remaining <= self.threshold
    }

    /// The bytes granted at a time.
    pub closed spec fn spec_threshold(&self) -> i64 {
        self.threshold
    }

    /// The bytes left.
    pub closed spec fn spec_remaining(&self) -> i64 {
        self.remaining
    }

    /// A full budget of `threshold` bytes.
    pub fn new(threshold: u64) -> (budget: Budget)
        requires
            threshold <= i64::MAX,
        ensures
            budget.threshold() == threshold,
            budget.remaining() == threshold,
    {
        Budget { threshold: threshold as i64, remaining: threshold as i64 }
    }

    /// The bytes granted at a time.
    #[verifier::when_used_as_spec(spec_threshold)]
    pub fn threshold(&self) -> (threshold: i64)
        ensures
            threshold == self.spec_threshold(),
            0 <= threshold,
    {
        proof {
            use_type_invariant(self);
        }
        self.threshold
    }

    /// The bytes left.
    #[verifier::when_used_as_spec(spec_remaining)]
    pub fn remaining(&self) -> (remaining: i64)
        ensures
            remaining == self.spec_remaining(),
            0 <= remaining <= self.threshold(),
    {
        proof {
            use_type_invariant(self);
        }
        self.remaining
    }

    /// Debits the `produced` bytes. Where they use the budget up, nothing is
    /// left and a reseed is due.
    pub fn spend(&mut self, produced: usize) -> (due: bool)
        ensures
            final(self).threshold() == old(self).threshold(),
            due == reseed_due(old(self).remaining() as int, produced as int),
            due ==> final(self).remaining() == 0,
            !due ==> final(self).remaining() == old(self).remaining() - produced,
    {
        proof {
            use_type_invariant(&*self);
        }
        let left: i64 = self.remaining;
        if (produced as u64) < (left as u64) {
            self.remaining = left - (produced as i64);
            false
        } else {
            self.remaining = 0;
            true
        }
    }

    /// Grants the whole budget again, as after a reseed.
    pub fn renew(&mut self)
        ensures
            final(self).threshold() == old(self).threshold(),
            final(self).remaining() == old(self).threshold(),
    {
        proof {
            use_type_invariant(&*self);
        }
        self.remaining = self.threshold;
    }

    /// Grants the retry delay of a seeding that failed with `kind`.
    pub fn postpone(&mut self, kind: ErrorKind)
        ensures
            final(self).threshold() == old(self).threshold(),
            final(self).remaining() == spec_retry_delay(kind, old(self).threshold() as int),
    {
        proof {
            use_type_invariant(&*self);
            lemma_retry_delay_bounds(kind, self.threshold as int);
        }
        self.remaining = retry_delay(kind, self.threshold);
    }

    /// Leaves nothing, so that the next bytes produced make a reseed due.
    pub fn expire(&mut self)
        ensures
            final(self).threshold() == old(self).threshold(),
            final(self).remaining() == 0,
    {
        proof {
            use_type_invariant(&*self);
        }
        self.remaining = 0;
    }
}

} // verus!
