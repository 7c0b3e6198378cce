//! The reseeding wrapper as contracts see it: its state, what each step makes
//! of a state, and what follows where the source always succeeds, where it
//! always fails, and where the inner generator fails.

use vstd::prelude::*;
use crate::budget::{is_reset, reseed_due, spec_retry_delay};
use crate::error::{Error, ErrorKind};
use crate::rng::{RngCore, SeedableRng};

verus! {

/// What a reseeding generator is made of.
pub struct State<R, Rsdr> {
    /// The generator whose output is handed out.
    pub inner: R,
    /// The generator from which a fresh inner generator is seeded.
    pub source: Rsdr,
    /// The bytes granted between two reseeds.
    pub threshold: int,
    /// The bytes left before the next reseed is attempted.
    pub remaining: int,
}

/// What a reseed reports of a seeding that gave `seeded`: success, or the
/// failure of the seeding as a temporary one.
pub open spec fn reseed_report<R>(seeded: Result<R, Error>) -> Result<(), Error> {
    match seeded {
        Ok(_) => Ok(()),
        Err(e) => Err(e.as_transient()),
    }
}

/// What a fallible fill reports when the inner generator reported `filled`
/// and the reseed attempt of the same call reported `reseeded`: the failure of
/// the inner generator first.
pub open spec fn fill_report(filled: Result<(), Error>, reseeded: Result<(), Error>) -> Result<
    (),
    Error,
> {
    match filled {
        Ok(()) => reseeded,
        Err(e) => Err(e),
    }
}

impl<R, Rsdr> State<R, Rsdr> {
    /// The state once a seeding has given `seeded`. A fresh generator replaces
    /// the inner one and the whole budget is granted again. After a failure
    /// the inner generator stays and the budget is the retry delay of the
    /// failure's severity.
    pub open spec fn after_seeding(self, seeded: Result<R, Error>) -> Self {
        match seeded {
            Ok(fresh) => State { inner: fresh, remaining: self.threshold, ..self },
            Err(e) => State { remaining: spec_retry_delay(e.kind, self.threshold), ..self },
        }
    }

    /// The state once the inner generator has produced `produced` bytes and
    /// become `inner`: the budget is debited, and nothing is left of it where
    /// the bytes use it up.
    pub open spec fn after_output(self, inner: R, produced: int) -> Self {
        State {
            inner,
            remaining: if reseed_due(self.remaining, produced) {
                0
            } else {
                self.remaining - produced
            },
            ..self
        }
    }

    /// The state once a fallible fill has ended, where the inner generator
    /// reported `filled`: after its failure no budget is left.
    pub open spec fn after_fill(self, filled: Result<(), Error>) -> Self {
        match filled {
            Ok(()) => self,
            Err(_) => State { remaining: 0, ..self },
        }
    }

    /// Whether the budget of `post` is what a call that produced `produced`
    /// bytes makes of the budget of `self`.
    ///
    /// While the budget lasts, it is debited by exactly `produced` and the
    /// source is not touched. Once it is used up, a reseed attempt has set it.
    pub open spec fn accounted(self, post: Self, produced: int) -> bool {
        &&& post.threshold == self.threshold
        &&& if reseed_due(self.remaining, produced) {
            is_reset(post.threshold, post.remaining)
        } else {
            &&& post.remaining == self.remaining - produced
            &&& post.source == self.source
        }
    }
}

impl<R: SeedableRng<Rsdr>, Rsdr: RngCore> State<R, Rsdr> {
    /// Whether a reseed attempt may take `self` to `post` and report `res`:
    /// whether one seeding from the source may leave the source as it is in
    /// `post` and give what makes the rest of `post`, and `res`.
    pub open spec fn may_reseed(self, post: Self, res: Result<(), Error>) -> bool {
        exists|seeded: Result<R, Error>|
            {
                &&& #[trigger] R::may_seed(self.source, post.source, seeded)
                &&& post == (State { source: post.source, ..self.after_seeding(seeded) })
                &&& res == reseed_report(seeded)
            }
    }

    /// Whether `post` may follow once the inner generator has produced
    /// `produced` bytes and become `inner`: by a reseed attempt where the
    /// bytes use the budget up, and as it is where they do not. `reseeded` is
    /// what the attempt reports, `Ok` where none is made.
    pub open spec fn may_follow(
        self,
        inner: R,
        produced: int,
        post: Self,
        reseeded: Result<(), Error>,
    ) -> bool {
        if reseed_due(self.remaining, produced) {
            self.after_output(inner, produced).may_reseed(post, reseeded)
        } else {
            post == self.after_output(inner, produced) && reseeded is Ok
        }
    }
}

/// Whether every seeding of an `R` from an `Rsdr` succeeds.
pub open spec fn source_always_succeeds<R: SeedableRng<Rsdr>, Rsdr: RngCore>() -> bool {
    forall|pre: Rsdr, post: Rsdr, seeded: Result<R, Error>| #[trigger]
        R::may_seed(pre, post, seeded) ==> seeded is Ok
}

/// Whether every seeding of an `R` from an `Rsdr` fails, with a severity that
/// `kinds` holds.
pub open spec fn source_always_fails<R: SeedableRng<Rsdr>, Rsdr: RngCore>(
    kinds: Set<ErrorKind>,
) -> bool {
    forall|pre: Rsdr, post: Rsdr, seeded: Result<R, Error>| #[trigger]
        R::may_seed(pre, post, seeded) ==> seeded is Err && kinds.contains(seeded->Err_0.kind)
}

/// The severity that is worth a retry at once.
pub open spec fn retry_at_once() -> Set<ErrorKind> {
    Set::new(|kind: ErrorKind| kind == ErrorKind::Transient)
}

/// The severities that are worth a retry, but not at once.
pub open spec fn retry_later() -> Set<ErrorKind> {
    Set::new(|kind: ErrorKind| kind.retryable() && kind != ErrorKind::Transient)
}

/// The severities that are not worth a retry.
pub open spec fn retry_never() -> Set<ErrorKind> {
    Set::new(|kind: ErrorKind| !kind.retryable())
}

/// What a call makes of the budget is what its contract says of the budget:
/// a call after which `post` may follow has accounted for its bytes.
pub proof fn lemma_may_follow_accounted<R: SeedableRng<Rsdr>, Rsdr: RngCore>(
    pre: State<R, Rsdr>,
    inner: R,
    produced: int,
    post: State<R, Rsdr>,
    reseeded: Result<(), Error>,
)
    requires
        pre.may_follow(inner, produced, post, reseeded),
    ensures
        pre.accounted(post, produced),
{
}

/// Where the source always succeeds, a call that uses the budget up replaces
/// the inner generator once, by what one seeding from the source gave, and
/// the whole budget is granted again.
pub proof fn lemma_source_succeeds<R: SeedableRng<Rsdr>, Rsdr: RngCore>(
    pre: State<R, Rsdr>,
    inner: R,
    produced: int,
    post: State<R, Rsdr>,
    reseeded: Result<(), Error>,
)
    requires
        source_always_succeeds::<R, Rsdr>(),
        reseed_due(pre.remaining, produced),
        pre.may_follow(inner, produced, post, reseeded),
    ensures
        R::may_seed(pre.source, post.source, Ok(post.inner)),
        post.remaining == pre.threshold,
        post.threshold == pre.threshold,
        reseeded is Ok,
{
}

/// Where the source always fails with a severity that is not worth a retry,
/// a call that uses the budget up leaves the inner generator as the call's
/// output left it, waits a whole budget before the next attempt, and reports
/// a temporary failure.
pub proof fn lemma_source_fails_for_good<R: SeedableRng<Rsdr>, Rsdr: RngCore>(
    pre: State<R, Rsdr>,
    inner: R,
    produced: int,
    post: State<R, Rsdr>,
    reseeded: Result<(), Error>,
)
    requires
        source_always_fails::<R, Rsdr>(retry_never()),
        reseed_due(pre.remaining, produced),
        pre.may_follow(inner, produced, post, reseeded),
    ensures
        post.inner == inner,
        post.remaining == pre.threshold,
        post.threshold == pre.threshold,
        reseeded matches Err(e) && e.kind == ErrorKind::Transient,
{
}

/// Where the source always fails with a severity that is worth a retry, but
/// not at once, a call that uses the budget up leaves the inner generator as
/// the call's output left it, waits a 256th of the budget (rounded down)
/// before the next attempt, and reports a temporary failure.
pub proof fn lemma_source_fails_for_now<R: SeedableRng<Rsdr>, Rsdr: RngCore>(
    pre: State<R, Rsdr>,
    inner: R,
    produced: int,
    post: State<R, Rsdr>,
    reseeded: Result<(), Error>,
)
    requires
        source_always_fails::<R, Rsdr>(retry_later()),
        reseed_due(pre.remaining, produced),
        pre.may_follow(inner, produced, post, reseeded),
    ensures
        post.inner == inner,
        post.remaining == pre.threshold / 256,
        post.threshold == pre.threshold,
        reseeded matches Err(e) && e.kind == ErrorKind::Transient,
{
}

/// Where the source always fails for the moment, a call that uses the budget
/// up leaves the inner generator as the call's output left it, and no budget:
/// the next call attempts a reseed again.
pub proof fn lemma_source_fails_for_the_moment<R: SeedableRng<Rsdr>, Rsdr: RngCore>(
    pre: State<R, Rsdr>,
    inner: R,
    produced: int,
    post: State<R, Rsdr>,
    reseeded: Result<(), Error>,
)
    requires
        source_always_fails::<R, Rsdr>(retry_at_once()),
        reseed_due(pre.remaining, produced),
        pre.may_follow(inner, produced, post, reseeded),
    ensures
        post.inner == inner,
        post.remaining == 0,
        post.threshold == pre.threshold,
        reseeded matches Err(e) && e.kind == ErrorKind::Transient,
{
}

/// A failure of the inner generator comes first. Whatever the reseed attempt
/// of the same call made of the state and reported, the fill reports the
/// failure of the inner generator as it is, and no budget is left.
pub proof fn lemma_inner_failure_first<R: SeedableRng<Rsdr>, Rsdr: RngCore>(
    pre: State<R, Rsdr>,
    inner: R,
    produced: int,
    mid: State<R, Rsdr>,
    reseeded: Result<(), Error>,
    e: Error,
)
    requires
        pre.may_follow(inner, produced, mid, reseeded),
    ensures
        fill_report(Err(e), reseeded) == Err::<(), Error>(e),
        mid.after_fill(Err(e)).remaining == 0,
        mid.after_fill(Err(e)).threshold == pre.threshold,
{
}

} // verus!
