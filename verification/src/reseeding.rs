//! The reseeding wrapper: a generator that hands out what an inner generator
//! produces, and replaces that generator by a freshly seeded one each time its
//! byte budget is used up.

use vstd::prelude::*;
use crate::budget::{is_reset, reseed_due, Budget};
use crate::error::{Error, ErrorKind};
use crate::rng::{RngCore, SeedableRng};
use crate::state::{fill_report, reseed_report, State};

verus! {

/// A generator that reseeds the generator it wraps after a set number of
/// bytes. A failed reseed is never fatal: it postpones the next attempt.
#[derive(Debug)]
pub struct ReseedingRng<R, Rsdr> {
    rng: R,
    reseeder: Rsdr,
    budget: Budget,
}

impl<R, Rsdr> View for ReseedingRng<R, Rsdr> {
    type V = State<R, Rsdr>;

    closed spec fn view(&self) -> State<R, Rsdr> {
        State {
            inner: self.rng,
            source: self.reseeder,
            threshold: self.budget.threshold() as int,
            remaining: self.budget.remaining() as int,
        }
    }
}

impl<R: RngCore + SeedableRng<Rsdr>, Rsdr: RngCore> ReseedingRng<R, Rsdr> {
    /// Wraps `rng`, to be reseeded from `reseeder` after every `threshold`
    /// bytes.
    pub fn new(rng: R, threshold: u64, reseeder: Rsdr) -> (r: Self)
        requires
            threshold <= i64::MAX,
        ensures
            r@ == (State {
                inner: rng,
                source: reseeder,
                threshold: threshold as int,
                remaining: threshold as int,
            }),
    {
        ReseedingRng { rng: rng, reseeder: reseeder, budget: Budget::new(threshold) }
    }

    /// The bytes granted between two reseeds.
    pub fn threshold(&self) -> (threshold: i64)
        ensures
            threshold == self@.threshold,
            0 <= threshold,
    {
        self.budget.threshold()
    }

    /// The bytes left before the next reseed is attempted.
    pub fn bytes_until_reseed(&self) -> (remaining: i64)
        ensures
            remaining == self@.remaining,
            0 <= remaining <= self@.threshold,
    {
        self.budget.remaining()
    }

    /// Reseeds the inner generator. A failure of the source is not reported:
    /// it only sets when the next attempt is made.
    pub fn reseed(&mut self)
        ensures
            exists|res: Result<(), Error>| old(self)@.may_reseed(final(self)@, res),
            final(self)@.threshold == old(self)@.threshold,
            is_reset(final(self)@.threshold, final(self)@.remaining),
            final(self)@.inner == old(self)@.inner
                || final(self)@.remaining == old(self)@.threshold,
    {
        let _res = self.try_reseed();
    }

    /// Reseeds the inner generator from the source, and reports a failure of
    /// the source as temporary, whatever its severity was.
    pub fn try_reseed(&mut self) -> (res: Result<(), Error>)
        ensures
            old(self)@.may_reseed(final(self)@, res),
            final(self)@.threshold == old(self)@.threshold,
            is_reset(final(self)@.threshold, final(self)@.remaining),
            res is Ok ==> final(self)@.remaining == old(self)@.threshold,
            res is Err ==> res->Err_0.kind == ErrorKind::Transient
                && final(self)@.inner == old(self)@.inner,
    {
        let seeded = R::from_rng(&mut self.reseeder);
        let res = self.complete_reseed(seeded);
        proof {
            assert(R::may_seed(old(self)@.source, self@.source, seeded));
        }
        res
    }

    /// Takes up what a seeding gave. A fresh generator replaces the inner one
    /// and the whole budget is granted again. After a failure the inner
    /// generator stays, the budget is the retry delay of the failure's
    /// severity, and the failure is handed back as a temporary one.
    pub fn complete_reseed(&mut self, seeded: Result<R, Error>) -> (res: Result<(), Error>)
        ensures
            final(self)@ == old(self)@.after_seeding(seeded),
            res == reseed_report(seeded),
    {
        match seeded {
            Ok(fresh) => {
                self.rng = fresh;
                self.budget.renew();
                Ok(())
            },
            Err(mut e) => {
                self.budget.postpone(e.kind);
                e.kind = ErrorKind::Transient;
                Err(e)
            },
        }
    }

    /// Debits the `produced` bytes that the inner generator has handed out,
    /// and attempts a reseed where they use the budget up. Hands back what
    /// the attempt reported, `Ok` where none was made.
    fn record_output(&mut self, produced: usize) -> (reseeded: Result<(), Error>)
        ensures
            old(self)@.may_follow(old(self)@.inner, produced as int, final(self)@, reseeded),
            old(self)@.accounted(final(self)@, produced as int),
            reseeded is Ok && reseed_due(old(self)@.remaining, produced as int)
                ==> final(self)@.remaining == old(self)@.threshold,
            reseeded is Err ==> reseeded->Err_0.kind == ErrorKind::Transient
                && reseed_due(old(self)@.remaining, produced as int),
    {
        if self.budget.spend(produced) {
            self.try_reseed()
        } else {
            Ok(())
        }
    }

    /// Decides what a fallible fill reports, from what the inner generator
    /// reported (`filled`) and what the reseed attempt of the same call
    /// reported (`reseeded`, `Ok` where none was made). A failure of the inner
    /// generator comes first: it is handed back as it is, and no budget is
    /// left, so that the next call attempts a reseed.
    pub fn finish_fill(
        &mut self,
        filled: Result<(), Error>,
        reseeded: Result<(), Error>,
    ) -> (res: Result<(), Error>)
        ensures
            final(self)@ == old(self)@.after_fill(filled),
            res == fill_report(filled, reseeded),
    {
        match filled {
            Ok(()) => reseeded,
            Err(e) => {
                self.budget.expire();
                Err(e)
            },
        }
    }
}

impl<R: RngCore + SeedableRng<Rsdr>, Rsdr: RngCore> RngCore for ReseedingRng<R, Rsdr> {
    /// Whether the inner generator may hand out `value`, and `post` may follow
    /// once it has.
    open spec fn may_give_u32(pre: Self, post: Self, value: u32) -> bool {
        exists|inner: R, reseeded: Result<(), Error>|
            {
                &&& #[trigger] R::may_give_u32(pre@.inner, inner, value)
                &&& #[trigger] pre@.may_follow(inner, 4, post@, reseeded)
            }
    }

    /// Whether the inner generator may hand out `value`, and `post` may follow
    /// once it has.
    open spec fn may_give_u64(pre: Self, post: Self, value: u64) -> bool {
        exists|inner: R, reseeded: Result<(), Error>|
            {
                &&& #[trigger] R::may_give_u64(pre@.inner, inner, value)
                &&& #[trigger] pre@.may_follow(inner, 8, post@, reseeded)
            }
    }

    /// Whether the inner generator may fill the buffer so, and `post` may
    /// follow once it has.
    open spec fn may_fill(pre: Self, post: Self, before: Seq<u8>, after: Seq<u8>) -> bool {
        exists|inner: R, reseeded: Result<(), Error>|
            {
                &&& #[trigger] R::may_fill(pre@.inner, inner, before, after)
                &&& #[trigger] pre@.may_follow(inner, before.len() as int, post@, reseeded)
            }
    }

    /// Whether the inner generator may fill the buffer so and report some
    /// `filled`, a state may follow once it has, and `post` and `res` are what
    /// the two reports leave of that state.
    open spec fn may_try_fill(
        pre: Self,
        post: Self,
        before: Seq<u8>,
        after: Seq<u8>,
        res: Result<(), Error>,
    ) -> bool {
        exists|
            inner: R,
            filled: Result<(), Error>,
            mid: State<R, Rsdr>,
            reseeded: Result<(), Error>,
        |
            {
                &&& #[trigger] R::may_try_fill(pre@.inner, inner, before, after, filled)
                &&& #[trigger] pre@.may_follow(inner, before.len() as int, mid, reseeded)
                &&& post@ == mid.after_fill(filled)
                &&& res == fill_report(filled, reseeded)
            }
    }

    /// Four bytes of the inner generator. A reseed is attempted once they are
    /// produced, if they use the budget up.
    fn next_u32(&mut self) -> (value: u32)
        ensures
            Self::may_give_u32(*old(self), *final(self), value),
            old(self)@.accounted(final(self)@, 4),
    {
        let value = self.rng.next_u32();
        let ghost inner = self@.inner;
        let reseeded = self.record_output(4);
        proof {
            assert(R::may_give_u32(old(self)@.inner, inner, value));
            assert(old(self)@.may_follow(inner, 4, self@, reseeded));
        }
        value
    }

    /// Eight bytes of the inner generator. A reseed is attempted once they
    /// are produced, if they use the budget up.
    fn next_u64(&mut self) -> (value: u64)
        ensures
            Self::may_give_u64(*old(self), *final(self), value),
            old(self)@.accounted(final(self)@, 8),
    {
        let value = self.rng.next_u64();
        let ghost inner = self@.inner;
        let reseeded = self.record_output(8);
        proof {
            assert(R::may_give_u64(old(self)@.inner, inner, value));
            assert(old(self)@.may_follow(inner, 8, self@, reseeded));
        }
        value
    }

    /// Fills `dest` from the inner generator. A reseed is attempted once it
    /// is filled, if its bytes use the budget up.
    fn fill_bytes(&mut self, dest: &mut [u8])
        ensures
            Self::may_fill(*old(self), *final(self), old(dest)@, final(dest)@),
            old(self)@.accounted(final(self)@, old(dest)@.len() as int),
    {
        let produced: usize = dest.len();
        self.rng.fill_bytes(dest);
        let ghost inner = self@.inner;
        let reseeded = self.record_output(produced);
        proof {
            assert(R::may_fill(old(self)@.inner, inner, old(dest)@, dest@));
            assert(old(self)@.may_follow(inner, produced as int, self@, reseeded));
        }
    }

    /// Fills `dest` from the inner generator, and reports a failure of the
    /// inner generator or, where that one succeeded, of the reseed source.
    ///
    /// The bytes count against the budget whether the inner generator failed
    /// or not. After its failure no budget is left.
    fn try_fill_bytes(&mut self, dest: &mut [u8]) -> (res: Result<(), Error>)
        ensures
            Self::may_try_fill(*old(self), *final(self), old(dest)@, final(dest)@, res),
            final(self)@.threshold == old(self)@.threshold,
            res is Ok ==> old(self)@.accounted(final(self)@, old(dest)@.len() as int),
            res is Ok && reseed_due(old(self)@.remaining, old(dest)@.len() as int)
                ==> final(self)@.remaining == old(self)@.threshold,
            res is Err ==> final(self)@.remaining == 0 || (res->Err_0.kind == ErrorKind::Transient
                && reseed_due(old(self)@.remaining, old(dest)@.len() as int)
                && is_reset(final(self)@.threshold, final(self)@.remaining)),
    {
        let produced: usize = dest.len();
        let filled = self.rng.try_fill_bytes(dest);
        let ghost inner = self@.inner;
        let reseeded = self.record_output(produced);
        let ghost mid = self@;
        let res = self.finish_fill(filled, reseeded);
        proof {
            assert(R::may_try_fill(old(self)@.inner, inner, old(dest)@, dest@, filled));
            assert(old(self)@.may_follow(inner, produced as int, mid, reseeded));
        }
        res
    }
}

/// Whether every seeding of an `R` from an `Rsdr` leaves the source as it was
/// and gives `fresh`.
pub open spec fn source_always_gives<R: SeedableRng<Rsdr>, Rsdr: RngCore>(fresh: R) -> bool {
    forall|pre: Rsdr, post: Rsdr, seeded: Result<R, Error>| #[trigger]
        R::may_seed(pre, post, seeded) ==> post == pre && seeded == Ok::<R, Error>(fresh)
}

/// Whether what an `R` writes into a buffer depends on nothing but the
/// generator and the length of the buffer.
pub open spec fn fill_is_determined<R: RngCore>() -> bool {
    forall|pre: R, post: R, other: R, before: Seq<u8>, after: Seq<u8>, b: Seq<u8>, a: Seq<u8>|
        #[trigger] R::may_fill(pre, post, before, after) && #[trigger] R::may_fill(pre, other, b, a)
            && before.len() == b.len() ==> after == a
}

/// Filling a buffer again and again gives the same bytes each time, where
/// each fill uses the budget up, the source seeds the same generator every
/// time, that generator is the inner one at the start, and what it writes is
/// determined: the second of two such fills writes what the first wrote, and
/// leaves the wrapper as the first left it.
pub proof fn lemma_refill_repeats<R: RngCore + SeedableRng<Rsdr>, Rsdr: RngCore>(
    first: ReseedingRng<R, Rsdr>,
    second: ReseedingRng<R, Rsdr>,
    third: ReseedingRng<R, Rsdr>,
    before1: Seq<u8>,
    after1: Seq<u8>,
    before2: Seq<u8>,
    after2: Seq<u8>,
)
    requires
        source_always_gives::<R, Rsdr>(first@.inner),
        fill_is_determined::<R>(),
        ReseedingRng::<R, Rsdr>::may_fill(first, second, before1, after1),
        ReseedingRng::<R, Rsdr>::may_fill(second, third, before2, after2),
        before1.len() == before2.len(),
        first@.remaining <= before1.len(),
        first@.threshold <= before1.len(),
    ensures
        after2 == after1,
        third@ == second@,
        second@ == (State { remaining: first@.threshold, ..first@ }),
{
}

} // verus!
