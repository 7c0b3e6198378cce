//! What a generator must offer to be wrapped, and to be reseeded.
//!
//! The traits promise nothing of their own about what a generator hands out.
//! Each carries, for every operation, a predicate over the generator before
//! the call, the generator after it, and what the call gave: whether the call
//! may go so. An implementation that is verified defines the predicates and is
//! held to them. One that defines none leaves them at `true`, which allows
//! everything. Code that is generic over a generator is verified for whatever
//! the predicates allow.

use vstd::prelude::*;
use crate::error::Error;

verus! {

/// A producer of random bytes.
pub trait RngCore: Sized {
    /// Whether `next_u32` may take a generator from `pre` to `post` and hand
    /// out `value`.
    open spec fn may_give_u32(pre: Self, post: Self, value: u32) -> bool {
        true
    }

    /// Whether `next_u64` may take a generator from `pre` to `post` and hand
    /// out `value`.
    open spec fn may_give_u64(pre: Self, post: Self, value: u64) -> bool {
        true
    }

    /// Whether `fill_bytes` may take a generator from `pre` to `post` and turn
    /// a buffer that held `before` into one that holds `after`.
    open spec fn may_fill(pre: Self, post: Self, before: Seq<u8>, after: Seq<u8>) -> bool {
        true
    }

    /// Whether `try_fill_bytes` may take a generator from `pre` to `post`,
    /// turn a buffer that held `before` into one that holds `after`, and
    /// report `res`.
    open spec fn may_try_fill(
        pre: Self,
        post: Self,
        before: Seq<u8>,
        after: Seq<u8>,
        res: Result<(), Error>,
    ) -> bool {
        true
    }

    /// The next four bytes, as one number.
    fn next_u32(&mut self) -> (value: u32)
        ensures
            Self::may_give_u32(*old(self), *final(self), value),
    ;

    /// The next eight bytes, as one number.
    fn next_u64(&mut self) -> (value: u64)
        ensures
            Self::may_give_u64(*old(self), *final(self), value),
    ;

    /// Fills the whole of `dest`.
    fn fill_bytes(&mut self, dest: &mut [u8])
        ensures
            Self::may_fill(*old(self), *final(self), old(dest)@, final(dest)@),
    ;

    /// Fills the whole of `dest`, or reports why it could not.
    fn try_fill_bytes(&mut self, dest: &mut [u8]) -> (res: Result<(), Error>)
        ensures
            Self::may_try_fill(*old(self), *final(self), old(dest)@, final(dest)@, res),
    ;
}

/// A generator that can be built anew from the output of a generator of
/// type `S`.
pub trait SeedableRng<S: RngCore>: Sized {
    /// Whether `from_rng` may take the generator it draws from from `pre` to
    /// `post` and hand out `res`.
    open spec fn may_seed(pre: S, post: S, res: Result<Self, Error>) -> bool {
        true
    }

    /// A fresh generator whose state is drawn from `rng`, or the failure of
    /// `rng` to provide it.
    fn from_rng(rng: &mut S) -> (res: Result<Self, Error>)
        ensures
            Self::may_seed(*old(rng), *final(rng), res),
    ;
}

} // verus!
