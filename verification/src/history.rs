//! The byte budget over a sequence of generation calls.
//!
//! A call is described by what it produced and by what the two generators did
//! in it. From these alone the budget after any sequence of calls follows, and
//! so do the laws of this module.

use vstd::prelude::*;
use crate::budget::{budget_after_attempt, is_reset, reseed_due};
use crate::error::{Error, ErrorKind};
use crate::rng::{RngCore, SeedableRng};
use crate::state::{reseed_report, State};

verus! {

/// One generation call, as far as the budget is concerned.
pub struct Call {
    /// The bytes that the call produced.
    pub produced: nat,
    /// Whether the inner generator failed in it: only a fallible fill can
    /// tell.
    pub inner_failed: bool,
    /// How a seeding ends if the call attempts one: `None` where it succeeds,
    /// else the severity of its failure.
    pub seeding: Option<ErrorKind>,
}

/// Whether `call`, met with `remaining` bytes left, sets the budget anew in
/// place of debiting it.
pub open spec fn resets(remaining: int, call: Call) -> bool {
    call.inner_failed || reseed_due(remaining, call.produced as int)
}

/// The bytes left after `call`, met with `remaining` bytes left.
pub open spec fn remaining_after(threshold: int, remaining: int, call: Call) -> int {
    if call.inner_failed {
        0
    } else if reseed_due(remaining, call.produced as int) {
        budget_after_attempt(threshold, call.seeding)
    } else {
        remaining - call.produced
    }
}

/// The bytes left after all of `calls`, in their order, begun with `remaining`
/// bytes left.
pub open spec fn remaining_after_all(threshold: int, remaining: int, calls: Seq<Call>) -> int
    decreases calls.len(),
{
    if calls.len() == 0 {
        remaining
    } else {
        remaining_after(
            threshold,
            remaining_after_all(threshold, remaining, calls.drop_last()),
            calls.last(),
        )
    }
}

/// The bytes that `calls` produced in all.
pub open spec fn total_produced(calls: Seq<Call>) -> int
    decreases calls.len(),
{
    if calls.len() == 0 {
        0
    } else {
        total_produced(calls.drop_last()) + calls.last().produced
    }
}

/// Whether the inner generator failed in none of `calls`.
pub open spec fn inner_never_failed(calls: Seq<Call>) -> bool {
    forall|i: int| 0 <= i < calls.len() ==> !(#[trigger] calls[i]).inner_failed
}

/// What the generation operations promise of the budget is what this module
/// describes: a call of `produced` bytes has accounted for them if and only if
/// the threshold is kept, the source is untouched unless a reseed was due, and
/// what is left is what some call of `produced` bytes leaves in which the
/// inner generator does not fail.
pub proof fn lemma_call_matches_contract<R, Rsdr>(
    pre: State<R, Rsdr>,
    post: State<R, Rsdr>,
    produced: nat,
)
    ensures
        pre.accounted(post, produced as int) <==> (post.threshold == pre.threshold
            && (reseed_due(pre.remaining, produced as int) || post.source == pre.source)
            && exists|call: Call|
                call.produced == produced && !call.inner_failed && post.remaining
                    == #[trigger] remaining_after(pre.threshold, pre.remaining, call)),
{
    let t = pre.threshold;
    if pre.accounted(post, produced as int) {
        let seeding = if !reseed_due(pre.remaining, produced as int) || post.remaining == t {
            None
        } else if post.remaining == 0 {
            Some(ErrorKind::Transient)
        } else {
            Some(ErrorKind::Unexpected)
        };
        let call = Call { produced, inner_failed: false, seeding };
        assert(post.remaining == remaining_after(t, pre.remaining, call));
    }
}

/// Every call leaves the budget that this module says. Where a state may
/// follow once the inner generator has produced `produced` bytes, and the
/// inner generator reported `filled` (`Ok` in a call that cannot fail), what
/// is left at the end of the call is what is left after a call of `produced`
/// bytes in which the inner generator failed if and only if `filled` is a
/// failure.
pub proof fn lemma_call_leaves<R: SeedableRng<Rsdr>, Rsdr: RngCore>(
    pre: State<R, Rsdr>,
    inner: R,
    produced: nat,
    mid: State<R, Rsdr>,
    reseeded: Result<(), Error>,
    filled: Result<(), Error>,
)
    requires
        pre.may_follow(inner, produced as int, mid, reseeded),
    ensures
        exists|call: Call|
            call.produced == produced && call.inner_failed == (filled is Err) && mid.after_fill(
                filled,
            ).remaining == #[trigger] remaining_after(pre.threshold, pre.remaining, call),
{
    let seeding = if reseed_due(pre.remaining, produced as int) {
        let seeded = choose|seeded: Result<R, Error>|
            {
                &&& #[trigger] R::may_seed(pre.source, mid.source, seeded)
                &&& mid == (State {
                    source: mid.source,
                    ..pre.after_output(inner, produced as int).after_seeding(seeded)
                })
                &&& reseeded == reseed_report(seeded)
            };
        match seeded {
            Ok(_) => None,
            Err(e) => Some(e.kind),
        }
    } else {
        None
    };
    let call = Call { produced, inner_failed: filled is Err, seeding };
    assert(mid.after_fill(filled).remaining == remaining_after(
        pre.threshold,
        pre.remaining,
        call,
    ));
}

/// The budget stays within its bounds: after any calls, between nothing and
/// `threshold` bytes are left.
pub proof fn lemma_remaining_in_bounds(threshold: int, remaining: int, calls: Seq<Call>)
    requires
        0 <= remaining <= threshold,
    ensures
        0 <= remaining_after_all(threshold, remaining, calls) <= threshold,
    decreases calls.len(),
{
    if calls.len() > 0 {
        lemma_remaining_in_bounds(threshold, remaining, calls.drop_last());
    }
}

/// A call that makes a reseed due leaves the whole budget where the seeding
/// succeeds, nothing where it fails for the moment, a 256th of the budget
/// where it fails otherwise but is worth a retry, and the whole budget where
/// it fails for good.
pub proof fn lemma_reseed_outcomes(threshold: int, remaining: int, call: Call)
    requires
        !call.inner_failed,
        reseed_due(remaining, call.produced as int),
    ensures
        is_reset(threshold, remaining_after(threshold, remaining, call)),
        call.seeding is None ==> remaining_after(threshold, remaining, call) == threshold,
        call.seeding == Some(ErrorKind::Transient) ==> remaining_after(threshold, remaining, call)
            == 0,
        call.seeding matches Some(kind) && kind != ErrorKind::Transient && kind.retryable()
            ==> remaining_after(threshold, remaining, call) == threshold / 256,
        call.seeding matches Some(kind) && !kind.retryable() ==> remaining_after(
            threshold,
            remaining,
            call,
        ) == threshold,
{
}

/// While the calls produce less than what was left, and the inner generator
/// does not fail, no call sets the budget anew: it is debited by exactly the
/// bytes produced.
pub proof fn lemma_remaining_without_reset(threshold: int, remaining: int, calls: Seq<Call>)
    requires
        inner_never_failed(calls),
        calls.len() == 0 || total_produced(calls) < remaining,
    ensures
        remaining_after_all(threshold, remaining, calls) == remaining - total_produced(calls),
        forall|i: int|
            0 <= i < calls.len() ==> !resets(
                #[trigger] remaining_after_all(threshold, remaining, calls.take(i)),
                calls[i],
            ),
    decreases calls.len(),
{
    if calls.len() > 0 {
        let init = calls.drop_last();
        lemma_remaining_without_reset(threshold, remaining, init);
        assert forall|i: int| 0 <= i < calls.len() implies !resets(
            #[trigger] remaining_after_all(threshold, remaining, calls.take(i)),
            calls[i],
        ) by {
            if i < init.len() {
                assert(calls.take(i) =~= init.take(i));
            } else {
                assert(calls.take(i) =~= init);
            }
        }
    }
}

/// The calls of a sequence can be taken in two runs: the second begins with
/// what the first left.
pub proof fn lemma_remaining_after_split(threshold: int, remaining: int, calls: Seq<Call>, k: int)
    requires
        0 <= k <= calls.len(),
    ensures
        remaining_after_all(threshold, remaining, calls) == remaining_after_all(
            threshold,
            remaining_after_all(threshold, remaining, calls.take(k)),
            calls.skip(k),
        ),
    decreases calls.len(),
{
    if k == calls.len() {
        assert(calls.take(k) =~= calls);
    } else {
        lemma_remaining_after_split(threshold, remaining, calls.drop_last(), k);
        assert(calls.drop_last().take(k) =~= calls.take(k));
        assert(calls.drop_last().skip(k) =~= calls.skip(k).drop_last());
    }
}

/// What is left after a sequence of calls is what the first `k` of them left,
/// less the bytes produced since: where the calls from the `k`-th on produce
/// less than that, and the inner generator fails in none of them. Where the
/// last of the first `k` calls set the budget anew, it left the whole budget,
/// a 256th of it, or nothing. With `k == 0` and a full budget at the start,
/// what is left is `threshold` less all the bytes produced.
pub proof fn lemma_remaining_since_reset(threshold: int, remaining: int, calls: Seq<Call>, k: int)
    requires
        0 <= k <= calls.len(),
        inner_never_failed(calls.skip(k)),
        k == calls.len() || total_produced(calls.skip(k)) < remaining_after_all(
            threshold,
            remaining,
            calls.take(k),
        ),
    ensures
        remaining_after_all(threshold, remaining, calls) == remaining_after_all(
            threshold,
            remaining,
            calls.take(k),
        ) - total_produced(calls.skip(k)),
        k > 0 && resets(remaining_after_all(threshold, remaining, calls.take(k - 1)), calls[k - 1])
            ==> is_reset(threshold, remaining_after_all(threshold, remaining, calls.take(k))),
{
    lemma_remaining_after_split(threshold, remaining, calls, k);
    lemma_remaining_without_reset(
        threshold,
        remaining_after_all(threshold, remaining, calls.take(k)),
        calls.skip(k),
    );
    if k > 0 {
        assert(calls.take(k).drop_last() =~= calls.take(k - 1));
        assert(calls.take(k).last() == calls[k - 1]);
    }
}

} // verus!
