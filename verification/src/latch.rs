//! The refresh latch: a single "a refresh is in flight" flag whose
//! test-and-set elects exactly one leader per stale cycle, together with the
//! decision a waiting follower takes after each wake.
//!
//! The flag itself is plain data here. A concurrent runtime keeps it under a
//! mutex paired with a broadcast-capable wait primitive and calls these
//! functions for every decision it takes on it.

use vstd::prelude::*;

verus! {

/// What one contender's test-and-set does to the latch: the result is
/// `(chosen, flag afterwards)`. The flag is set in every case; only a
/// contender that found it clear is chosen leader.
pub open spec fn contend_spec(flag: bool) -> (bool, bool) {
    (!flag, true)
}

/// The latch's flag after `k` contenders have arrived in some order, starting
/// from `f0`.
pub open spec fn flag_after_contenders(f0: bool, k: nat) -> bool
    decreases k,
{
    if k == 0 {
        f0
    } else {
        contend_spec(flag_after_contenders(f0, (k - 1) as nat)).1
    }
}

/// Whether the `k`-th contender (counting from zero) is chosen leader, when
/// the latch starts at `f0` and is not released in between.
pub open spec fn contender_chosen(f0: bool, k: nat) -> bool {
    contend_spec(flag_after_contenders(f0, k)).0
}

/// Law (single flight): among any number of callers contending on the latch
/// within one cycle — the latch starts clear and nobody releases it while
/// they arrive — exactly the first is chosen leader; on a latch that starts
/// held, none is.
pub proof fn lemma_single_flight(f0: bool, n: nat)
    ensures
        forall|k: nat| k < n ==> (contender_chosen(f0, k) <==> (k == 0 && !f0)),
{
    assert forall|k: nat| k < n implies (contender_chosen(f0, k) <==> (k == 0 && !f0)) by {
        if k > 0 {
            assert(flag_after_contenders(f0, k) == contend_spec(
                flag_after_contenders(f0, (k - 1) as nat),
            ).1);
        }
    }
}

/// A contender's test-and-set on the latch's flag: sets it, and reports
/// whether this contender found it clear and thereby became the leader.
pub fn try_set_inflight(flag: &mut bool) -> (chosen: bool)
    ensures
        (chosen, *final(flag)) == contend_spec(*old(flag)),
        chosen == !*old(flag),
        *final(flag),
{
    let was = *flag;
    *flag = true;
    !was
}

/// The leader's release of the latch at the end of its cycle, successful or
/// not. Only the current leader may release, so the flag must still be set.
pub fn clear_inflight(flag: &mut bool)
    requires
        *old(flag),
    ensures
        !*final(flag),
{
    *flag = false;
}

/// What a waiting follower does next, re-evaluated after every wake.
#[derive(Clone, Copy, Debug, PartialEq, Eq, Structural)]
pub enum WaitStep {
    /// The latch cleared: read whatever value the holder now has.
    Ready,
    /// Woken while the refresh is still in flight: wait again.
    WaitAgain,
    /// The configured timeout elapsed before the latch cleared.
    TimedOut,
}

/// Whether a caller that lost the election has to wait at all: only while
/// the latch is still held.
pub fn must_wait(is_inflight: bool) -> (r: bool)
    ensures
        r == is_inflight,
{
    is_inflight
}

/// The follower's decision after one wake from the wait primitive: a timeout
/// ends the wait with an error before the flag is looked at again; otherwise
/// the flag alone decides, with no assumption that one wake implies the
/// awaited condition.
pub fn wait_decision(timed_out: bool, is_inflight: bool) -> (s: WaitStep)
    ensures
        timed_out ==> s == WaitStep::TimedOut,
        !timed_out && is_inflight ==> s == WaitStep::WaitAgain,
        !timed_out && !is_inflight ==> s == WaitStep::Ready,
{
    if timed_out {
        WaitStep::TimedOut
    } else if is_inflight {
        WaitStep::WaitAgain
    } else {
        WaitStep::Ready
    }
}

} // verus!
