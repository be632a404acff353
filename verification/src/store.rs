//! The store: a cached value, its expiry, the refresh latch and a wait
//! timeout, with the single-flight `get` protocol over them.
//!
//! The store here is the guarded state itself, operated on sequentially;
//! every decision of the protocol is taken and proved here. A concurrent
//! runtime shares the same fields among threads under locks and drives the
//! very same decision functions; the one thing it adds is actual blocking,
//! which in a single-threaded execution has a fixed outcome: a latch that is
//! already held when a caller arrives can never be released for it, so its
//! bounded wait ends in a timeout.

use vstd::prelude::*;

use crate::errors::CondvarStoreError;
use crate::errors::GetError;
use crate::latch::clear_inflight;
use crate::latch::try_set_inflight;
use crate::timestamp::now_timestamp;
use crate::timestamp::Timestamp;

verus! {

/// The capability a cached resource must offer: an in-place refresh that may
/// fail with the resource's own error type, and a pure read of the expiry of
/// the data it currently holds.
///
/// `refresh_post` is the implementor's own description of what one `get`
/// call does; the store's contracts propagate it, so that at a concrete
/// resource type they say exactly what a refresh did to the value.
pub trait GetExpiry: Sized {
    /// The resource's refresh error, opaque to the store.
    type Error;

    /// The expiry the resource currently reports.
    spec fn expiry_spec(&self) -> Timestamp;

    /// What a `get` call guarantees: how the resource after the call
    /// relates to the one before, and with which outcome.
    spec fn refresh_post(pre: Self, post: Self, outcome: Result<(), Self::Error>) -> bool;

    /// Fetch or compute fresh data in place; on success the held data's
    /// expiry is meant to advance, though only the implementor's
    /// `refresh_post` says whether it does.
    fn get(&mut self) -> (r: Result<(), Self::Error>)
        ensures
            Self::refresh_post(*old(self), *final(self), r),
    ;

    /// Pure read of the current expiry.
    fn expiry(&self) -> (r: Timestamp)
        ensures
            r == self.expiry_spec(),
    ;
}

/// The shared state of one store: the cached resource, the expiry of the
/// value it holds, the refresh latch's flag, and the bound (in milliseconds)
/// on how long a follower waits for an in-flight refresh.
pub struct CondvarStore<T: GetExpiry> {
    pub cached: T,
    pub is_inflight: bool,
    pub expiry: Timestamp,
    pub timeout: u64,
}

/// The leader's refresh of the shared state: refresh the cached resource in
/// place and, only on success, commit the refreshed resource's own expiry as
/// the new expiry. On failure the expiry is left exactly as it was — still
/// stale, so the next caller contends anew.
pub fn refresh_value<T: GetExpiry>(cached: &mut T, expiry: &mut Timestamp) -> (r: Result<
    (),
    T::Error,
>)
    ensures
        T::refresh_post(*old(cached), *final(cached), r),
        r is Ok ==> *final(expiry) == final(cached).expiry_spec(),
        r is Err ==> *final(expiry) == *old(expiry),
{
    let r = cached.get();
    if r.is_ok() {
        *expiry = cached.expiry();
    }
    r
}

/// Everything one `get` at time `now` does to a store, as one relation
/// between the state before (`pre`), the state after (`post`) and the
/// result. The three cases are exclusive:
/// - fresh value: returned at once, nothing touched, no refresh;
/// - stale value, latch free: the caller leads a refresh cycle and returns
///   its outcome, with the latch released again whatever the outcome, a
///   failure leaving the expiry stale and surfacing as `Fetch`;
/// - stale value, latch already held: with nobody able to release the latch,
///   the caller's bounded wait times out and the state is untouched.
pub open spec fn get_post<T: GetExpiry>(
    pre: CondvarStore<T>,
    post: CondvarStore<T>,
    now: Timestamp,
    r: Result<(), GetError<T::Error>>,
) -> bool {
    &&& post.timeout == pre.timeout
    &&& (pre.expiry.millis > now.millis ==> r is Ok && post == pre)
    &&& (pre.expiry.millis <= now.millis && pre.is_inflight ==> {
        &&& r == Err::<(), GetError<T::Error>>(GetError::Store(CondvarStoreError::GetTimeout))
        &&& post == pre
    })
    &&& (pre.expiry.millis <= now.millis && !pre.is_inflight ==> {
        &&& !post.is_inflight
        &&& (r is Ok ==> T::refresh_post(pre.cached, post.cached, Ok(())) && post.expiry
            == post.cached.expiry_spec())
        &&& (r is Err ==> r matches Err(GetError::Fetch(_)))
        &&& (r matches Err(GetError::Fetch(e)) ==> T::refresh_post(pre.cached, post.cached, Err(e))
            && post.expiry == pre.expiry)
    })
}

impl<T: GetExpiry> CondvarStore<T> {
    /// A store over an already-populated resource, seeding the expiry from
    /// the resource's own report and the wait timeout with its default of
    /// 1000 milliseconds.
    pub fn new(t: T) -> (r: Self)
        ensures
            r.cached == t,
            r.expiry == t.expiry_spec(),
            !r.is_inflight,
            r.timeout == 1000,
    {
        let expiry = t.expiry();
        CondvarStore { cached: t, is_inflight: false, expiry, timeout: 1000 }
    }

    /// The same store with the follower wait bound set to `t` milliseconds.
    pub fn with_timeout(self, t: u64) -> (r: Self)
        ensures
            r.cached == self.cached,
            r.expiry == self.expiry,
            r.is_inflight == self.is_inflight,
            r.timeout == t,
    {
        let mut s = self;
        s.timeout = t;
        s
    }

    /// One `get` with the current time supplied by the caller: the whole
    /// single-flight protocol of `get_post`. A fresh value is returned at
    /// once with no coordination and no refresh; on a stale value the caller
    /// contends on the latch, leads the refresh if it wins, and otherwise
    /// waits out a latch that, sequentially, cannot clear.
    pub fn get_at(&mut self, now: Timestamp) -> (r: Result<(), GetError<T::Error>>)
        ensures
            get_post(*old(self), *final(self), now, r),
    {
        if self.expiry.is_after(&now) {
            return Ok(());
        }
        let chosen = try_set_inflight(&mut self.is_inflight);
        if chosen {
            let updated = refresh_value(&mut self.cached, &mut self.expiry);
            clear_inflight(&mut self.is_inflight);
            match updated {
                Ok(u) => {
                    proof {
                        assert(u == ());
                    }
                    Ok(())
                },
                Err(e) => Err(GetError::Fetch(e)),
            }
        } else {
            // The latch was already held when this caller arrived. No other
            // caller exists here that could release it, so the bounded wait
            // of the protocol can only end one way.
            Err(GetError::Store(CondvarStoreError::GetTimeout))
        }
    }

    /// One `get` at the ambient wall-clock time. Nothing is assumed of the
    /// clock, so all that is promised is that the call behaved as `get_at`
    /// for some "now".
    pub fn get(&mut self) -> (r: Result<(), GetError<T::Error>>)
        ensures
            exists|now: Timestamp| get_post(*old(self), *final(self), now, r),
    {
        let now = now_timestamp();
        self.get_at(now)
    }
}

/// Law (fresh reads are pure): a `get` that finds the value fresh succeeds,
/// and leaves every part of the store — the cached resource included —
/// exactly as it was: it neither blocks on the latch nor refreshes.
pub proof fn lemma_fresh_get_untouched<T: GetExpiry>(
    pre: CondvarStore<T>,
    post: CondvarStore<T>,
    now: Timestamp,
    r: Result<(), GetError<T::Error>>,
)
    requires
        get_post(pre, post, now, r),
        pre.expiry.millis > now.millis,
    ensures
        r is Ok,
        post == pre,
{
}

/// Law (a held latch only times out, and harms nothing): a caller that finds
/// the value stale and the latch already held receives the timeout error and
/// leaves the store untouched — in particular it does not disturb the
/// in-flight refresh, whose commit is the latch holder's alone.
pub proof fn lemma_contended_get_times_out<T: GetExpiry>(
    pre: CondvarStore<T>,
    post: CondvarStore<T>,
    now: Timestamp,
    r: Result<(), GetError<T::Error>>,
)
    requires
        get_post(pre, post, now, r),
        pre.expiry.millis <= now.millis,
        pre.is_inflight,
    ensures
        r == Err::<(), GetError<T::Error>>(GetError::Store(CondvarStoreError::GetTimeout)),
        post == pre,
{
}

/// Law (a failed refresh is retried, not cached): when a leader's refresh
/// fails, the failure surfaces only as that leader's `Fetch` error; the
/// expiry is left stale and the latch released, so a following `get` at any
/// later time re-enters leadership contention and performs a brand-new
/// refresh attempt — it cannot return a remembered error, only the fresh
/// attempt's own outcome.
pub proof fn lemma_failed_refresh_recontends<T: GetExpiry>(
    pre: CondvarStore<T>,
    post: CondvarStore<T>,
    now: Timestamp,
    e: T::Error,
    later: Timestamp,
    post2: CondvarStore<T>,
    r2: Result<(), GetError<T::Error>>,
)
    requires
        get_post(pre, post, now, Err(GetError::Fetch(e))),
        pre.expiry.millis <= now.millis,
        !pre.is_inflight,
        later.millis >= now.millis,
        get_post(post, post2, later, r2),
    ensures
        post.expiry == pre.expiry,
        !post.is_inflight,
        r2 is Ok ==> T::refresh_post(post.cached, post2.cached, Ok(())),
        r2 matches Err(GetError::Fetch(e2)) ==> T::refresh_post(post.cached, post2.cached, Err(e2)),
        r2 != Err::<(), GetError<T::Error>>(GetError::Store(CondvarStoreError::GetTimeout)),
{
}

/// Law (one refresh serves the rest): a stale `get` that led a successful
/// refresh leaves a value that, as long as it stays fresh, every following
/// `get` returns untouched — one refresh per stale cycle serves all later
/// callers, who coordinate on nothing and refresh nothing.
pub proof fn lemma_one_refresh_serves_later_gets<T: GetExpiry>(
    pre: CondvarStore<T>,
    post: CondvarStore<T>,
    now: Timestamp,
    r: Result<(), GetError<T::Error>>,
    later: Timestamp,
    post2: CondvarStore<T>,
    r2: Result<(), GetError<T::Error>>,
)
    requires
        get_post(pre, post, now, r),
        pre.expiry.millis <= now.millis,
        !pre.is_inflight,
        r is Ok,
        get_post(post, post2, later, r2),
        post.expiry.millis > later.millis,
    ensures
        T::refresh_post(pre.cached, post.cached, Ok(())),
        post.expiry == post.cached.expiry_spec(),
        r2 is Ok,
        post2 == post,
{
}

} // verus!
