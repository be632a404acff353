//! Ready-made cached resources with fully specified refresh behaviour: a
//! counting resource whose refresh always succeeds, and a flaky one whose
//! first refresh attempts fail. Both count their successful refreshes, which
//! makes the single-flight guarantee observable.

use vstd::prelude::*;

use crate::store::GetExpiry;
use crate::timestamp::Timestamp;

verus! {

/// The refresh failure of `FlakyResource`: the fetch could not be performed.
#[derive(Clone, Copy, Debug, PartialEq, Eq, Structural)]
pub struct FetchFailed;

/// One more than `n`, stopped at the top of `u64`.
pub open spec fn counted_up(n: u64) -> int {
    if n == u64::MAX {
        n as int
    } else {
        n + 1
    }
}

/// A resource whose refresh always succeeds: it bumps a counter and installs
/// a fixed expiry chosen at construction. The counter says how often the
/// resource was actually refreshed.
#[derive(Clone, Copy, Debug, PartialEq, Eq, Structural)]
pub struct CountingResource {
    /// How many times `get` has run.
    pub refreshes: u64,
    /// The expiry of the data currently held.
    pub exp: Timestamp,
    /// The expiry every refresh installs.
    pub refreshed_exp: Timestamp,
}

impl CountingResource {
    /// A resource holding data that expires at `exp`; every refresh replaces
    /// it with data expiring at `refreshed_exp`.
    pub fn new(exp: Timestamp, refreshed_exp: Timestamp) -> (r: CountingResource)
        ensures
            r.refreshes == 0,
            r.exp == exp,
            r.refreshed_exp == refreshed_exp,
    {
        CountingResource { refreshes: 0, exp, refreshed_exp }
    }
}

impl GetExpiry for CountingResource {
    type Error = FetchFailed;

    open spec fn expiry_spec(&self) -> Timestamp {
        self.exp
    }

    open spec fn refresh_post(pre: Self, post: Self, outcome: Result<(), FetchFailed>) -> bool {
        &&& outcome is Ok
        &&& post.refreshes == counted_up(pre.refreshes)
        &&& post.exp == pre.refreshed_exp
        &&& post.refreshed_exp == pre.refreshed_exp
    }

    fn get(&mut self) -> (r: Result<(), FetchFailed>) {
        if self.refreshes < u64::MAX {
            self.refreshes = self.refreshes + 1;
        }
        self.exp = self.refreshed_exp;
        Ok(())
    }

    fn expiry(&self) -> (r: Timestamp) {
        self.exp
    }
}

/// A resource whose first `failures` refresh attempts fail and whose later
/// ones succeed. It counts every attempt and, separately, every success;
/// only a successful refresh touches the held data and its expiry.
#[derive(Clone, Copy, Debug, PartialEq, Eq, Structural)]
pub struct FlakyResource {
    /// How many times `get` has run, failed attempts included.
    pub attempts: u64,
    /// How many times `get` has succeeded.
    pub refreshes: u64,
    /// How many attempts fail before the first success.
    pub failures: u64,
    /// The expiry of the data currently held.
    pub exp: Timestamp,
    /// The expiry every successful refresh installs.
    pub refreshed_exp: Timestamp,
}

impl FlakyResource {
    /// A resource holding data that expires at `exp`; the first `failures`
    /// refresh attempts fail, later ones install data expiring at
    /// `refreshed_exp`.
    pub fn new(exp: Timestamp, refreshed_exp: Timestamp, failures: u64) -> (r: FlakyResource)
        ensures
            r.attempts == 0,
            r.refreshes == 0,
            r.failures == failures,
            r.exp == exp,
            r.refreshed_exp == refreshed_exp,
    {
        FlakyResource { attempts: 0, refreshes: 0, failures, exp, refreshed_exp }
    }
}

impl GetExpiry for FlakyResource {
    type Error = FetchFailed;

    open spec fn expiry_spec(&self) -> Timestamp {
        self.exp
    }

    open spec fn refresh_post(pre: Self, post: Self, outcome: Result<(), FetchFailed>) -> bool {
        &&& post.attempts == counted_up(pre.attempts)
        &&& post.failures == pre.failures
        &&& post.refreshed_exp == pre.refreshed_exp
        &&& if pre.attempts < pre.failures {
            &&& outcome is Err
            &&& post.refreshes == pre.refreshes
            &&& post.exp == pre.exp
        } else {
            &&& outcome is Ok
            &&& post.refreshes == counted_up(pre.refreshes)
            &&& post.exp == pre.refreshed_exp
        }
    }

    fn get(&mut self) -> (r: Result<(), FetchFailed>) {
        let failing = self.attempts < self.failures;
        if self.attempts < u64::MAX {
            self.attempts = self.attempts + 1;
        }
        if failing {
            Err(FetchFailed)
        } else {
            if self.refreshes < u64::MAX {
                self.refreshes = self.refreshes + 1;
            }
            self.exp = self.refreshed_exp;
            Ok(())
        }
    }

    fn expiry(&self) -> (r: Timestamp) {
        self.exp
    }
}

} // verus!
