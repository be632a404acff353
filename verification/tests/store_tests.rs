use condvar_store::errors::CondvarStoreError;
use condvar_store::errors::GetError;
use condvar_store::latch::clear_inflight;
use condvar_store::latch::must_wait;
use condvar_store::latch::try_set_inflight;
use condvar_store::latch::wait_decision;
use condvar_store::latch::WaitStep;
use condvar_store::resources::CountingResource;
use condvar_store::resources::FetchFailed;
use condvar_store::resources::FlakyResource;
use condvar_store::store::CondvarStore;
use condvar_store::timestamp::Timestamp;

fn now_millis() -> i64 {
    chrono::Utc::now().timestamp_millis()
}

#[test]
fn fresh_value_returned_without_refresh() {
    // expiry after "now": the fast path answers and nothing is refreshed
    let res = CountingResource::new(Timestamp::new(100), Timestamp::new(200));
    let mut store = CondvarStore::new(res);
    let r = store.get_at(Timestamp::new(50));
    assert!(r.is_ok());
    assert_eq!(store.cached.refreshes, 0);
    assert_eq!(store.expiry.millis, 100);
    assert!(!store.is_inflight);
}

#[test]
fn expiry_boundary_is_strict() {
    // a value whose expiry equals "now" is already stale and gets refreshed
    let res = CountingResource::new(Timestamp::new(50), Timestamp::new(200));
    let mut store = CondvarStore::new(res);
    let r = store.get_at(Timestamp::new(50));
    assert!(r.is_ok());
    assert_eq!(store.cached.refreshes, 1);
    assert_eq!(store.expiry.millis, 200);
}

#[test]
fn stale_store_refreshes_once_for_two_callers() {
    // a stale value and two get calls: the first leads one refresh, the
    // second finds the refreshed value fresh; the refresh ran exactly once
    let start = Timestamp::new(1_000);
    let res = CountingResource::new(Timestamp::new(0), Timestamp::new(11_000));
    let mut store = CondvarStore::new(res);
    let first = store.get_at(start);
    assert!(first.is_ok());
    let second = store.get_at(start);
    assert!(second.is_ok());
    assert_eq!(store.cached.refreshes, 1);
    assert!(store.cached.exp.millis > start.millis);
    assert!(store.expiry.millis > start.millis);
}

#[test]
fn refresh_that_stays_stale_reruns_every_get() {
    // the refreshed data expires immediately, so every distinct get call
    // leads a refresh cycle of its own
    let res = CountingResource::new(Timestamp::new(0), Timestamp::new(0));
    let mut store = CondvarStore::new(res);
    for _ in 0..3 {
        let r = store.get_at(Timestamp::new(5));
        assert!(r.is_ok());
    }
    assert_eq!(store.cached.refreshes, 3);
}

#[test]
fn waiting_caller_times_out_while_refresh_is_in_flight() {
    // a caller that finds the latch held cannot be released here, so its
    // bounded wait ends in the timeout error and the store is untouched
    let res = CountingResource::new(Timestamp::new(0), Timestamp::new(11_000));
    let mut store = CondvarStore::new(res).with_timeout(2);
    assert_eq!(store.timeout, 2);
    store.is_inflight = true;
    let r = store.get_at(Timestamp::new(1_000));
    assert!(matches!(
        r,
        Err(GetError::Store(CondvarStoreError::GetTimeout))
    ));
    assert_eq!(store.cached.refreshes, 0);
    assert_eq!(store.expiry.millis, 0);

    // once the latch is released, a later get succeeds, and the refresh has
    // then run exactly once
    store.is_inflight = false;
    let r2 = store.get_at(Timestamp::new(1_000));
    assert!(r2.is_ok());
    assert_eq!(store.cached.refreshes, 1);
    assert_eq!(store.expiry.millis, 11_000);
}

#[test]
fn failed_refresh_surfaces_to_leader_and_is_retried() {
    // the first refresh attempt fails: the leader sees the fetch error, the
    // expiry stays stale; the next get leads a brand-new cycle that succeeds
    let start = Timestamp::new(1_000);
    let res = FlakyResource::new(Timestamp::new(0), Timestamp::new(11_000), 1);
    let mut store = CondvarStore::new(res);
    let first = store.get_at(start);
    assert!(matches!(first, Err(GetError::Fetch(FetchFailed))));
    assert_eq!(store.expiry.millis, 0);
    assert_eq!(store.cached.attempts, 1);
    assert_eq!(store.cached.refreshes, 0);
    assert!(!store.is_inflight);

    // a second caller waiting out the failing cycle sees only a timeout,
    // never the leader's fetch error
    store.is_inflight = true;
    let waiting = store.get_at(start);
    assert!(matches!(
        waiting,
        Err(GetError::Store(CondvarStoreError::GetTimeout))
    ));
    store.is_inflight = false;

    let later = store.get_at(start);
    assert!(later.is_ok());
    assert_eq!(store.cached.attempts, 2);
    assert_eq!(store.cached.refreshes, 1);
    assert!(store.cached.exp.millis > start.millis);
    assert_eq!(store.expiry.millis, 11_000);
}

#[test]
fn get_with_ambient_clock() {
    // stale against any real clock; the refresh installs data that can
    // never expire, so the second call takes the fast path
    let start = now_millis();
    let res = CountingResource::new(Timestamp::new(0), Timestamp::new(i64::MAX));
    let mut store = CondvarStore::new(res);
    let first = store.get();
    assert!(first.is_ok());
    assert_eq!(store.cached.refreshes, 1);
    let second = store.get();
    assert!(second.is_ok());
    assert_eq!(store.cached.refreshes, 1);
    assert!(store.cached.exp.millis > start);
}

#[test]
fn new_seeds_expiry_and_default_timeout() {
    let res = CountingResource::new(Timestamp::new(42), Timestamp::new(99));
    let store = CondvarStore::new(res);
    assert_eq!(store.expiry.millis, 42);
    assert_eq!(store.timeout, 1000);
    assert!(!store.is_inflight);
    let store = store.with_timeout(250);
    assert_eq!(store.timeout, 250);
    assert_eq!(store.expiry.millis, 42);
}

#[test]
fn latch_elects_exactly_one_leader() {
    // three contenders in one cycle: only the first is chosen
    let mut flag = false;
    assert!(try_set_inflight(&mut flag));
    assert!(flag);
    assert!(!try_set_inflight(&mut flag));
    assert!(!try_set_inflight(&mut flag));
    clear_inflight(&mut flag);
    assert!(!flag);
    // a new cycle elects a new leader
    assert!(try_set_inflight(&mut flag));
}

#[test]
fn follower_wait_decisions() {
    assert!(!must_wait(false));
    assert!(must_wait(true));
    assert_eq!(wait_decision(true, true), WaitStep::TimedOut);
    assert_eq!(wait_decision(true, false), WaitStep::TimedOut);
    assert_eq!(wait_decision(false, true), WaitStep::WaitAgain);
    assert_eq!(wait_decision(false, false), WaitStep::Ready);
}

#[test]
fn timestamp_order_is_strict() {
    let a = Timestamp::new(5);
    let b = Timestamp::new(7);
    assert!(b.is_after(&a));
    assert!(!a.is_after(&b));
    assert!(!a.is_after(&a));
}

#[test]
fn error_values_carry_their_cause() {
    let timeout: GetError<FetchFailed> = GetError::Store(CondvarStoreError::GetTimeout);
    assert!(matches!(
        timeout,
        GetError::Store(CondvarStoreError::GetTimeout)
    ));
    let poisoned: GetError<FetchFailed> =
        GetError::Store(CondvarStoreError::PoisonedLock(String::from("write lock")));
    match poisoned {
        GetError::Store(CondvarStoreError::PoisonedLock(s)) => assert_eq!(s, "write lock"),
        _ => panic!("wrong variant"),
    }
    let fetch: GetError<FetchFailed> = GetError::Fetch(FetchFailed);
    assert!(matches!(fetch, GetError::Fetch(FetchFailed)));
}
