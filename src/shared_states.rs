//! Application state shared by the request handlers: an immutable label,
//! a counter that every request advances under a lock, and a pair of
//! counters of which one is kept per worker and one is shared by all.

use std::sync::atomic::AtomicUsize;
use std::sync::atomic::Ordering;
use std::sync::Arc;
use vstd::prelude::*;

use crate::decimal::decimal;
use crate::decimal::push_decimal;
use crate::decimal::push_signed_decimal;
use crate::decimal::signed_decimal;

verus! {

/// Immutable state created once at startup: the application's name.
pub struct AppState {
    pub app_name: String,
}

impl AppState {
    pub fn new(app_name: String) -> (r: AppState)
        ensures
            r.app_name@ == app_name@,
    {
        AppState { app_name }
    }
}

/// The reply of the index endpoint for an application named `name`.
pub open spec fn greeting(name: Seq<char>) -> Seq<char> {
    "Hello "@ + name + "!"@
}

/// Reply of the index endpoint. The state is only read, so the reply is the
/// same for every request.
pub fn index(data: &AppState) -> (r: String)
    ensures
        r@ == greeting(data.app_name@),
{
    let mut out = String::new();
    out.append("Hello ");
    out.append(data.app_name.as_str());
    out.append("!");
    out
}

/// A request counter. The server keeps one value of it behind a mutual
/// exclusion lock, and each request advances it while holding the lock.
pub struct MutableState {
    pub counter: i32,
}

impl MutableState {
    pub fn new() -> (r: MutableState)
        ensures
            r.counter == 0,
    {
        MutableState { counter: 0 }
    }
}

/// The counter value after one more request.
pub open spec fn counter_step(counter: int) -> int {
    counter + 1
}

/// The reply that reports the counter value `counter`.
pub open spec fn counter_reply(counter: int) -> Seq<char> {
    "Request number: "@ + signed_decimal(counter)
}

/// The counter value after `n` sequential requests, starting from `start`.
pub open spec fn counter_after(start: int, n: nat) -> int
    decreases n,
{
    if n == 0 {
        start
    } else {
        counter_step(counter_after(start, (n - 1) as nat))
    }
}

/// Serves one request on the counter: advances it by one and reports the new
/// value. The caller holds the lock around the call.
pub fn mutable_counter(data: &mut MutableState) -> (r: String)
    requires
        old(data).counter < i32::MAX,
    ensures
        final(data).counter == counter_step(old(data).counter as int),
        r@ == counter_reply(final(data).counter as int),
{
    data.counter = data.counter + 1;
    let mut out = String::new();
    out.append("Request number: ");
    push_signed_decimal(&mut out, data.counter as i64);
    out
}

/// Serial access loses no request: starting from zero, the `n`-th request
/// (counting from one) finds the counter at `n` and reports `n`.
pub proof fn lemma_nth_request_reports_n(n: nat)
    requires
        n >= 1,
    ensures
        counter_after(0, n) == n,
        counter_reply(counter_after(0, n)) == "Request number: "@ + decimal(n),
    decreases n,
{
    if n > 1 {
        lemma_nth_request_reports_n((n - 1) as nat);
    } else {
        assert(counter_after(0, 0) == 0);
    }
}

/// Per-worker request counters. Each worker serves with its own clone: the
/// clone copies `worker_local_count`, so each worker counts only the requests
/// it serves, and shares `global_count`, which counts the requests of all
/// workers.
#[derive(Clone)]
pub struct AnotherAppState {
    pub worker_local_count: usize,
    pub global_count: Arc<AtomicUsize>,
}

impl AnotherAppState {
    /// Both counters at zero, with a fresh shared counter.
    pub fn new() -> (r: AnotherAppState)
        ensures
            r.worker_local_count == 0,
    {
        AnotherAppState { worker_local_count: 0, global_count: Arc::new(AtomicUsize::new(0)) }
    }
}

/// The reply that reports the shared count `global` and the worker's own
/// count `local`.
pub open spec fn add_reply(global: nat, local: nat) -> Seq<char> {
    "global_count: "@ + decimal(global) + "\nworker_local_count: "@ + decimal(local)
}

/// Writes the reply that reports the shared count `global` and the worker's
/// own count `local`.
pub fn add_reply_text(global: usize, local: usize) -> (r: String)
    ensures
        r@ == add_reply(global as nat, local as nat),
{
    let mut out = String::new();
    out.append("global_count: ");
    push_decimal(&mut out, global as u64);
    out.append("\nworker_local_count: ");
    push_decimal(&mut out, local as u64);
    out
}

/// Serves one request on a worker's counters: adds one to the shared count
/// and to the worker's own count, and reports both. The shared count it
/// reports is read back after the addition, so it also holds what other
/// workers have added meanwhile.
pub fn add_one_to_another_app_state(data: &mut AnotherAppState) -> (r: String)
    requires
        old(data).worker_local_count < usize::MAX,
    ensures
        final(data).worker_local_count == old(data).worker_local_count + 1,
        final(data).global_count == old(data).global_count,
        exists|global: usize|
            r@ == add_reply(global as nat, final(data).worker_local_count as nat),
{
    data.global_count.fetch_add(1, Ordering::Relaxed);
    data.worker_local_count = data.worker_local_count + 1;
    let global = data.global_count.load(Ordering::Relaxed);
    add_reply_text(global, data.worker_local_count)
}

/// The counters of a pool of workers, each serving with its own clone of an
/// [`AnotherAppState`]: the shared count and the own count of each worker.
pub struct CounterPool {
    pub global: nat,
    pub locals: Seq<nat>,
}

/// A pool of `workers` workers before any request.
pub open spec fn pool_start(workers: nat) -> CounterPool {
    CounterPool { global: 0, locals: Seq::new(workers, |w: int| 0nat) }
}

/// The pool after worker `w` serves one request: as in
/// [`add_one_to_another_app_state`], the shared count and `w`'s own count
/// each grow by one, and no other worker's count changes.
pub open spec fn pool_step(pool: CounterPool, w: int) -> CounterPool {
    CounterPool { global: pool.global + 1, locals: pool.locals.update(w, pool.locals[w] + 1) }
}

/// The pool after the requests of `served_by`, in order, where `served_by[i]`
/// is the worker that served request `i`.
pub open spec fn pool_after(workers: nat, served_by: Seq<int>) -> CounterPool
    decreases served_by.len(),
{
    if served_by.len() == 0 {
        pool_start(workers)
    } else {
        pool_step(pool_after(workers, served_by.drop_last()), served_by.last())
    }
}

/// How many of the requests of `served_by` worker `w` served.
pub open spec fn served_count(served_by: Seq<int>, w: int) -> nat
    decreases served_by.len(),
{
    if served_by.len() == 0 {
        0
    } else {
        served_count(served_by.drop_last(), w) + if served_by.last() == w {
            1nat
        } else {
            0nat
        }
    }
}

/// The sum of `counts`.
pub open spec fn total(counts: Seq<nat>) -> nat
    decreases counts.len(),
{
    if counts.len() == 0 {
        0
    } else {
        total(counts.drop_last()) + counts.last()
    }
}

proof fn lemma_total_after_increment(counts: Seq<nat>, w: int)
    requires
        0 <= w < counts.len(),
    ensures
        total(counts.update(w, counts[w] + 1)) == total(counts) + 1,
    decreases counts.len(),
{
    let bumped = counts.update(w, counts[w] + 1);
    if w == counts.len() - 1 {
        assert(bumped.drop_last() =~= counts.drop_last());
    } else {
        lemma_total_after_increment(counts.drop_last(), w);
        assert(bumped.drop_last() =~= counts.drop_last().update(w, counts[w] + 1));
    }
}

proof fn lemma_total_zeros(n: nat)
    ensures
        total(Seq::new(n, |w: int| 0nat)) == 0,
    decreases n,
{
    if n > 0 {
        lemma_total_zeros((n - 1) as nat);
        assert(Seq::new(n, |w: int| 0nat).drop_last() =~= Seq::new((n - 1) as nat, |w: int| 0nat));
    }
}

/// However `n` requests are spread over `workers` workers, the shared count
/// ends at `n`, each worker's own count ends at the number of requests that
/// worker served, and the own counts add up to `n`.
pub proof fn lemma_pool_counts(workers: nat, served_by: Seq<int>)
    requires
        forall|i: int| 0 <= i < served_by.len() ==> 0 <= #[trigger] served_by[i] < workers,
    ensures
        pool_after(workers, served_by).global == served_by.len(),
        pool_after(workers, served_by).locals.len() == workers,
        forall|w: int|
            0 <= w < workers ==> #[trigger] pool_after(workers, served_by).locals[w]
                == served_count(served_by, w),
        total(pool_after(workers, served_by).locals) == served_by.len(),
    decreases served_by.len(),
{
    if served_by.len() == 0 {
        lemma_total_zeros(workers);
    } else {
        let earlier = served_by.drop_last();
        assert forall|i: int| 0 <= i < earlier.len() implies 0 <= #[trigger] earlier[i] < workers by {
            assert(earlier[i] == served_by[i]);
        }
        lemma_pool_counts(workers, earlier);
        let w = served_by.last();
        assert(0 <= served_by[served_by.len() - 1] < workers);
        lemma_total_after_increment(pool_after(workers, earlier).locals, w);
    }
}

} // verus!
