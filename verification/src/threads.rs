//! The work of a handful of worker threads, and what is kept of their
//! results.

use vstd::prelude::*;

verus! {

/// How many workers are started.
pub const WORKERS: u64 = 5;

/// How many workers add one to the shared counter.
pub const INCREMENTERS: i32 = 10;

/// The pause of each worker grows by this many milliseconds per index.
pub const PAUSE_STEP_MS: u64 = 50;

/// How long, in milliseconds, the worker with the given index pauses.
pub fn worker_pause_ms(index: u64) -> (millis: u64)
    requires
        PAUSE_STEP_MS * index <= u64::MAX,
    ensures
        millis == PAUSE_STEP_MS * index,
{
    PAUSE_STEP_MS * index
}

/// What the worker with the given index returns: twice its index.
pub fn worker_result(index: u64) -> (result: u64)
    requires
        2 * index <= u64::MAX,
    ensures
        result == 2 * index,
{
    index * 2
}

/// The results of the workers that finished, in the order of the workers;
/// `None` stands for a worker that did not.
pub open spec fn finished_results(outcomes: Seq<Option<u64>>) -> Seq<u64>
    decreases outcomes.len(),
{
    if outcomes.len() == 0 {
        Seq::empty()
    } else {
        let earlier = finished_results(outcomes.drop_last());
        match outcomes.last() {
            Some(result) => earlier.push(result),
            None => earlier,
        }
    }
}

/// Keeps the results of the workers that finished, in the order of the
/// workers.
pub fn collect_results(outcomes: &[Option<u64>]) -> (results: Vec<u64>)
    ensures
        results@ == finished_results(outcomes@),
{
    let mut results: Vec<u64> = Vec::new();
    let mut i: usize = 0;
    while i < outcomes.len()
        invariant
            i <= outcomes.len(),
            results@ == finished_results(outcomes@.take(i as int)),
        decreases outcomes.len() - i,
    {
        proof {
            let next = outcomes@.take(i + 1);
            assert(next.drop_last() =~= outcomes@.take(i as int));
            assert(next.last() == outcomes@[i as int]);
        }
        match outcomes[i] {
            Some(result) => {
                results.push(result);
            },
            None => {},
        }
        i = i + 1;
    }
    proof {
        assert(outcomes@.take(i as int) =~= outcomes@);
    }
    results
}

/// Adds one to the shared counter.
pub fn increment(counter: &mut i32)
    requires
        *old(counter) < i32::MAX,
    ensures
        *final(counter) == *old(counter) + 1,
{
    *counter = *counter + 1;
}

} // verus!
