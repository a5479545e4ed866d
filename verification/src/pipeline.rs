//! The best-effort batch: every item is tried, failures are counted and set
//! aside, and at most a fixed number of items are in work at once.

use vstd::prelude::*;

verus! {

/// The number of items that are in work at once.
pub const CONCURRENCY: usize = 8;

/// The values of the results that succeeded, in order.
pub open spec fn successes<T, E>(results: Seq<Result<T, E>>) -> Seq<T>
    decreases results.len(),
{
    if results.len() == 0 {
        Seq::empty()
    } else {
        let before = successes(results.drop_last());
        match results.last() {
            Ok(value) => before.push(value),
            Err(_) => before,
        }
    }
}

/// The errors of the results that failed, in order.
pub open spec fn failures<T, E>(results: Seq<Result<T, E>>) -> Seq<E>
    decreases results.len(),
{
    if results.len() == 0 {
        Seq::empty()
    } else {
        let before = failures(results.drop_last());
        match results.last() {
            Ok(_) => before,
            Err(error) => before.push(error),
        }
    }
}

/// Every result is either among the successes or among the failures.
pub proof fn lemma_batch_is_complete<T, E>(results: Seq<Result<T, E>>)
    ensures
        successes(results).len() + failures(results).len() == results.len(),
    decreases results.len(),
{
    if results.len() > 0 {
        lemma_batch_is_complete(results.drop_last());
    }
}

/// What a batch produced.
#[derive(Debug)]
pub struct Batch<T, E> {
    /// The outputs of the items that succeeded.
    pub outputs: Vec<T>,
    /// The errors of the items that failed.
    pub failures: Vec<E>,
}

/// Sorts the results of a batch into outputs and failures. No failure ends
/// the batch: each result is kept on one side or the other, in its order.
pub fn collect<T, E>(results: Vec<Result<T, E>>) -> (batch: Batch<T, E>)
    ensures
        batch.outputs@ == successes(results@),
        batch.failures@ == failures(results@),
        batch.outputs@.len() + batch.failures@.len() == results@.len(),
{
    let mut outputs: Vec<T> = Vec::new();
    let mut errors: Vec<E> = Vec::new();
    let ghost all = results@;
    for result in it: results
        invariant
            it.seq() == all,
            outputs@ == successes(all.take(it.index() as int)),
            errors@ == failures(all.take(it.index() as int)),
    {
        proof {
            let i = it.index() as int;
            assert(all.take(i + 1).drop_last() == all.take(i));
        }
        match result {
            Ok(value) => outputs.push(value),
            Err(error) => errors.push(error),
        }
    }
    proof {
        assert(all.take(all.len() as int) == all);
        lemma_batch_is_complete(all);
    }
    Batch { outputs, failures: errors }
}

/// What the runner asks of its driver next.
#[derive(Clone, Copy, Debug, PartialEq, Eq, Structural)]
pub enum Step {
    /// Start the item with this index.
    Start(usize),
    /// Wait until an item in work has ended, then call `complete`.
    Wait,
    /// Every item has ended.
    Done,
}

/// Keeps count of a batch of `total` items of which at most `limit` are in
/// work at once. The driver starts and awaits the work; the runner decides
/// which of the two comes next.
#[derive(Debug)]
pub struct Runner {
    limit: usize,
    total: usize,
    started: usize,
    finished: usize,
}

impl Runner {
    #[verifier::type_invariant]
    spec fn well_formed(self) -> bool {
        &&& self.limit > 0
        &&& self.finished <= self.started <= self.total
        &&& self.started - self.finished <= self.limit
    }

    /// The most items that may be in work at once.
    pub closed spec fn limit(self) -> int {
        self.limit as int
    }

    /// The number of items of the batch.
    pub closed spec fn total(self) -> int {
        self.total as int
    }

    /// The number of items that were started.
    pub closed spec fn started(self) -> int {
        self.started as int
    }

    /// The number of items that have ended.
    pub closed spec fn finished(self) -> int {
        self.finished as int
    }

    /// The number of items in work.
    pub open spec fn in_flight(self) -> int {
        self.started() - self.finished()
    }

    /// The step that comes next in a state.
    pub open spec fn next_step(self) -> Step {
        if self.started() < self.total() && self.in_flight() < self.limit() {
            Step::Start(self.started() as usize)
        } else if self.in_flight() > 0 {
            Step::Wait
        } else {
            Step::Done
        }
    }

    /// A runner for `total` items with the usual limit.
    pub fn new(total: usize) -> (runner: Runner)
        ensures
            runner.limit() == CONCURRENCY,
            runner.total() == total,
            runner.started() == 0,
            runner.finished() == 0,
    {
        Runner { limit: CONCURRENCY, total, started: 0, finished: 0 }
    }

    /// A runner for `total` items of which at most `limit` are in work at
    /// once. `None` for a limit of zero, with which no item could start.
    pub fn with_limit(limit: usize, total: usize) -> (runner: Option<Runner>)
        ensures
            runner is Some <==> limit > 0,
            runner matches Some(r) ==> r.limit() == limit && r.total() == total && r.started() == 0
                && r.finished() == 0,
    {
        if limit == 0 {
            None
        } else {
            Some(Runner { limit, total, started: 0, finished: 0 })
        }
    }

    /// The number of items in work, which never exceeds the limit.
    pub fn in_work(&self) -> (count: usize)
        ensures
            count == self.in_flight(),
            0 <= self.in_flight() <= self.limit(),
            self.finished() <= self.started() <= self.total(),
    {
        proof {
            use_type_invariant(self);
        }
        self.started - self.finished
    }

    /// Decides the next step. An item is started while one is left and the
    /// limit allows it; else the driver waits for an item in work; the batch
    /// is done only when every item has ended.
    pub fn next(&mut self) -> (step: Step)
        ensures
            step == old(self).next_step(),
            final(self).limit() == old(self).limit(),
            final(self).total() == old(self).total(),
            final(self).finished() == old(self).finished(),
            final(self).started() == old(self).started() + (if step is Start {
                1int
            } else {
                0int
            }),
            final(self).in_flight() <= final(self).limit(),
            step is Done ==> final(self).finished() == final(self).total(),
    {
        proof {
            use_type_invariant(&*self);
        }
        if self.started < self.total && self.started - self.finished < self.limit {
            let index = self.started;
            self.started = self.started + 1;
            Step::Start(index)
        } else if self.started - self.finished > 0 {
            Step::Wait
        } else {
            Step::Done
        }
    }

    /// Records that an item in work has ended, whether it succeeded or
    /// failed. Returns `false`, and changes nothing, where none was in work.
    pub fn complete(&mut self) -> (recorded: bool)
        ensures
            recorded == (old(self).in_flight() > 0),
            final(self).limit() == old(self).limit(),
            final(self).total() == old(self).total(),
            final(self).started() == old(self).started(),
            final(self).finished() == old(self).finished() + (if recorded {
                1int
            } else {
                0int
            }),
    {
        proof {
            use_type_invariant(&*self);
        }
        if self.started - self.finished > 0 {
            self.finished = self.finished + 1;
            true
        } else {
            false
        }
    }
}

} // verus!
