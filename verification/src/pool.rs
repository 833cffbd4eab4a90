//! The execution mode and the bounded pool of workers behind it.

use vstd::prelude::*;
use rayon::iter::{IntoParallelIterator, ParallelIterator};
use rayon::{ThreadPool, ThreadPoolBuildError, ThreadPoolBuilder};
use crate::error::ReplacerError;
use crate::rule::{apply_rules, batch_view, rewrite_batch, RuleSet};

verus! {

/// `rayon::ThreadPool`, a pool of worker threads. Opaque to the proofs.
#[verifier::external_type_specification]
#[verifier::external_body]
pub struct ExThreadPool(rayon::ThreadPool);

/// `rayon::ThreadPoolBuildError`, what building a pool returns when the
/// threads cannot be started.
#[verifier::external_type_specification]
#[verifier::external_body]
pub struct ExThreadPoolBuildError(rayon::ThreadPoolBuildError);

/// The number of threads that a pool runs: what
/// `ThreadPool::current_num_threads` returns for it. It is fixed when the
/// pool is built.
pub uninterp spec fn pool_threads(pool: ThreadPool) -> nat;

/// Whether a pool that was asked for `workers` threads runs exactly that
/// many. rayon leaves the choice to the environment where none is asked
/// for, and starts no more than its own maximum, which is 255 on the
/// targets where it is smallest.
pub open spec fn count_is_kept(workers: usize) -> bool {
    0 < workers <= 255
}

/// `ThreadPoolBuilder::new().num_threads(workers).build()`. Whether the
/// threads can be started depends on the machine, so success is not
/// promised. Trusted: a pool that comes back runs the number of threads
/// that was asked for, where that number is at least one and within rayon's
/// maximum on every target.
#[verifier::external_body]
fn build_pool(workers: usize) -> (r: Result<ThreadPool, ThreadPoolBuildError>)
    ensures
        r matches Ok(pool) ==> (count_is_kept(workers) ==> pool_threads(pool) == workers),
{
    ThreadPoolBuilder::new().num_threads(workers).build()
}

/// `ThreadPool::current_num_threads`. Trusted: it returns the number of
/// threads that the pool was built with.
pub assume_specification[ ThreadPool::current_num_threads ](pool: &ThreadPool) -> (n: usize)
    ensures
        n == pool_threads(*pool),
;

/// `ThreadPool::install` around a parallel `map` and `collect` of rayon, over
/// the texts of the batch, with `RuleSet::apply` as the task. Trusted of
/// rayon: `install` returns what its closure returns, and collecting a mapped
/// vector into a `Vec` yields one result for each item, at the item's own
/// position, whichever worker finished first.
#[verifier::external_body]
fn pool_map(pool: &ThreadPool, rules: &RuleSet, texts: Vec<String>) -> (out: Vec<String>)
    ensures
        out@.len() == texts@.len(),
        forall|i: int|
            0 <= i < texts@.len() ==> (#[trigger] out@[i])@ == apply_rules(rules@, texts@[i]@),
{
    pool.install(|| texts.into_par_iter().map(|t| rules.apply(t.as_str())).collect())
}

/// How a batch is processed: on the calling thread, or on a pool of the
/// given number of workers.
#[derive(Debug, Clone, Copy, PartialEq, Eq, Structural)]
pub enum ExecutionMode {
    Sequential,
    Pooled(usize),
}

/// The mode that a requested number of workers stands for: a pool for two
/// or more, the calling thread for none or one.
pub open spec fn mode_for(workers: usize) -> ExecutionMode {
    if workers > 1 {
        ExecutionMode::Pooled(workers)
    } else {
        ExecutionMode::Sequential
    }
}

/// A started pool together with the number of workers it was asked for.
pub struct WorkerPool {
    handle: ThreadPool,
    workers: usize,
}

impl WorkerPool {
    /// The number of workers the pool was asked for.
    pub closed spec fn requested(&self) -> usize {
        self.workers
    }

    /// The number of threads that the pool runs.
    pub closed spec fn threads(&self) -> nat {
        pool_threads(self.handle)
    }

    /// Makes a pool of what asking for `workers` threads gave: where they
    /// started, the pool that was built, with its threads, and `workers` as
    /// the number asked for; where they did not, the error that names
    /// `workers`.
    pub fn from_built(built: Result<ThreadPool, ThreadPoolBuildError>, workers: usize) -> (r: Result<
        WorkerPool,
        ReplacerError,
    >)
        ensures
            built matches Ok(p) ==> (r matches Ok(pool) && pool.requested() == workers
                && pool.threads() == pool_threads(p)),
            built is Err ==> (r matches Err(e) && e.rejects_pool(workers as int)),
    {
        match built {
            Ok(handle) => Ok(WorkerPool { handle, workers }),
            Err(_) => Err(ReplacerError::PoolProvision { workers }),
        }
    }

    /// Asks for a pool of `workers` threads. Whether they start is up to the
    /// machine: either the error that names `workers` comes back, or a pool
    /// that was asked for `workers` and, where `count_is_kept(workers)`,
    /// runs exactly that many threads.
    pub fn provision(workers: usize) -> (r: Result<WorkerPool, ReplacerError>)
        ensures
            r matches Ok(pool) ==> pool.requested() == workers && (count_is_kept(workers)
                ==> pool.threads() == workers),
            r matches Err(e) ==> e.rejects_pool(workers as int),
    {
        WorkerPool::from_built(build_pool(workers), workers)
    }

    /// The number of workers the pool was asked for.
    pub fn workers(&self) -> (n: usize)
        ensures
            n == self.requested(),
    {
        self.workers
    }

    /// The number of threads that the pool runs.
    pub fn current_threads(&self) -> (n: usize)
        ensures
            n == self.threads(),
    {
        self.handle.current_num_threads()
    }

    /// Applies `rules` to every text of `texts` on the pool's workers and
    /// waits for all of them. The results stand in batch order.
    pub fn apply_each(&self, rules: &RuleSet, texts: Vec<String>) -> (out: Vec<String>)
        ensures
            batch_view(out@) == rewrite_batch(rules@, batch_view(texts@)),
    {
        let out = pool_map(&self.handle, rules, texts);
        assert(batch_view(out@) =~= rewrite_batch(rules@, batch_view(texts@)));
        out
    }
}

} // verus!
