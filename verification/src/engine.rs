//! The engine: a rule set and the switch between sequential and pooled
//! execution.

use vstd::prelude::*;
use crate::error::ReplacerError;
use crate::pool::{count_is_kept, mode_for, ExecutionMode, WorkerPool};
use crate::rule::{all_compile, apply_rules, batch_view, first_rejected, rewrite_batch, rules_of, RuleSet, RuleSpec};

verus! {

/// Rewrites batches of texts by a fixed list of rules. The rules are set at
/// construction; the execution mode can be switched at any time between
/// calls.
pub struct RegexReplacer {
    re_set: RuleSet,
    executor: Option<WorkerPool>,
}

impl RegexReplacer {
    /// No pool is kept for fewer than two workers.
    #[verifier::type_invariant]
    closed spec fn pool_is_plural(&self) -> bool {
        self.executor matches Some(pool) ==> pool.requested() > 1
    }

    /// The rules, in the order in which they are applied.
    pub closed spec fn rules(&self) -> Seq<RuleSpec> {
        self.re_set@
    }

    /// The execution mode that the next `transform` will use.
    pub closed spec fn mode(&self) -> ExecutionMode {
        match self.executor {
            Some(pool) => ExecutionMode::Pooled(pool.requested()),
            None => ExecutionMode::Sequential,
        }
    }

    /// The number of threads that the pool runs; nothing in sequential
    /// mode.
    pub closed spec fn pool_threads(&self) -> Option<nat> {
        match self.executor {
            Some(pool) => Some(pool.threads()),
            None => None,
        }
    }

    /// What `pool_threads` is after a switch to `n_jobs` workers went
    /// through: nothing for none or one, `n_jobs` where
    /// `count_is_kept(n_jobs)`, and some number beyond that.
    pub open spec fn runs_as_asked(&self, n_jobs: usize) -> bool {
        &&& self.pool_threads() is Some <==> n_jobs > 1
        &&& n_jobs > 1 && count_is_kept(n_jobs) ==> self.pool_threads() == Some(n_jobs as nat)
    }

    /// What `transform` makes of a batch: a function of the rules and of
    /// the batch, not of the mode.
    pub open spec fn transformed(&self, batch: Seq<Seq<char>>) -> Seq<Seq<char>> {
        rewrite_batch(self.rules(), batch)
    }

    /// Compiles the rules of `re_list` in list order and, for `n_jobs` of
    /// two or more, starts a pool of that many workers, which then runs
    /// `n_jobs` threads where `count_is_kept(n_jobs)`. The first pattern
    /// that does not compile fails the construction with the error that
    /// names it; a pool that does not start fails it too. No engine is
    /// returned in either case.
    pub fn new(re_list: Vec<(&str, &str)>, n_jobs: usize) -> (r: Result<Self, ReplacerError>)
        ensures
            r matches Ok(engine) ==> all_compile(re_list@) && engine.rules() == rules_of(re_list@)
                && engine.mode() == mode_for(n_jobs) && engine.runs_as_asked(n_jobs),
            all_compile(re_list@) && n_jobs <= 1 ==> r is Ok,
            all_compile(re_list@) ==> (r matches Err(e) ==> e.rejects_pool(n_jobs as int)),
            forall|i: int|
                first_rejected(re_list@, i) ==> (r matches Err(e) && e.rejects_pattern(
                    i,
                    re_list@[i].0@,
                )),
    {
        let re_set = match RuleSet::compile(&re_list) {
            Ok(set) => set,
            Err(e) => {
                return Err(e);
            },
        };
        if n_jobs > 1 {
            match WorkerPool::provision(n_jobs) {
                Ok(pool) => Ok(RegexReplacer { re_set, executor: Some(pool) }),
                Err(e) => Err(e),
            }
        } else {
            Ok(RegexReplacer { re_set, executor: None })
        }
    }

    /// The execution mode that the next `transform` will use. A pooled mode
    /// always names two or more workers.
    pub fn execution_mode(&self) -> (m: ExecutionMode)
        ensures
            m == self.mode(),
            m matches ExecutionMode::Pooled(n) ==> n > 1,
            m is Sequential <==> self.pool_threads() is None,
    {
        proof {
            use_type_invariant(self);
        }
        match &self.executor {
            Some(pool) => ExecutionMode::Pooled(pool.workers()),
            None => ExecutionMode::Sequential,
        }
    }

    /// The number of threads that the pool runs; nothing in sequential
    /// mode.
    pub fn current_pool_threads(&self) -> (n: Option<usize>)
        ensures
            n is Some <==> self.pool_threads() is Some,
            n matches Some(k) ==> self.pool_threads() == Some(k as nat),
    {
        match &self.executor {
            Some(pool) => Some(pool.current_threads()),
            None => None,
        }
    }

    /// Switches to sequential execution and lets go of the pool, if there is
    /// one. The rules stay as they are.
    pub fn to_single_thread(&mut self)
        ensures
            final(self).rules() == old(self).rules(),
            final(self).mode() == ExecutionMode::Sequential,
            final(self).pool_threads() is None,
    {
        self.executor = None;
    }

    /// Takes what provisioning a pool gave. A pool that was asked for two or
    /// more workers becomes the active mode, with the threads it runs; one
    /// asked for fewer is let go and the mode is sequential; on an error the
    /// mode and the pool stay what they were and the error is handed on.
    /// The rules stay as they are.
    pub fn install_pool(&mut self, provisioned: Result<WorkerPool, ReplacerError>) -> (r: Result<
        (),
        ReplacerError,
    >)
        ensures
            final(self).rules() == old(self).rules(),
            match provisioned {
                Ok(pool) => r is Ok && final(self).mode() == mode_for(pool.requested())
                    && final(self).pool_threads() == (if pool.requested() > 1 {
                    Some(pool.threads())
                } else {
                    None
                }),
                Err(e) => r == Err::<(), ReplacerError>(e) && final(self).mode() == old(self).mode()
                    && final(self).pool_threads() == old(self).pool_threads(),
            },
    {
        match provisioned {
            Ok(pool) => {
                if pool.workers() > 1 {
                    self.executor = Some(pool);
                } else {
                    self.executor = None;
                }
                Ok(())
            },
            Err(e) => Err(e),
        }
    }

    /// Switches to a pool of `n_jobs` workers, or to sequential execution
    /// for `n_jobs` of none or one. The new pool runs `n_jobs` threads where
    /// `count_is_kept(n_jobs)`. If the pool does not start, the error says so
    /// and the mode and the pool stay what they were. The rules stay as they
    /// are.
    pub fn to_pooled(&mut self, n_jobs: usize) -> (r: Result<(), ReplacerError>)
        ensures
            final(self).rules() == old(self).rules(),
            n_jobs <= 1 ==> r is Ok,
            r is Ok ==> final(self).mode() == mode_for(n_jobs) && final(self).runs_as_asked(n_jobs),
            r matches Err(e) ==> e.rejects_pool(n_jobs as int) && final(self).mode() == old(
                self,
            ).mode() && final(self).pool_threads() == old(self).pool_threads(),
    {
        if n_jobs > 1 {
            self.install_pool(WorkerPool::provision(n_jobs))
        } else {
            self.to_single_thread();
            Ok(())
        }
    }

    /// Rewrites every text of the batch by the rules: as many texts come
    /// back as went in, in the same order, each made from the text at its
    /// own position alone. The mode decides where the work is done, not
    /// what comes out; neither the rules nor the mode change.
    pub fn transform(&mut self, texts: Vec<String>) -> (out: Vec<String>)
        ensures
            out@.len() == texts@.len(),
            forall|i: int|
                0 <= i < texts@.len() ==> (#[trigger] out@[i])@ == apply_rules(
                    old(self).rules(),
                    texts@[i]@,
                ),
            batch_view(out@) == old(self).transformed(batch_view(texts@)),
            final(self).rules() == old(self).rules(),
            final(self).mode() == old(self).mode(),
            final(self).pool_threads() == old(self).pool_threads(),
    {
        let out = match &self.executor {
            Some(pool) => pool.apply_each(&self.re_set, texts),
            None => self.re_set.apply_each(&texts),
        };
        proof {
            let batch = batch_view(texts@);
            assert(batch_view(out@).len() == batch.len());
            assert forall|i: int| 0 <= i < texts@.len() implies (#[trigger] out@[i])@
                == apply_rules(self.rules(), texts@[i]@) by {
                assert(batch_view(out@)[i] == rewrite_batch(self.rules(), batch)[i]);
            }
        }
        out
    }
}

} // verus!

