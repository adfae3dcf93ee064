use vstd::prelude::*;

verus! {

/// What the caller of a transaction strategy does next.
#[derive(Clone, Copy, Debug, PartialEq, Eq, Structural)]
pub enum TxStep {
    /// Open the transaction and report with `on_begin`.
    Begin,
    /// Run the action at this index with the transaction and report with
    /// `on_action`.
    Run(usize),
    /// Start every action at once, each with a share of the transaction, and
    /// report their joint outcome with `on_joined`.
    Launch,
    /// Take the shared transaction back into sole ownership and report with
    /// `on_reclaimed`.
    Reclaim,
    /// Commit the transaction and report with `on_commit`.
    Commit,
    /// Roll the transaction back and report with `on_rollback`.
    Rollback,
    /// The strategy is over: `into_result` gives its outcome.
    Finish,
}

/// One callback run inside one transaction: committed when the callback
/// succeeds, rolled back when it fails.
pub struct CallbackRun<R, E> {
    step: TxStep,
    value: Option<R>,
    failure: Option<E>,
}

impl<R, E> CallbackRun<R, E> {
    /// What the caller does next.
    pub closed spec fn spec_step(&self) -> TxStep {
        self.step
    }

    /// What the callback returned, once it succeeded.
    pub closed spec fn value(&self) -> Option<R> {
        self.value
    }

    /// The error the run ends with, once one occurred.
    pub closed spec fn failure(&self) -> Option<E> {
        self.failure
    }

    pub closed spec fn wf(&self) -> bool {
        match self.step {
            TxStep::Begin | TxStep::Run(0) => self.value is None && self.failure is None,
            TxStep::Commit => self.value is Some && self.failure is None,
            TxStep::Rollback => self.value is None && self.failure is Some,
            TxStep::Finish => self.value is Some || self.failure is Some,
            _ => false,
        }
    }

    /// A run whose transaction is yet to be opened.
    pub fn new() -> (r: Self)
        ensures
            r.wf(),
            r.spec_step() == TxStep::Begin,
    {
        CallbackRun { step: TxStep::Begin, value: None, failure: None }
    }

    /// What the caller does next.
    pub fn step(&self) -> (r: TxStep)
        ensures
            r == self.spec_step(),
    {
        self.step
    }

    /// Takes the outcome of opening the transaction.
    pub fn on_begin(&mut self, outcome: Result<(), E>) -> (r: TxStep)
        requires
            old(self).wf(),
            old(self).spec_step() == TxStep::Begin,
        ensures
            final(self).wf(),
            r == final(self).spec_step(),
            final(self).value() is None,
            match outcome {
                Ok(()) => r == TxStep::Run(0) && final(self).failure() is None,
                Err(e) => r == TxStep::Finish && final(self).failure() == Some(e),
            },
    {
        match outcome {
            Ok(()) => {
                self.step = TxStep::Run(0);
            },
            Err(e) => {
                self.failure = Some(e);
                self.step = TxStep::Finish;
            },
        }
        self.step
    }

    /// Takes what the callback returned.
    pub fn on_action(&mut self, outcome: Result<R, E>) -> (r: TxStep)
        requires
            old(self).wf(),
            old(self).spec_step() == TxStep::Run(0),
        ensures
            final(self).wf(),
            r == final(self).spec_step(),
            match outcome {
                Ok(v) => {
                    &&& r == TxStep::Commit
                    &&& final(self).value() == Some(v)
                    &&& final(self).failure() is None
                },
                Err(e) => {
                    &&& r == TxStep::Rollback
                    &&& final(self).value() is None
                    &&& final(self).failure() == Some(e)
                },
            },
    {
        match outcome {
            Ok(v) => {
                self.value = Some(v);
                self.step = TxStep::Commit;
            },
            Err(e) => {
                self.failure = Some(e);
                self.step = TxStep::Rollback;
            },
        }
        self.step
    }

    /// Takes the outcome of the commit; a failed commit ends the run with its
    /// error.
    pub fn on_commit(&mut self, outcome: Result<(), E>) -> (r: TxStep)
        requires
            old(self).wf(),
            old(self).spec_step() == TxStep::Commit,
        ensures
            final(self).wf(),
            r == final(self).spec_step(),
            r == TxStep::Finish,
            final(self).value() == old(self).value(),
            match outcome {
                Ok(()) => final(self).failure() is None,
                Err(e) => final(self).failure() == Some(e),
            },
    {
        if let Err(e) = outcome {
            self.failure = Some(e);
        }
        self.step = TxStep::Finish;
        self.step
    }

    /// Takes the outcome of the rollback; a failed rollback ends the run with
    /// its own error in place of the callback's.
    pub fn on_rollback(&mut self, outcome: Result<(), E>) -> (r: TxStep)
        requires
            old(self).wf(),
            old(self).spec_step() == TxStep::Rollback,
        ensures
            final(self).wf(),
            r == final(self).spec_step(),
            r == TxStep::Finish,
            final(self).value() is None,
            match outcome {
                Ok(()) => final(self).failure() == old(self).failure(),
                Err(e) => final(self).failure() == Some(e),
            },
    {
        if let Err(e) = outcome {
            self.failure = Some(e);
        }
        self.step = TxStep::Finish;
        self.step
    }

    /// The outcome of a finished run: the callback's value, or the error.
    pub fn into_result(self) -> (r: Result<R, E>)
        requires
            self.wf(),
            self.spec_step() == TxStep::Finish,
        ensures
            r == match self.failure() {
                Some(e) => Err(e),
                None => Ok(self.value()->0),
            },
    {
        match self.failure {
            Some(e) => Err(e),
            None => Ok(self.value.unwrap()),
        }
    }
}

/// Actions run one after another with one transaction, stopping at the first
/// failure.
///
/// The first failing action rolls the transaction back and its error is the
/// outcome; the actions after it never run. When every action succeeds the
/// transaction is committed once, and the outcome is their results in order.
pub struct SequentialRun<R, E> {
    total: usize,
    step: TxStep,
    results: Vec<R>,
    failure: Option<E>,
}

impl<R, E> SequentialRun<R, E> {
    /// The number of actions.
    pub closed spec fn total(&self) -> nat {
        self.total as nat
    }

    /// What the caller does next.
    pub closed spec fn spec_step(&self) -> TxStep {
        self.step
    }

    /// The results of the actions that succeeded so far, in order.
    pub closed spec fn results(&self) -> Seq<R> {
        self.results@
    }

    /// The error the run ends with, once one occurred.
    pub closed spec fn failure(&self) -> Option<E> {
        self.failure
    }

    pub closed spec fn wf(&self) -> bool {
        match self.step {
            TxStep::Begin => self.results@.len() == 0 && self.failure is None,
            TxStep::Run(i) => i < self.total && self.results@.len() == i && self.failure is None,
            TxStep::Commit => self.results@.len() == self.total && self.failure is None,
            TxStep::Rollback => self.failure is Some,
            TxStep::Finish => self.failure is None ==> self.results@.len() == self.total,
            _ => false,
        }
    }

    /// A run of `total` actions whose transaction is yet to be opened.
    pub fn new(total: usize) -> (r: Self)
        ensures
            r.wf(),
            r.total() == total,
            r.spec_step() == TxStep::Begin,
            r.results() == Seq::<R>::empty(),
    {
        SequentialRun { total, step: TxStep::Begin, results: Vec::new(), failure: None }
    }

    /// What the caller does next.
    pub fn step(&self) -> (r: TxStep)
        ensures
            r == self.spec_step(),
    {
        self.step
    }

    /// Takes the outcome of opening the transaction.
    pub fn on_begin(&mut self, outcome: Result<(), E>) -> (r: TxStep)
        requires
            old(self).wf(),
            old(self).spec_step() == TxStep::Begin,
        ensures
            final(self).wf(),
            r == final(self).spec_step(),
            final(self).total() == old(self).total(),
            final(self).results() == old(self).results(),
            match outcome {
                Ok(()) => {
                    &&& final(self).failure() is None
                    &&& r == if old(self).total() == 0 {
                        TxStep::Commit
                    } else {
                        TxStep::Run(0)
                    }
                },
                Err(e) => r == TxStep::Finish && final(self).failure() == Some(e),
            },
    {
        match outcome {
            Ok(()) => {
                if self.total == 0 {
                    self.step = TxStep::Commit;
                } else {
                    self.step = TxStep::Run(0);
                }
            },
            Err(e) => {
                self.failure = Some(e);
                self.step = TxStep::Finish;
            },
        }
        self.step
    }

    /// Takes the outcome of the action the last step named.
    pub fn on_action(&mut self, outcome: Result<R, E>) -> (r: TxStep)
        requires
            old(self).wf(),
            old(self).spec_step() is Run,
        ensures
            final(self).wf(),
            r == final(self).spec_step(),
            final(self).total() == old(self).total(),
            match outcome {
                Ok(v) => {
                    &&& final(self).results() == old(self).results().push(v)
                    &&& final(self).failure() is None
                    &&& r == if old(self).spec_step()->Run_0 + 1 < old(self).total() {
                        TxStep::Run((old(self).spec_step()->Run_0 + 1) as usize)
                    } else {
                        TxStep::Commit
                    }
                },
                Err(e) => {
                    &&& final(self).results() == old(self).results()
                    &&& r == TxStep::Rollback
                    &&& final(self).failure() == Some(e)
                },
            },
    {
        let index = match self.step {
            TxStep::Run(i) => i,
            _ => 0,
        };
        match outcome {
            Ok(v) => {
                self.results.push(v);
                if index + 1 < self.total {
                    self.step = TxStep::Run(index + 1);
                } else {
                    self.step = TxStep::Commit;
                }
            },
            Err(e) => {
                self.failure = Some(e);
                self.step = TxStep::Rollback;
            },
        }
        self.step
    }

    /// Takes the outcome of the commit; a failed commit ends the run with its
    /// error.
    pub fn on_commit(&mut self, outcome: Result<(), E>) -> (r: TxStep)
        requires
            old(self).wf(),
            old(self).spec_step() == TxStep::Commit,
        ensures
            final(self).wf(),
            r == final(self).spec_step(),
            r == TxStep::Finish,
            final(self).total() == old(self).total(),
            final(self).results() == old(self).results(),
            match outcome {
                Ok(()) => final(self).failure() is None,
                Err(e) => final(self).failure() == Some(e),
            },
    {
        if let Err(e) = outcome {
            self.failure = Some(e);
        }
        self.step = TxStep::Finish;
        self.step
    }

    /// Takes the outcome of the rollback; the run ends with the failed
    /// action's error whatever the rollback reported.
    pub fn on_rollback(&mut self, outcome: Result<(), E>) -> (r: TxStep)
        requires
            old(self).wf(),
            old(self).spec_step() == TxStep::Rollback,
        ensures
            final(self).wf(),
            r == final(self).spec_step(),
            r == TxStep::Finish,
            final(self).total() == old(self).total(),
            final(self).results() == old(self).results(),
            final(self).failure() == old(self).failure(),
    {
        self.step = TxStep::Finish;
        self.step
    }

    /// The outcome of a finished run: every result in order, or the error.
    pub fn into_result(self) -> (r: Result<Vec<R>, E>)
        requires
            self.wf(),
            self.spec_step() == TxStep::Finish,
        ensures
            match self.failure() {
                Some(e) => r == Err::<Vec<R>, E>(e),
                None => r matches Ok(v) && v@ == self.results(),
            },
    {
        match self.failure {
            Some(e) => Err(e),
            None => Ok(self.results),
        }
    }
}

/// Actions run at once, sharing one transaction behind a lock.
///
/// When every action has finished, the transaction is taken back into sole
/// ownership; where a share of it is still held, the run ends with that
/// error and the transaction is neither committed nor rolled back here.
/// Otherwise it is committed when every action succeeded, and rolled back
/// when one failed.
pub struct ConcurrentRun<R, E> {
    step: TxStep,
    values: Option<Vec<R>>,
    failure: Option<E>,
}

impl<R, E> ConcurrentRun<R, E> {
    /// What the caller does next.
    pub closed spec fn spec_step(&self) -> TxStep {
        self.step
    }

    /// The actions' results, once they all succeeded.
    pub closed spec fn values(&self) -> Option<Seq<R>> {
        match self.values {
            Some(v) => Some(v@),
            None => None,
        }
    }

    /// The error the run ends with, once one occurred.
    pub closed spec fn failure(&self) -> Option<E> {
        self.failure
    }

    pub closed spec fn wf(&self) -> bool {
        match self.step {
            TxStep::Begin | TxStep::Launch => self.values is None && self.failure is None,
            TxStep::Reclaim => self.values is Some <==> self.failure is None,
            TxStep::Commit => self.values is Some && self.failure is None,
            TxStep::Rollback => self.values is None && self.failure is Some,
            TxStep::Finish => self.values is Some || self.failure is Some,
            _ => false,
        }
    }

    /// A run whose transaction is yet to be opened.
    pub fn new() -> (r: Self)
        ensures
            r.wf(),
            r.spec_step() == TxStep::Begin,
    {
        ConcurrentRun { step: TxStep::Begin, values: None, failure: None }
    }

    /// What the caller does next.
    pub fn step(&self) -> (r: TxStep)
        ensures
            r == self.spec_step(),
    {
        self.step
    }

    /// Takes the outcome of opening the transaction.
    pub fn on_begin(&mut self, outcome: Result<(), E>) -> (r: TxStep)
        requires
            old(self).wf(),
            old(self).spec_step() == TxStep::Begin,
        ensures
            final(self).wf(),
            r == final(self).spec_step(),
            final(self).values() is None,
            match outcome {
                Ok(()) => r == TxStep::Launch && final(self).failure() is None,
                Err(e) => r == TxStep::Finish && final(self).failure() == Some(e),
            },
    {
        match outcome {
            Ok(()) => {
                self.step = TxStep::Launch;
            },
            Err(e) => {
                self.failure = Some(e);
                self.step = TxStep::Finish;
            },
        }
        self.step
    }

    /// Takes the joint outcome of the actions: all their results in order, or
    /// the error of one that failed.
    pub fn on_joined(&mut self, outcome: Result<Vec<R>, E>) -> (r: TxStep)
        requires
            old(self).wf(),
            old(self).spec_step() == TxStep::Launch,
        ensures
            final(self).wf(),
            r == final(self).spec_step(),
            r == TxStep::Reclaim,
            match outcome {
                Ok(v) => final(self).values() == Some(v@) && final(self).failure() is None,
                Err(e) => final(self).values() is None && final(self).failure() == Some(e),
            },
    {
        match outcome {
            Ok(v) => {
                self.values = Some(v);
            },
            Err(e) => {
                self.failure = Some(e);
            },
        }
        self.step = TxStep::Reclaim;
        self.step
    }

    /// Takes the outcome of regaining sole ownership of the transaction; where
    /// that failed, the run ends with that error.
    pub fn on_reclaimed(&mut self, outcome: Result<(), E>) -> (r: TxStep)
        requires
            old(self).wf(),
            old(self).spec_step() == TxStep::Reclaim,
        ensures
            final(self).wf(),
            r == final(self).spec_step(),
            match outcome {
                Ok(()) => {
                    &&& final(self).values() == old(self).values()
                    &&& final(self).failure() == old(self).failure()
                    &&& r == if old(self).failure() is None {
                        TxStep::Commit
                    } else {
                        TxStep::Rollback
                    }
                },
                Err(e) => {
                    &&& r == TxStep::Finish
                    &&& final(self).values() is None
                    &&& final(self).failure() == Some(e)
                },
            },
    {
        match outcome {
            Ok(()) => {
                if self.failure.is_none() {
                    self.step = TxStep::Commit;
                } else {
                    self.step = TxStep::Rollback;
                }
            },
            Err(e) => {
                self.values = None;
                self.failure = Some(e);
                self.step = TxStep::Finish;
            },
        }
        self.step
    }

    /// Takes the outcome of the commit; a failed commit ends the run with its
    /// error.
    pub fn on_commit(&mut self, outcome: Result<(), E>) -> (r: TxStep)
        requires
            old(self).wf(),
            old(self).spec_step() == TxStep::Commit,
        ensures
            final(self).wf(),
            r == final(self).spec_step(),
            r == TxStep::Finish,
            match outcome {
                Ok(()) => final(self).values() == old(self).values() && final(self).failure() is None,
                Err(e) => final(self).values() is None && final(self).failure() == Some(e),
            },
    {
        if let Err(e) = outcome {
            self.values = None;
            self.failure = Some(e);
        }
        self.step = TxStep::Finish;
        self.step
    }

    /// Takes the outcome of the rollback; a failed rollback ends the run with
    /// its own error in place of the action's.
    pub fn on_rollback(&mut self, outcome: Result<(), E>) -> (r: TxStep)
        requires
            old(self).wf(),
            old(self).spec_step() == TxStep::Rollback,
        ensures
            final(self).wf(),
            r == final(self).spec_step(),
            r == TxStep::Finish,
            final(self).values() is None,
            match outcome {
                Ok(()) => final(self).failure() == old(self).failure(),
                Err(e) => final(self).failure() == Some(e),
            },
    {
        if let Err(e) = outcome {
            self.failure = Some(e);
        }
        self.step = TxStep::Finish;
        self.step
    }

    /// The outcome of a finished run: the actions' results, or the error.
    pub fn into_result(self) -> (r: Result<Vec<R>, E>)
        requires
            self.wf(),
            self.spec_step() == TxStep::Finish,
        ensures
            match self.failure() {
                Some(e) => r == Err::<Vec<R>, E>(e),
                None => r matches Ok(v) && Some(v@) == self.values(),
            },
    {
        match self.failure {
            Some(e) => Err(e),
            None => Ok(self.values.unwrap()),
        }
    }
}

/// The results of the successful outcomes, in order.
pub open spec fn successes<R, E>(outcomes: Seq<Result<R, E>>) -> Seq<R>
    decreases outcomes.len(),
{
    if outcomes.len() == 0 {
        Seq::empty()
    } else {
        let earlier = successes(outcomes.drop_last());
        match outcomes.last() {
            Ok(v) => earlier.push(v),
            Err(_) => earlier,
        }
    }
}

/// The errors of the failed outcomes, in order.
pub open spec fn failures<R, E>(outcomes: Seq<Result<R, E>>) -> Seq<E>
    decreases outcomes.len(),
{
    if outcomes.len() == 0 {
        Seq::empty()
    } else {
        let earlier = failures(outcomes.drop_last());
        match outcomes.last() {
            Ok(_) => earlier,
            Err(e) => earlier.push(e),
        }
    }
}

/// Actions run one after another with one transaction, every one of them
/// whatever the others did.
///
/// When no action failed the transaction is committed and the outcome is the
/// results in order; otherwise it is rolled back and the outcome is every
/// error, in order.
pub struct TryRun<R, E> {
    total: usize,
    step: TxStep,
    results: Vec<R>,
    errors: Vec<E>,
    store_failure: Option<E>,
    outcomes: Ghost<Seq<Result<R, E>>>,
}

impl<R, E> TryRun<R, E> {
    /// The number of actions.
    pub closed spec fn total(&self) -> nat {
        self.total as nat
    }

    /// What the caller does next.
    pub closed spec fn spec_step(&self) -> TxStep {
        self.step
    }

    /// The outcome of every action run so far, in order.
    pub closed spec fn outcomes(&self) -> Seq<Result<R, E>> {
        self.outcomes@
    }

    /// The error of opening or committing the transaction, where that failed.
    pub closed spec fn store_failure(&self) -> Option<E> {
        self.store_failure
    }

    pub closed spec fn wf(&self) -> bool {
        &&& self.results@ == successes(self.outcomes@)
        &&& self.errors@ == failures(self.outcomes@)
        &&& match self.step {
            TxStep::Begin => self.outcomes@.len() == 0 && self.store_failure is None,
            TxStep::Run(i) => i < self.total && self.outcomes@.len() == i && self.store_failure is None,
            TxStep::Commit => {
                &&& self.outcomes@.len() == self.total
                &&& self.errors@.len() == 0
                &&& self.store_failure is None
            },
            TxStep::Rollback => {
                &&& self.outcomes@.len() == self.total
                &&& self.errors@.len() > 0
                &&& self.store_failure is None
            },
            TxStep::Finish => self.store_failure is None ==> self.outcomes@.len() == self.total,
            _ => false,
        }
    }

    /// A run of `total` actions whose transaction is yet to be opened.
    pub fn new(total: usize) -> (r: Self)
        ensures
            r.wf(),
            r.total() == total,
            r.spec_step() == TxStep::Begin,
            r.outcomes() == Seq::<Result<R, E>>::empty(),
    {
        TryRun {
            total,
            step: TxStep::Begin,
            results: Vec::new(),
            errors: Vec::new(),
            store_failure: None,
            outcomes: Ghost(Seq::empty()),
        }
    }

    /// What the caller does next.
    pub fn step(&self) -> (r: TxStep)
        ensures
            r == self.spec_step(),
    {
        self.step
    }

    /// Takes the outcome of opening the transaction.
    pub fn on_begin(&mut self, outcome: Result<(), E>) -> (r: TxStep)
        requires
            old(self).wf(),
            old(self).spec_step() == TxStep::Begin,
        ensures
            final(self).wf(),
            r == final(self).spec_step(),
            final(self).total() == old(self).total(),
            final(self).outcomes() == old(self).outcomes(),
            match outcome {
                Ok(()) => {
                    &&& final(self).store_failure() is None
                    &&& r == if old(self).total() == 0 {
                        TxStep::Commit
                    } else {
                        TxStep::Run(0)
                    }
                },
                Err(e) => r == TxStep::Finish && final(self).store_failure() == Some(e),
            },
    {
        match outcome {
            Ok(()) => {
                if self.total == 0 {
                    self.step = TxStep::Commit;
                } else {
                    self.step = TxStep::Run(0);
                }
            },
            Err(e) => {
                self.store_failure = Some(e);
                self.step = TxStep::Finish;
            },
        }
        self.step
    }

    /// Takes the outcome of the action the last step named. After the last
    /// action the transaction is committed where no action failed, and rolled
    /// back otherwise.
    pub fn on_action(&mut self, outcome: Result<R, E>) -> (r: TxStep)
        requires
            old(self).wf(),
            old(self).spec_step() is Run,
        ensures
            final(self).wf(),
            r == final(self).spec_step(),
            final(self).total() == old(self).total(),
            final(self).store_failure() is None,
            final(self).outcomes() == old(self).outcomes().push(outcome),
            r == if old(self).spec_step()->Run_0 + 1 < old(self).total() {
                TxStep::Run((old(self).spec_step()->Run_0 + 1) as usize)
            } else if failures(final(self).outcomes()).len() == 0 {
                TxStep::Commit
            } else {
                TxStep::Rollback
            },
    {
        let index = match self.step {
            TxStep::Run(i) => i,
            _ => 0,
        };
        let ghost before = self.outcomes@;
        self.outcomes = Ghost(self.outcomes@.push(outcome));
        assert(self.outcomes@.drop_last() =~= before);
        match outcome {
            Ok(v) => {
                self.results.push(v);
            },
            Err(e) => {
                self.errors.push(e);
            },
        }
        if index + 1 < self.total {
            self.step = TxStep::Run(index + 1);
        } else if self.errors.is_empty() {
            self.step = TxStep::Commit;
        } else {
            self.step = TxStep::Rollback;
        }
        self.step
    }

    /// Takes the outcome of the commit; a failed commit ends the run with its
    /// error.
    pub fn on_commit(&mut self, outcome: Result<(), E>) -> (r: TxStep)
        requires
            old(self).wf(),
            old(self).spec_step() == TxStep::Commit,
        ensures
            final(self).wf(),
            r == final(self).spec_step(),
            r == TxStep::Finish,
            final(self).total() == old(self).total(),
            final(self).outcomes() == old(self).outcomes(),
            match outcome {
                Ok(()) => final(self).store_failure() is None,
                Err(e) => final(self).store_failure() == Some(e),
            },
    {
        if let Err(e) = outcome {
            self.store_failure = Some(e);
        }
        self.step = TxStep::Finish;
        self.step
    }

    /// Takes the outcome of the rollback; the run ends with the actions'
    /// errors whatever the rollback reported.
    pub fn on_rollback(&mut self, outcome: Result<(), E>) -> (r: TxStep)
        requires
            old(self).wf(),
            old(self).spec_step() == TxStep::Rollback,
        ensures
            final(self).wf(),
            r == final(self).spec_step(),
            r == TxStep::Finish,
            final(self).total() == old(self).total(),
            final(self).outcomes() == old(self).outcomes(),
            final(self).store_failure() is None,
    {
        self.step = TxStep::Finish;
        self.step
    }

    /// The outcome of a finished run: every result in order where no action
    /// failed, else every error in order. A failure to open or commit the
    /// transaction is reported alone.
    pub fn into_result(self) -> (r: Result<Vec<R>, Vec<E>>)
        requires
            self.wf(),
            self.spec_step() == TxStep::Finish,
        ensures
            match self.store_failure() {
                Some(e) => r matches Err(errors) && errors@ == seq![e],
                None => if failures(self.outcomes()).len() == 0 {
                    r matches Ok(v) && v@ == successes(self.outcomes())
                } else {
                    r matches Err(errors) && errors@ == failures(self.outcomes())
                },
            },
    {
        match self.store_failure {
            Some(e) => {
                let errors = vec![e];
                assert(errors@ =~= seq![e]);
                Err(errors)
            },
            None => {
                if self.errors.is_empty() {
                    Ok(self.results)
                } else {
                    Err(self.errors)
                }
            },
        }
    }
}

} // verus!
