use vstd::prelude::*;

verus! {

broadcast use Seq::lemma_flatten_push;

/// What the caller of a per-item batched run does next.
#[derive(Clone, Copy, Debug, PartialEq, Eq, Structural)]
pub enum QueryStep {
    /// Read the next item from the source and report it with `on_item`.
    Pull,
    /// Open a transaction and report with `on_begin`.
    Begin,
    /// Run the query of the batch's item at this index inside the open
    /// transaction and report with `on_executed`.
    Execute(usize),
    /// Commit the open transaction and report with `on_commit`.
    Commit,
    /// Roll the open transaction back and report with `on_rollback`.
    Rollback,
    /// The run is over: `into_result` gives its outcome.
    Finish,
}

/// The decisions of the per-item batched mode.
///
/// Items are read from the source one at a time into a batch. Once the batch
/// holds `capacity` items, or the source is exhausted with items in the batch,
/// one transaction is opened, the query of every item of the batch is run in
/// it in order, and it is committed. The first failure ends the run: a failed
/// query rolls its batch back, and nothing more is read from the source.
/// Batches committed before stay committed.
pub struct QueryBatchRun<T, E> {
    capacity: usize,
    batch: Vec<T>,
    step: QueryStep,
    exhausted: bool,
    failure: Option<E>,
    consumed: Ghost<Seq<T>>,
    committed: Ghost<Seq<Seq<T>>>,
}

impl<T, E> QueryBatchRun<T, E> {
    /// The number of items in a full batch.
    pub closed spec fn spec_capacity(&self) -> nat {
        self.capacity as nat
    }

    /// The items of the batch being gathered or run.
    pub closed spec fn batch(&self) -> Seq<T> {
        self.batch@
    }

    /// What the caller does next.
    pub closed spec fn spec_step(&self) -> QueryStep {
        self.step
    }

    /// Whether the source reported that it holds no more items.
    pub closed spec fn exhausted(&self) -> bool {
        self.exhausted
    }

    /// The error the run ends with, once one occurred.
    pub closed spec fn failure(&self) -> Option<E> {
        self.failure
    }

    /// Every item read from the source, in order.
    pub closed spec fn consumed(&self) -> Seq<T> {
        self.consumed@
    }

    /// The batches whose transaction was committed, in order.
    pub closed spec fn committed(&self) -> Seq<Seq<T>> {
        self.committed@
    }

    pub closed spec fn wf(&self) -> bool {
        let cap = self.capacity as nat;
        let committed = self.committed@;
        &&& cap > 0
        &&& self.consumed@ == committed.flatten() + self.batch@
        &&& self.batch@.len() <= cap
        &&& forall|i: int| 0 <= i < committed.len() ==> 0 < (#[trigger] committed[i]).len() <= cap
        &&& forall|i: int| 0 <= i < committed.len() - 1 ==> (#[trigger] committed[i]).len() == cap
        &&& committed.len() > 0 && committed.last().len() < cap ==> self.exhausted
            && self.batch@.len() == 0
        &&& match self.step {
            QueryStep::Pull => self.batch@.len() < cap && !self.exhausted && self.failure is None,
            QueryStep::Begin | QueryStep::Commit => self.batch_ready(),
            QueryStep::Execute(i) => self.batch_ready() && i < self.batch@.len(),
            QueryStep::Rollback => self.failure is Some && self.batch@.len() > 0,
            QueryStep::Finish => self.failure is None ==> self.exhausted && self.batch@.len()
                == 0,
        }
    }

    /// The batch is due to run: it is full, or it holds the source's last items.
    closed spec fn batch_ready(&self) -> bool {
        &&& self.batch@.len() > 0
        &&& self.batch@.len() == self.capacity || self.exhausted
        &&& self.failure is None
    }

    /// A run that has read nothing yet, with batches of `capacity` items.
    pub fn new(capacity: usize) -> (r: Self)
        requires
            capacity > 0,
        ensures
            r.wf(),
            r.spec_capacity() == capacity,
            r.spec_step() == QueryStep::Pull,
            r.batch() == Seq::<T>::empty(),
            !r.exhausted(),
            r.failure() is None,
            r.consumed() == Seq::<T>::empty(),
            r.committed() == Seq::<Seq<T>>::empty(),
    {
        let r = QueryBatchRun {
            capacity,
            batch: Vec::with_capacity(capacity),
            step: QueryStep::Pull,
            exhausted: false,
            failure: None,
            consumed: Ghost(Seq::empty()),
            committed: Ghost(Seq::empty()),
        };
        assert(r.consumed@ =~= r.committed@.flatten() + r.batch@);
        r
    }

    /// What the caller does next.
    pub fn step(&self) -> (r: QueryStep)
        ensures
            r == self.spec_step(),
    {
        self.step
    }

    /// The item of the batch at `index`.
    pub fn batch_item(&self, index: usize) -> (r: &T)
        requires
            index < self.batch().len(),
        ensures
            *r == self.batch()[index as int],
    {
        &self.batch[index]
    }

    /// Takes the next item of the source, or `None` where it holds no more.
    pub fn on_item(&mut self, item: Option<T>) -> (r: QueryStep)
        requires
            old(self).wf(),
            old(self).spec_step() == QueryStep::Pull,
        ensures
            final(self).wf(),
            r == final(self).spec_step(),
            final(self).spec_capacity() == old(self).spec_capacity(),
            final(self).committed() == old(self).committed(),
            final(self).failure() is None,
            match item {
                Some(x) => {
                    &&& final(self).consumed() == old(self).consumed().push(x)
                    &&& final(self).batch() == old(self).batch().push(x)
                    &&& !final(self).exhausted()
                    &&& r == if final(self).batch().len() == old(self).spec_capacity() {
                        QueryStep::Begin
                    } else {
                        QueryStep::Pull
                    }
                },
                None => {
                    &&& final(self).consumed() == old(self).consumed()
                    &&& final(self).batch() == old(self).batch()
                    &&& final(self).exhausted()
                    &&& r == if old(self).batch().len() == 0 {
                        QueryStep::Finish
                    } else {
                        QueryStep::Begin
                    }
                },
            },
    {
        match item {
            Some(x) => {
                self.batch.push(x);
                self.consumed = Ghost(self.consumed@.push(x));
                assert(self.consumed@ =~= self.committed@.flatten() + self.batch@);
                if self.batch.len() == self.capacity {
                    self.step = QueryStep::Begin;
                }
            },
            None => {
                self.exhausted = true;
                if self.batch.len() == 0 {
                    self.step = QueryStep::Finish;
                } else {
                    self.step = QueryStep::Begin;
                }
            },
        }
        self.step
    }

    /// Takes the outcome of opening the transaction for the batch.
    pub fn on_begin(&mut self, outcome: Result<(), E>) -> (r: QueryStep)
        requires
            old(self).wf(),
            old(self).spec_step() == QueryStep::Begin,
        ensures
            final(self).wf(),
            r == final(self).spec_step(),
            final(self).spec_capacity() == old(self).spec_capacity(),
            final(self).consumed() == old(self).consumed(),
            final(self).committed() == old(self).committed(),
            final(self).batch() == old(self).batch(),
            match outcome {
                Ok(()) => r == QueryStep::Execute(0) && final(self).failure() is None,
                Err(e) => r == QueryStep::Finish && final(self).failure() == Some(e),
            },
    {
        match outcome {
            Ok(()) => {
                self.step = QueryStep::Execute(0);
            },
            Err(e) => {
                self.failure = Some(e);
                self.step = QueryStep::Finish;
            },
        }
        self.step
    }

    /// Takes the outcome of the query of the batch's item the last step named.
    pub fn on_executed(&mut self, outcome: Result<(), E>) -> (r: QueryStep)
        requires
            old(self).wf(),
            old(self).spec_step() is Execute,
        ensures
            final(self).wf(),
            r == final(self).spec_step(),
            final(self).spec_capacity() == old(self).spec_capacity(),
            final(self).consumed() == old(self).consumed(),
            final(self).committed() == old(self).committed(),
            final(self).batch() == old(self).batch(),
            match outcome {
                Ok(()) => {
                    &&& final(self).failure() is None
                    &&& r == if old(self).spec_step()->Execute_0 + 1 < old(self).batch().len() {
                        QueryStep::Execute((old(self).spec_step()->Execute_0 + 1) as usize)
                    } else {
                        QueryStep::Commit
                    }
                },
                Err(e) => r == QueryStep::Rollback && final(self).failure() == Some(e),
            },
    {
        let index = match self.step {
            QueryStep::Execute(i) => i,
            _ => 0,
        };
        match outcome {
            Ok(()) => {
                if index + 1 < self.batch.len() {
                    self.step = QueryStep::Execute(index + 1);
                } else {
                    self.step = QueryStep::Commit;
                }
            },
            Err(e) => {
                self.failure = Some(e);
                self.step = QueryStep::Rollback;
            },
        }
        self.step
    }

    /// Takes the outcome of committing the batch's transaction.
    pub fn on_commit(&mut self, outcome: Result<(), E>) -> (r: QueryStep)
        requires
            old(self).wf(),
            old(self).spec_step() == QueryStep::Commit,
        ensures
            final(self).wf(),
            r == final(self).spec_step(),
            final(self).spec_capacity() == old(self).spec_capacity(),
            final(self).consumed() == old(self).consumed(),
            match outcome {
                Ok(()) => {
                    &&& final(self).committed() == old(self).committed().push(old(self).batch())
                    &&& final(self).batch() == Seq::<T>::empty()
                    &&& final(self).failure() is None
                    &&& r == if old(self).exhausted() {
                        QueryStep::Finish
                    } else {
                        QueryStep::Pull
                    }
                },
                Err(e) => {
                    &&& final(self).committed() == old(self).committed()
                    &&& final(self).batch() == old(self).batch()
                    &&& r == QueryStep::Finish
                    &&& final(self).failure() == Some(e)
                },
            },
    {
        match outcome {
            Ok(()) => {
                let mut done = Vec::new();
                std::mem::swap(&mut self.batch, &mut done);
                let ghost before = self.committed@;
                self.committed = Ghost(self.committed@.push(done@));
                assert(self.consumed@ =~= self.committed@.flatten() + self.batch@);
                assert forall|i: int| 0 <= i < self.committed@.len() - 1 implies
                    (#[trigger] self.committed@[i]).len() == self.capacity by {
                    assert(self.committed@[i] == before[i]);
                }
                if self.exhausted {
                    self.step = QueryStep::Finish;
                } else {
                    self.step = QueryStep::Pull;
                }
            },
            Err(e) => {
                self.failure = Some(e);
                self.step = QueryStep::Finish;
            },
        }
        self.step
    }

    /// Takes the outcome of rolling the failed batch back; the run ends with
    /// the query's error whatever the rollback reported.
    pub fn on_rollback(&mut self, outcome: Result<(), E>) -> (r: QueryStep)
        requires
            old(self).wf(),
            old(self).spec_step() == QueryStep::Rollback,
        ensures
            final(self).wf(),
            r == final(self).spec_step(),
            r == QueryStep::Finish,
            final(self).spec_capacity() == old(self).spec_capacity(),
            final(self).consumed() == old(self).consumed(),
            final(self).committed() == old(self).committed(),
            final(self).batch() == old(self).batch(),
            final(self).failure() == old(self).failure(),
    {
        self.step = QueryStep::Finish;
        self.step
    }

    /// The outcome of a finished run.
    pub fn into_result(self) -> (r: Result<(), E>)
        requires
            self.wf(),
            self.spec_step() == QueryStep::Finish,
        ensures
            r == match self.failure() {
                Some(e) => Err(e),
                None => Ok::<(), E>(()),
            },
    {
        match self.failure {
            Some(e) => Err(e),
            None => Ok(()),
        }
    }

    /// A run that ended without error read the whole source and committed it
    /// in batches, each in a transaction of its own: for `L` items and a
    /// capacity of `N`, `ceil(L / N)` batches of exactly `N` items, but for the
    /// last, which holds `L mod N` items, or `N` where `N` divides `L`.
    pub proof fn lemma_finished_run_is_batched(&self)
        requires
            self.wf(),
            self.spec_step() == QueryStep::Finish,
            self.failure() is None,
        ensures
            self.exhausted(),
            crate::batch::is_batching(self.committed(), self.consumed(), self.spec_capacity()),
            self.committed().len() == (self.consumed().len() + self.spec_capacity() - 1)
                / self.spec_capacity() as int,
            self.consumed().len() > 0 ==> self.committed().last().len()
                == crate::batch::last_batch_len(self.consumed().len(), self.spec_capacity()),
    {
        assert(self.consumed@ =~= self.committed@.flatten());
        crate::batch::lemma_batch_sizes(self.committed(), self.consumed(), self.spec_capacity());
    }

    /// A run that failed read no item beyond the batch it failed on, and every
    /// batch committed before that one is full.
    pub proof fn lemma_failed_run_read_no_further(&self)
        requires
            self.wf(),
            self.spec_step() == QueryStep::Finish,
            self.failure() is Some,
        ensures
            self.consumed() == self.committed().flatten() + self.batch(),
            self.batch().len() <= self.spec_capacity(),
            self.batch().len() > 0 ==> forall|i: int|
                0 <= i < self.committed().len() ==> (#[trigger] self.committed()[i]).len()
                    == self.spec_capacity(),
    {
    }
}

} // verus!
