use vstd::arithmetic::div_mod::lemma_fundamental_div_mod_converse;
use vstd::prelude::*;

verus! {

broadcast use Seq::lemma_flatten_push;

/// `batches` cuts `items`, in order, into groups of exactly `n` items, but for
/// a last group that holds what remains (at least one item, at most `n`).
pub open spec fn is_batching<T>(batches: Seq<Seq<T>>, items: Seq<T>, n: nat) -> bool {
    &&& batches.flatten() == items
    &&& forall|i: int| 0 <= i < batches.len() - 1 ==> (#[trigger] batches[i]).len() == n
    &&& batches.len() > 0 ==> 0 < batches.last().len() <= n
}

/// The size of the last batch of `len` items cut into batches of `n`.
pub open spec fn last_batch_len(len: nat, n: nat) -> nat {
    if len % n == 0 {
        n
    } else {
        len % n
    }
}

proof fn lemma_flatten_full_len<T>(groups: Seq<Seq<T>>, n: nat)
    requires
        forall|i: int| 0 <= i < groups.len() ==> (#[trigger] groups[i]).len() == n,
    ensures
        groups.flatten().len() == groups.len() * n,
    decreases groups.len(),
{
    if groups.len() > 0 {
        let prefix = groups.drop_last();
        assert(prefix.push(groups.last()) =~= groups);
        lemma_flatten_full_len(prefix, n);
        assert(groups.len() * n == prefix.len() * n + n) by (nonlinear_arith)
            requires
                groups.len() == prefix.len() + 1,
        ;
    }
}

/// Cutting `L` items into batches of `N` gives `ceil(L / N)` batches, the last
/// of which holds `L mod N` items, or `N` where `N` divides `L`.
pub proof fn lemma_batch_sizes<T>(batches: Seq<Seq<T>>, items: Seq<T>, n: nat)
    requires
        n > 0,
        is_batching(batches, items, n),
    ensures
        batches.len() == (items.len() + n - 1) / n as int,
        items.len() > 0 ==> batches.last().len() == last_batch_len(items.len(), n),
        items.len() == 0 <==> batches.len() == 0,
{
    let k = batches.len();
    if k == 0 {
        lemma_fundamental_div_mod_converse(n - 1, n as int, 0, n - 1);
    } else {
        let prefix = batches.drop_last();
        let r = batches.last().len();
        assert(prefix.push(batches.last()) =~= batches);
        assert forall|i: int| 0 <= i < prefix.len() implies (#[trigger] prefix[i]).len() == n by {
            assert(prefix[i] == batches[i]);
        }
        lemma_flatten_full_len(prefix, n);
        assert(items.len() == (k - 1) * n + r);
        assert(items.len() + n - 1 == k * n + (r - 1)) by (nonlinear_arith)
            requires
                items.len() == (k - 1) * n + r,
        ;
        lemma_fundamental_div_mod_converse(items.len() + n - 1, n as int, k as int, r - 1);
        if r == n {
            assert(items.len() == k * n + 0) by (nonlinear_arith)
                requires
                    items.len() == (k - 1) * n + r,
                    r == n,
            ;
            lemma_fundamental_div_mod_converse(items.len() as int, n as int, k as int, 0);
        } else {
            lemma_fundamental_div_mod_converse(items.len() as int, n as int, k - 1, r as int);
        }
    }
}

/// Collects items into groups of a fixed capacity.
///
/// Every push that fills the buffer hands the full group out; what is left at
/// the end comes out of `flush`.
pub struct BatchOperator<T> {
    buffer: Vec<T>,
    capacity: usize,
    pushed: Ghost<Seq<T>>,
    emitted: Ghost<Seq<Seq<T>>>,
}

impl<T> BatchOperator<T> {
    /// The size of a full group.
    pub closed spec fn spec_capacity(&self) -> nat {
        self.capacity as nat
    }

    /// The items waiting for their group to fill.
    pub closed spec fn buffered(&self) -> Seq<T> {
        self.buffer@
    }

    /// Every item pushed so far, in order.
    pub closed spec fn pushed(&self) -> Seq<T> {
        self.pushed@
    }

    /// Every full group handed out so far, in order.
    pub closed spec fn emitted(&self) -> Seq<Seq<T>> {
        self.emitted@
    }

    pub closed spec fn wf(&self) -> bool {
        &&& self.capacity > 0
        &&& self.buffer@.len() < self.capacity
        &&& self.pushed@ == self.emitted@.flatten() + self.buffer@
        &&& forall|i: int|
            0 <= i < self.emitted@.len() ==> (#[trigger] self.emitted@[i]).len() == self.capacity
    }

    /// `next` is `prev` after pushing `item`, which handed out `full`: a full
    /// group where `item` filled the buffer, nothing otherwise.
    pub open spec fn push_step(prev: Self, item: T, next: Self, full: Option<Vec<T>>) -> bool {
        &&& next.wf()
        &&& next.spec_capacity() == prev.spec_capacity()
        &&& next.pushed() == prev.pushed().push(item)
        &&& prev.buffered().len() + 1 == prev.spec_capacity() ==> {
            &&& full matches Some(group)
            &&& group@ == prev.buffered().push(item)
            &&& next.emitted() == prev.emitted().push(group@)
            &&& next.buffered() == Seq::<T>::empty()
        }
        &&& prev.buffered().len() + 1 < prev.spec_capacity() ==> {
            &&& full is None
            &&& next.emitted() == prev.emitted()
            &&& next.buffered() == prev.buffered().push(item)
        }
    }

    /// An empty operator whose groups hold `capacity` items.
    pub fn new(capacity: usize) -> (r: Self)
        requires
            capacity > 0,
        ensures
            r.wf(),
            r.spec_capacity() == capacity,
            r.pushed() == Seq::<T>::empty(),
            r.emitted() == Seq::<Seq<T>>::empty(),
            r.buffered() == Seq::<T>::empty(),
    {
        let r = BatchOperator {
            buffer: Vec::with_capacity(capacity),
            capacity,
            pushed: Ghost(Seq::empty()),
            emitted: Ghost(Seq::empty()),
        };
        assert(r.emitted@.flatten() + r.buffer@ =~= Seq::<T>::empty());
        r
    }

    /// The size of a full group.
    pub fn capacity(&self) -> (r: usize)
        ensures
            r == self.spec_capacity(),
    {
        self.capacity
    }

    /// How many items wait for their group to fill.
    pub fn len(&self) -> (r: usize)
        ensures
            r == self.buffered().len(),
    {
        self.buffer.len()
    }

    /// Whether no item waits for its group to fill.
    pub fn is_empty(&self) -> (r: bool)
        ensures
            r == (self.buffered().len() == 0),
    {
        self.buffer.is_empty()
    }

    /// Adds `item`; where it fills the buffer, the full group is returned and
    /// the buffer starts over.
    pub fn push(&mut self, item: T) -> (full: Option<Vec<T>>)
        requires
            old(self).wf(),
        ensures
            Self::push_step(*old(self), item, *final(self), full),
    {
        self.buffer.push(item);
        self.pushed = Ghost(self.pushed@.push(item));
        assert(self.pushed@ =~= self.emitted@.flatten() + self.buffer@);
        if self.buffer.len() == self.capacity {
            let mut group = Vec::with_capacity(self.capacity);
            std::mem::swap(&mut self.buffer, &mut group);
            let ghost before = self.emitted@;
            self.emitted = Ghost(self.emitted@.push(group@));
            assert(before.push(group@).flatten() == before.flatten() + group@);
            assert(self.pushed@ =~= self.emitted@.flatten() + self.buffer@);
            Some(group)
        } else {
            None
        }
    }

    /// Ends the run: hands out what is left, if anything.
    ///
    /// The groups handed out by `push`, followed by the one returned here, cut
    /// every pushed item into batches of the capacity.
    pub fn flush(self) -> (rest: Option<Vec<T>>)
        requires
            self.wf(),
        ensures
            self.buffered().len() == 0 ==> rest is None,
            self.buffered().len() > 0 ==> (rest matches Some(group) && group@ == self.buffered()),
            is_batching(
                match rest {
                    Some(group) => self.emitted().push(group@),
                    None => self.emitted(),
                },
                self.pushed(),
                self.spec_capacity(),
            ),
    {
        let ghost emitted = self.emitted@;
        if self.buffer.is_empty() {
            assert(self.pushed@ =~= emitted.flatten());
            None
        } else {
            assert(emitted.push(self.buffer@).flatten() == emitted.flatten() + self.buffer@);
            assert forall|i: int| 0 <= i < emitted.push(self.buffer@).len() - 1 implies
                (#[trigger] emitted.push(self.buffer@)[i]).len() == self.capacity by {
                assert(emitted.push(self.buffer@)[i] == emitted[i]);
            }
            Some(self.buffer)
        }
    }
}

/// Collects items into two streams of groups of a fixed capacity; the caller
/// says for each item which stream it joins.
pub struct PartitionOperator<T> {
    first: BatchOperator<T>,
    second: BatchOperator<T>,
}

impl<T> PartitionOperator<T> {
    /// The stream of the items sent first.
    pub closed spec fn first(&self) -> BatchOperator<T> {
        self.first
    }

    /// The stream of the other items.
    pub closed spec fn second(&self) -> BatchOperator<T> {
        self.second
    }

    pub open spec fn wf(&self) -> bool {
        &&& self.first().wf()
        &&& self.second().wf()
        &&& self.first().spec_capacity() == self.second().spec_capacity()
    }

    /// Two empty streams whose groups hold `capacity` items.
    pub fn new(capacity: usize) -> (r: Self)
        requires
            capacity > 0,
        ensures
            r.wf(),
            r.first().spec_capacity() == capacity,
            r.first().pushed() == Seq::<T>::empty(),
            r.first().emitted() == Seq::<Seq<T>>::empty(),
            r.second().pushed() == Seq::<T>::empty(),
            r.second().emitted() == Seq::<Seq<T>>::empty(),
    {
        PartitionOperator { first: BatchOperator::new(capacity), second: BatchOperator::new(capacity) }
    }

    /// Adds `item` to the first stream where `to_first` holds, else to the
    /// second; where it fills that stream's buffer, the full group is returned.
    pub fn push(&mut self, item: T, to_first: bool) -> (full: Option<Vec<T>>)
        requires
            old(self).wf(),
        ensures
            final(self).wf(),
            to_first ==> BatchOperator::push_step(old(self).first(), item, final(self).first(), full)
                && final(self).second() == old(self).second(),
            !to_first ==> BatchOperator::push_step(old(self).second(), item, final(self).second(), full)
                && final(self).first() == old(self).first(),
    {
        if to_first {
            self.first.push(item)
        } else {
            self.second.push(item)
        }
    }

    /// Ends the run: hands out what is left of each stream, the first stream's
    /// rest first.
    pub fn flush(self) -> (rest: (Option<Vec<T>>, Option<Vec<T>>))
        requires
            self.wf(),
        ensures
            self.first().buffered().len() == 0 ==> rest.0 is None,
            self.first().buffered().len() > 0 ==> (rest.0 matches Some(group) && group@ == self.first().buffered()),
            self.second().buffered().len() == 0 ==> rest.1 is None,
            self.second().buffered().len() > 0 ==> (rest.1 matches Some(group) && group@ == self.second().buffered()),
            is_batching(
                match rest.0 {
                    Some(group) => self.first().emitted().push(group@),
                    None => self.first().emitted(),
                },
                self.first().pushed(),
                self.first().spec_capacity(),
            ),
            is_batching(
                match rest.1 {
                    Some(group) => self.second().emitted().push(group@),
                    None => self.second().emitted(),
                },
                self.second().pushed(),
                self.second().spec_capacity(),
            ),
    {
        let first = self.first.flush();
        let second = self.second.flush();
        (first, second)
    }
}

} // verus!
