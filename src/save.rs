use crate::model::Model;
use vstd::prelude::*;

verus! {

broadcast use {Seq::lemma_filter_push, vstd::seq_lib::group_to_multiset_ensures};

/// The write that saves a model.
#[derive(Clone, Copy, Debug, PartialEq, Eq, Structural)]
pub enum SaveRoute {
    /// The model is new: insert it.
    Insert,
    /// The model has been persisted: update it.
    Update,
}

/// The write that saves `model`: an insert where it has no identity yet, an
/// update otherwise.
pub fn save_route<M: Model>(model: &M) -> (r: SaveRoute)
    ensures
        r == (if model.has_identity() {
            SaveRoute::Update
        } else {
            SaveRoute::Insert
        }),
{
    if model.get_id().is_none() {
        SaveRoute::Insert
    } else {
        SaveRoute::Update
    }
}

/// The models of `batch` that have no identity yet, in order.
pub open spec fn new_models<M: Model>(batch: Seq<M>) -> Seq<M> {
    batch.filter(|m: M| !m.has_identity())
}

/// The models of `batch` that have been persisted, in order.
pub open spec fn persisted_models<M: Model>(batch: Seq<M>) -> Seq<M> {
    batch.filter(|m: M| m.has_identity())
}

/// Which writes a batch save runs.
#[derive(Clone, Copy, Debug, PartialEq, Eq, Structural)]
pub enum SaveDispatch {
    /// Inserts and updates, at once.
    Both,
    /// Inserts only.
    InsertOnly,
    /// Updates only.
    UpdateOnly,
    /// Nothing at all.
    Nothing,
}

/// A batch of models split by the write that saves each.
pub struct SavePlan<M> {
    /// The models to insert, in their order in the batch.
    pub inserts: Vec<M>,
    /// The models to update, in their order in the batch.
    pub updates: Vec<M>,
}

impl<M> SavePlan<M> {
    /// Which writes the plan runs: both where both sets hold models, only
    /// the one that does otherwise, none for an empty plan.
    pub fn dispatch(&self) -> (r: SaveDispatch)
        ensures
            r == match (self.inserts@.len() > 0, self.updates@.len() > 0) {
                (true, true) => SaveDispatch::Both,
                (true, false) => SaveDispatch::InsertOnly,
                (false, true) => SaveDispatch::UpdateOnly,
                (false, false) => SaveDispatch::Nothing,
            },
    {
        match (self.inserts.is_empty(), self.updates.is_empty()) {
            (false, false) => SaveDispatch::Both,
            (false, true) => SaveDispatch::InsertOnly,
            (true, false) => SaveDispatch::UpdateOnly,
            (true, true) => SaveDispatch::Nothing,
        }
    }
}

/// Splits `batch` into the models to insert and the models to update.
///
/// Each model lands in exactly one of the two, by whether it has an identity;
/// both keep the batch's order.
pub fn plan_save<M: Model>(batch: Vec<M>) -> (r: SavePlan<M>)
    ensures
        r.inserts@ == new_models(batch@),
        r.updates@ == persisted_models(batch@),
        r.inserts@.to_multiset().add(r.updates@.to_multiset()) == batch@.to_multiset(),
{
    let ghost items = batch@;
    let mut inserts: Vec<M> = Vec::new();
    let mut updates: Vec<M> = Vec::new();
    assert(items.take(0).to_multiset() =~= vstd::multiset::Multiset::empty());
    for m in iter: batch.into_iter()
        invariant
            iter.seq() == items,
            inserts@ == new_models(items.take(iter.index() as int)),
            updates@ == persisted_models(items.take(iter.index() as int)),
            inserts@.to_multiset().add(updates@.to_multiset()) == items.take(
                iter.index() as int,
            ).to_multiset(),
    {
        let ghost done = items.take(iter.index() as int);
        assert(items.take(iter.index() + 1) =~= done.push(m));
        if m.has_id() {
            updates.push(m);
        } else {
            inserts.push(m);
        }
        assert(inserts@.to_multiset().add(updates@.to_multiset()) =~= done.to_multiset().insert(m));
    }
    assert(items.take(items.len() as int) =~= items);
    SavePlan { inserts, updates }
}

} // verus!
