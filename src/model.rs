use vstd::prelude::*;

verus! {

/// A domain entity stored by a repository.
///
/// A model without an identity has not been persisted yet. Outside verified
/// code `has_identity` is an ordinary method, which must agree with `get_id`.
pub trait Model: Send + Sync {
    /// The type of the model's identity.
    type Id: Send;

    /// Whether the model carries its identity.
    spec fn has_identity(&self) -> bool;

    /// The model's identity, where it has one.
    fn get_id(&self) -> (r: Option<Self::Id>)
        ensures
            r is Some <==> self.has_identity(),
    ;

    /// Whether the model carries its identity.
    fn has_id(&self) -> (r: bool)
        ensures
            r == self.has_identity(),
    {
        self.get_id().is_some()
    }
}

/// A list of models has an identity: the list of its models' identities.
impl<M: Model> Model for Vec<M> {
    type Id = Vec<Option<M::Id>>;

    open spec fn has_identity(&self) -> bool {
        true
    }

    fn get_id(&self) -> (r: Option<Vec<Option<M::Id>>>)
        ensures
            r matches Some(ids) && ids@.len() == self@.len() && forall|i: int|
                0 <= i < self@.len() ==> (ids@[i] is Some <==> (#[trigger] self@[i]).has_identity()),
    {
        let mut ids: Vec<Option<M::Id>> = Vec::new();
        let mut i: usize = 0;
        while i < self.len()
            invariant
                i <= self@.len(),
                ids@.len() == i,
                forall|j: int| 0 <= j < i ==> (ids@[j] is Some <==> (#[trigger] self@[j]).has_identity()),
            decreases self@.len() - i,
        {
            ids.push(self[i].get_id());
            i = i + 1;
        }
        Some(ids)
    }
}

/// An absent model has no identity.
impl<M: Model> Model for Option<M> {
    type Id = M::Id;

    open spec fn has_identity(&self) -> bool {
        match self {
            Some(m) => m.has_identity(),
            None => false,
        }
    }

    fn get_id(&self) -> (r: Option<M::Id>) {
        match self {
            Some(m) => m.get_id(),
            None => None,
        }
    }
}

/// A failed lookup has no identity.
impl<M: Model, E: Send + Sync> Model for Result<M, E> {
    type Id = M::Id;

    open spec fn has_identity(&self) -> bool {
        match self {
            Ok(m) => m.has_identity(),
            Err(_) => false,
        }
    }

    fn get_id(&self) -> (r: Option<M::Id>) {
        match self {
            Ok(m) => m.get_id(),
            Err(_) => None,
        }
    }
}

} // verus!
