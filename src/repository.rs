use crate::error::Error;
use crate::filter::SqlFilter;
use crate::model::Model;
use vstd::prelude::*;

verus! {

/// Binds the capabilities for a model to the connection pool of a store.
pub trait Repository<M: Model> {
    /// The store's connection pool.
    type Pool;

    /// The pool that the repository's statements run against.
    fn pool(&self) -> &Self::Pool;
}

/// Decides whether a bulk delete may run with `filter`.
///
/// A filter with nothing to apply would turn the delete into one of the whole
/// table, so it is refused before any statement is built.
pub fn check_delete_filter<F: SqlFilter>(filter: &F) -> (r: Result<(), Error>)
    ensures
        r == (if filter.applies() {
            Ok(())
        } else {
            Err(Error::FilterRejected)
        }),
{
    if filter.should_apply_filter() {
        Ok(())
    } else {
        Err(Error::FilterRejected)
    }
}

} // verus!
