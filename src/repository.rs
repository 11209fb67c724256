//! The decisions that every storage port makes the same way, whatever engine
//! stands behind it.
use vstd::prelude::*;

use crate::error::RepositoryError;

verus! {

/// The outcome of a delete that touched `rows_affected` rows: deleting what does not
/// exist is `NotFound`, never a silent success.
pub fn deletion_outcome(rows_affected: u64) -> (r: Result<(), RepositoryError>)
    ensures
        r is Ok <==> rows_affected > 0,
        r is Err ==> r == Err::<(), RepositoryError>(RepositoryError::NotFound),
{
    if rows_affected == 0 {
        Err(RepositoryError::NotFound)
    } else {
        Ok(())
    }
}

/// A lookup that must find its entity: an absent one is `NotFound`.
pub fn require_found<T>(found: Option<T>) -> (r: Result<T, RepositoryError>)
    ensures
        found matches Some(x) ==> r == Ok::<T, RepositoryError>(x),
        found is None ==> r == Err::<T, RepositoryError>(RepositoryError::NotFound),
{
    match found {
        Some(x) => Ok(x),
        None => Err(RepositoryError::NotFound),
    }
}

} // verus!
