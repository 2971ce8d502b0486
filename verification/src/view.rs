//! Views through `Option` and `Result`.

use vstd::prelude::*;

verus! {

/// The view of what an `Option` holds.
pub open spec fn option_view<T: View>(value: Option<T>) -> Option<T::V> {
    match value {
        Some(inner) => Some(inner@),
        None => None,
    }
}

/// The view of what a `Result` holds on success; the error is kept as it is.
pub open spec fn result_view<T: View, E>(value: Result<T, E>) -> Result<T::V, E> {
    match value {
        Ok(inner) => Ok(inner@),
        Err(error) => Err(error),
    }
}

} // verus!
