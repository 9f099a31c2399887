//! Views of the results that validation hands back.

use vstd::prelude::*;

verus! {

/// What a result is, mathematically: the view of what it holds.
pub open spec fn outcome<T: View, E: View>(result: Result<T, E>) -> Result<T::V, E::V> {
    match result {
        Ok(value) => Ok(value@),
        Err(error) => Err(error@),
    }
}

/// What an optional value is, mathematically: the view of what it holds.
pub open spec fn perhaps<T: View>(option: Option<T>) -> Option<T::V> {
    match option {
        Some(value) => Some(value@),
        None => None,
    }
}

/// What a result with an optional value is, mathematically.
pub open spec fn outcome_perhaps<T: View, E: View>(result: Result<Option<T>, E>) -> Result<
    Option<T::V>,
    E::V,
> {
    match result {
        Ok(option) => Ok(perhaps(option)),
        Err(error) => Err(error@),
    }
}

} // verus!
