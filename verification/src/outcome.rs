//! Mathematical content of an outcome that is reported as a `Result` or an
//! `Option`.

use vstd::prelude::*;

verus! {

/// The outcome with its success or its failure taken by its view.
pub open spec fn result_view<T: View, E: View>(outcome: Result<T, E>) -> Result<T::V, E::V> {
    match outcome {
        Ok(value) => Ok(value@),
        Err(failure) => Err(failure@),
    }
}

/// The optional value taken by its view.
pub open spec fn option_view<T: View>(value: Option<T>) -> Option<T::V> {
    match value {
        Some(value) => Some(value@),
        None => None,
    }
}

} // verus!
