//! How results are held against their models.

use vstd::prelude::*;

verus! {

/// Whether `result` is `expected`, each side taken by its model: a success
/// with the model of its value, a failure with the model of its error.
pub open spec fn agrees<T: DeepView, E: DeepView>(
    result: Result<T, E>,
    expected: Result<T::V, E::V>,
) -> bool {
    match result {
        Ok(value) => expected == Ok::<T::V, E::V>(value.deep_view()),
        Err(error) => expected == Err::<T::V, E::V>(error.deep_view()),
    }
}

} // verus!
