//! The two ways an operation of this layer can fail.

use vstd::prelude::*;

verus! {

/// Why an operation was refused. Neither failure is recovered from: the
/// caller decides whether to stop or to start the drawing session over.
#[derive(Clone, Copy, Debug, PartialEq, Eq, Structural)]
pub enum Error {
    /// The backend answered a creation call with the null handle. No wrapper
    /// is built around a null handle.
    NullHandle,
    /// The arguments do not stand in the relationship the operation needs,
    /// and no backend call was planned.
    PreconditionViolated,
}

} // verus!
