//! The identifier of an error's class, as monitoring and clients read it.

use vstd::prelude::*;

verus! {

/// The class of an error.
///
/// Two codes are equal exactly when they name the same class. The class of
/// storage failures carries no number and so differs from every code that an
/// evaluation failure can have, whatever number a caller supplies.
#[derive(Clone, Copy, Debug, PartialEq, Eq, Hash, Structural)]
pub enum ErrorCode {
    /// The single class of all failures that come from the storage layer.
    Storage,
    /// The class of an evaluation failure, with its numeric code.
    Evaluate(i32),
}

} // verus!
