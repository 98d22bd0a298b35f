//! The ways an operation on a counter record can fail.

use vstd::prelude::*;

verus! {

/// Why an operation was refused. A refused operation changes nothing, and
/// the kind is all that is reported.
#[derive(Clone, Copy, Debug, PartialEq, Eq, Structural)]
pub enum CounterError {
    /// The counter is at the top of its range and cannot go up.
    ArithmeticOverflow,
    /// The counter is at zero and cannot go down.
    ArithmeticUnderflow,
    /// Storage for a new record could not be allocated.
    AllocationError,
    /// The identity that asks is not the one that funded the record.
    AuthorizationError,
}

} // verus!
