//! Operator traits backed by the hardware math coprocessor.

use vstd::prelude::*;

verus! {

/// The hardware accelerated division operator `/`. Dividers that route
/// through the math coprocessor implement this in place of the plain
/// operator.
pub trait Div<Rhs = Self> {
    /// The resulting type after applying the `/` operator.
    type Output;

    /// Performs the `/` operation.
    fn div(self, rhs: Rhs) -> Self::Output;
}

} // verus!
