//! The one way in which an operation can fail.

use vstd::prelude::*;

verus! {

/// Why an operation was not applied.
#[derive(Clone, Copy, Debug, PartialEq, Eq)]
pub enum Error {
    /// The sum does not fit into 32 signed bits.
    Overflow,
}

} // verus!
