//! The errors of the record-only trade store.

use vstd::prelude::*;

verus! {

/// Why an operation was refused.
#[derive(Clone, Copy, Debug, PartialEq, Eq, Structural)]
pub enum Error {
    /// Not enough balance is available to fulfil the request.
    InsufficientBalance,
}

} // verus!
