//! Whether an asynchronous computation is done.

use vstd::prelude::*;

verus! {

/// The state of an asynchronous computation after a poll, as in `std::task::Poll`.
#[derive(Debug, PartialEq, Eq)]
pub enum Poll<T> {
    /// The computation is not done yet.
    Pending,
    /// The computation is done, with this result.
    Ready(T),
}

} // verus!
