//! What an awaiting caller is given when it asks.

use vstd::prelude::*;

verus! {

/// The answer to a poll: the result, or the notice that it is not there yet.
#[derive(Debug)]
pub enum Poll<T> {
    /// The awaited result.
    Ready(T),
    /// Nothing yet: the caller is woken when there is.
    Pending,
}

} // verus!
