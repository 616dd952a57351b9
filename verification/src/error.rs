//! What a resumer is told when the coroutine's body failed.

use vstd::prelude::*;

verus! {

/// A failure of the coroutine's body, as the resumer sees it. `P` is the
/// payload that the failure carried.
#[derive(Debug, PartialEq, Eq)]
pub enum Error<P> {
    /// The body failed earlier and its payload has been handed over already.
    Panicked,
    /// The body failed during this resume; carries the payload, once.
    Panicking(P),
}

impl<P> Error<P> {
    /// A short text for the failure.
    pub fn description(&self) -> (s: &'static str)
        ensures
            s@ == (if self is Panicking {
                "Panicking(..)"@
            } else {
                "Panicked"@
            }),
    {
        match self {
            Error::Panicking(_) => "Panicking(..)",
            Error::Panicked => "Panicked",
        }
    }
}

} // verus!
