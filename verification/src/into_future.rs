//! Turning a request into the future that sends it.

use std::future::Future;
use vstd::prelude::*;

verus! {

/// A value that can be turned into a future, such as a request that is ready
/// to be sent.
pub trait IntoFuture {
    /// The output that the future will produce on completion.
    type Output;

    /// Which kind of future this turns into.
    type Future: Future<Output = Self::Output>;

    /// Creates a future from a value.
    fn into_future(self) -> Self::Future;
}

} // verus!
