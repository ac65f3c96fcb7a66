//! A holder for a boxed trait object.

use vstd::prelude::*;

verus! {

/// What holds a value, and nothing more. A struct that is generic in what it
/// holds keeps, for the verifier, the value that it was made of; a struct
/// with a trait object for a field does not. So the structs that wrap a
/// caller's decoder or rewriter hold it through this one.
pub struct Held<T> {
    /// The value held.
    pub inner: T,
}

impl<T> Held<T> {
    /// Holds `inner`.
    pub fn new(inner: T) -> (r: Held<T>)
        ensures
            r.inner == inner,
    {
        Held { inner }
    }
}

} // verus!
