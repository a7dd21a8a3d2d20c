//! The container that carries a decoded body to a request handler.

use vstd::prelude::*;

verus! {

/// A successfully decoded request body.
///
/// The container adds no behaviour: it owns the value and hands it out by
/// shared reference, by exclusive reference, or whole.
pub struct Json<T>(pub T);

impl<T> View for Json<T> {
    type V = T;

    /// A container is the value that it holds.
    open spec fn view(&self) -> T {
        self.0
    }
}

impl<T> Json<T> {
    /// Gives up the container and returns the value it held.
    pub fn into_inner(self) -> (inner: T)
        ensures
            inner == self@,
    {
        self.0
    }
}

impl<T> std::ops::Deref for Json<T> {
    type Target = T;

    /// Read access to the value.
    fn deref(&self) -> (inner: &T)
        ensures
            *inner == self@,
    {
        &self.0
    }
}

impl<T> std::ops::DerefMut for Json<T> {
    /// Write access to the value: what the caller leaves behind the returned
    /// reference is what the container holds afterwards.
    fn deref_mut(&mut self) -> (inner: &mut T)
        ensures
            *inner == old(self)@,
            final(self)@ == *final(inner),
    {
        &mut self.0
    }
}

} // verus!
