//! A number carried as a GraphQL scalar.
use vstd::prelude::*;

verus! {

/// A number that the GraphQL schema carries as text.
#[derive(Debug, Clone, Default)]
pub struct IntScalar<T>(pub T);

impl<T> IntScalar<T> {
    pub fn get(&self) -> (r: &T)
        ensures
            *r == self.0,
    {
        &self.0
    }

    pub fn from(i: T) -> (r: Self)
        ensures
            r.0 == i,
    {
        Self(i)
    }
}

} // verus!
