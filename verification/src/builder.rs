//! Builders of resource values.
use vstd::prelude::*;

verus! {

/// A trait for implementing a builder for any `Default` type.
pub trait JsonApiBuilder<T>: Sized where T: Default {
    fn new(model: T) -> Self;

    fn build(self) -> Result<T, String>;
}

/// A trait for setting a `JsonApiBuilder<Self>` on any type that implements `Default`.
pub trait ToBuilder where Self: Sized + Default {
    type Builder: JsonApiBuilder<Self>;
}

} // verus!
