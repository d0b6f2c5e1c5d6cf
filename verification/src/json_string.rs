//! Wrapper marking a value that travels as a JSON-encoded string field.
//!
//! A `JsonString<T>` stands for a `T` that is serialized not as its own JSON
//! shape but as a single string holding that JSON. The encoding itself is
//! the concern of the serialization layer around this library; here the
//! wrapper only carries the value.

use vstd::prelude::*;

verus! {

/// A value that is de/serialized as a JSON-encoded string.
#[derive(Debug, Clone, PartialEq)]
pub struct JsonString<T>(pub T);

impl<T> JsonString<T> {
    /// Wraps a value.
    pub fn new(value: T) -> (r: Self)
        ensures
            r.value_spec() == value,
    {
        JsonString(value)
    }

    /// The wrapped value.
    pub open spec fn value_spec(&self) -> T {
        self.0
    }

    /// Borrow the wrapped value.
    pub fn value(&self) -> (r: &T)
        ensures
            *r == self.value_spec(),
    {
        &self.0
    }

    /// Take the wrapped value out.
    pub fn into_inner(self) -> (r: T)
        ensures
            r == self.value_spec(),
    {
        self.0
    }
}

} // verus!
