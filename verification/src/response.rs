//! Result type for successful API requests.

use vstd::prelude::*;

verus! {

/// Result of a successful API request returned from an endpoint function.
///
/// It contains the deserialized value of type `T` together with the original
/// body bytes of the response that the value was deserialized from.
#[derive(Debug, Clone, PartialEq)]
pub struct ApiResponse<T> {
    bytes: Vec<u8>,
    value: T,
}

impl<T> ApiResponse<T> {
    /// Pairs a response's body bytes with the value deserialized from them.
    pub fn __new(bytes: Vec<u8>, value: T) -> (r: Self)
        ensures
            r.bytes_spec() == bytes@,
            r.value_spec() == value,
    {
        Self { bytes, value }
    }

    /// The response's body bytes.
    pub closed spec fn bytes_spec(&self) -> Seq<u8> {
        self.bytes@
    }

    /// The value deserialized from the body bytes.
    pub closed spec fn value_spec(&self) -> T {
        self.value
    }

    /// Get an immutable borrow to the response's body bytes.
    pub fn bytes(&self) -> (r: &[u8])
        ensures
            r@ == self.bytes_spec(),
    {
        self.bytes.as_slice()
    }

    /// Get an immutable borrow to the value deserialized from bytes.
    pub fn value(&self) -> (r: &T)
        ensures
            *r == self.value_spec(),
    {
        &self.value
    }

    /// Take out the response's body bytes, discarding the deserialized data.
    pub fn into_bytes(self) -> (r: Vec<u8>)
        ensures
            r@ == self.bytes_spec(),
    {
        self.bytes
    }

    /// Take out the value deserialized from bytes, discarding those bytes.
    pub fn into_value(self) -> (r: T)
        ensures
            r == self.value_spec(),
    {
        self.value
    }

    /// Take out both the bytes and the deserialized value as a tuple.
    pub fn into_bytes_value(self) -> (r: (Vec<u8>, T))
        ensures
            r.0@ == self.bytes_spec(),
            r.1 == self.value_spec(),
    {
        (self.bytes, self.value)
    }
}

} // verus!
