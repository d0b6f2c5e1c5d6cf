//! Error types for API endpoint requests: a response with an unexpected
//! status, and a response body that failed to deserialize.

use vstd::prelude::*;

use crate::statuscode::HttpStatus;

verus! {

/// The error type of `serde_json`, from that crate.
#[verifier::external_type_specification]
#[verifier::external_body]
pub struct ExJsonError(serde_json::Error);

/// A deserializer error together with the path at which it occurred, from
/// the `serde_path_to_error` crate.
#[verifier::external_type_specification]
#[verifier::external_body]
#[verifier::reject_recursive_types(E)]
pub struct ExPathError<E>(serde_path_to_error::Error<E>);

/// The path of the value that failed to deserialize, from the
/// `serde_path_to_error` crate.
#[verifier::external_type_specification]
#[verifier::external_body]
pub struct ExPath(serde_path_to_error::Path);

/// Relies on `serde_path_to_error::Error::path`: the element path at which
/// the deserialization error occurred.
pub assume_specification<'a, E>[ serde_path_to_error::Error::<E>::path ](
    error: &'a serde_path_to_error::Error<E>,
) -> &'a serde_path_to_error::Path;

/// Relies on `serde_path_to_error::Error::inner`: the underlying
/// deserializer error.
pub assume_specification<'a, E>[ serde_path_to_error::Error::<E>::inner ](
    error: &'a serde_path_to_error::Error<E>,
) -> &'a E;

/// Relies on `serde_path_to_error::Error::into_inner`: consumes the error,
/// taking the underlying deserializer error out.
pub assume_specification<E>[ serde_path_to_error::Error::<E>::into_inner ](
    error: serde_path_to_error::Error<E>,
) -> E;

/// Error type used if an API request received a successful response, but the
/// body bytes failed to deserialize into the expected strong type. This
/// contains the original bytes that failed to deserialize, for debugging
/// purposes.
#[derive(Debug)]
pub struct DeserializeError {
    uri: url::Url,
    bytes: Vec<u8>,
    inner: serde_path_to_error::Error<serde_json::Error>,
}

/// A request to a URI that was expected to return successfully with 200
/// OK has failed to do so. This contains the status code that was received
/// instead, and the bytes in the body of the response.
#[derive(Debug)]
pub struct ResponseError {
    uri: url::Url,
    bytes: Vec<u8>,
    status: HttpStatus,
}

impl DeserializeError {
    /// Builds the error from the request's URI, the response's body bytes,
    /// and the deserializer error those bytes produced.
    pub fn __new(
        uri: url::Url,
        bytes: Vec<u8>,
        error: serde_path_to_error::Error<serde_json::Error>,
    ) -> (r: Self)
        ensures
            r.bytes_spec() == bytes@,
    {
        Self { uri, bytes, inner: error }
    }

    /// The body bytes of the response.
    pub closed spec fn bytes_spec(&self) -> Seq<u8> {
        self.bytes@
    }

    /// Reference to the URI of the request.
    pub fn uri(&self) -> &url::Url {
        &self.uri
    }

    /// Reference to the body bytes of the response.
    pub fn bytes(&self) -> (r: &[u8])
        ensures
            r@ == self.bytes_spec(),
    {
        self.bytes.as_slice()
    }

    /// Consume this error, taking out the URI of the request.
    pub fn into_uri(self) -> url::Url {
        self.uri
    }

    /// Consume this error, taking out the body bytes of the response.
    pub fn into_bytes(self) -> (r: Vec<u8>)
        ensures
            r@ == self.bytes_spec(),
    {
        self.bytes
    }

    /// Consume this error, taking out both the URI of the request, and the
    /// body bytes of the response.
    pub fn into_uri_bytes(self) -> (r: (url::Url, Vec<u8>))
        ensures
            r.1@ == self.bytes_spec(),
    {
        (self.uri, self.bytes)
    }

    /// Reference to the path of the value that failed to deserialize.
    pub fn path(&self) -> &serde_path_to_error::Path {
        self.inner.path()
    }

    /// Reference to the original `serde_json` error.
    pub fn inner(&self) -> &serde_json::Error {
        self.inner.inner()
    }

    /// Consume this error, taking out the original `serde_json` error.
    pub fn into_inner(self) -> serde_json::Error {
        self.inner.into_inner()
    }
}

impl ResponseError {
    /// Builds the error from the request's URI and the response's status
    /// and body bytes.
    pub fn __new(uri: url::Url, bytes: Vec<u8>, status: HttpStatus) -> (r: Self)
        ensures
            r.bytes_spec() == bytes@,
            r.status_spec() == status,
    {
        Self { uri, bytes, status }
    }

    /// The body bytes of the response.
    pub closed spec fn bytes_spec(&self) -> Seq<u8> {
        self.bytes@
    }

    /// The status code of the response.
    pub closed spec fn status_spec(&self) -> HttpStatus {
        self.status
    }

    /// Reference to the URI of the request.
    pub fn uri(&self) -> &url::Url {
        &self.uri
    }

    /// Reference to the body bytes of the response.
    pub fn bytes(&self) -> (r: &[u8])
        ensures
            r@ == self.bytes_spec(),
    {
        self.bytes.as_slice()
    }

    /// Consume this error, taking out the URI of the request.
    pub fn into_uri(self) -> url::Url {
        self.uri
    }

    /// Consume this error, taking out the body bytes of the response.
    pub fn into_bytes(self) -> (r: Vec<u8>)
        ensures
            r@ == self.bytes_spec(),
    {
        self.bytes
    }

    /// Consume this error, taking out both the URI of the request, and the
    /// body bytes of the response.
    pub fn into_uri_bytes(self) -> (r: (url::Url, Vec<u8>))
        ensures
            r.1@ == self.bytes_spec(),
    {
        (self.uri, self.bytes)
    }

    /// Copy of the response's status code.
    pub fn status_code(&self) -> (r: HttpStatus)
        ensures
            r == self.status_spec(),
    {
        self.status
    }
}

/// Classifies a completed exchange by its status: only a response with
/// status 200 OK carries bytes worth deserializing; any other status is a
/// [`ResponseError`] holding the URI, the status, and the body bytes.
pub fn classify_status(uri: url::Url, status: HttpStatus, bytes: Vec<u8>) -> (r: Result<
    Vec<u8>,
    ResponseError,
>)
    ensures
        r is Ok <==> status.code_spec() == 200,
        r is Ok ==> r->Ok_0@ == bytes@,
        r matches Err(e) ==> e.status_spec() == status && e.bytes_spec() == bytes@,
{
    if status.code() == 200 {
        Ok(bytes)
    } else {
        Err(ResponseError::__new(uri, bytes, status))
    }
}

} // verus!
