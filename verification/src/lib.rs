//! Utilities for building web API client libraries: a verified pagination
//! engine that turns a page-fetching capability into a pull-based sequence
//! of items, together with the supporting response, status-code, request
//! and string-encoding helpers.

pub mod base62;
pub mod client;
pub mod errors;
pub mod json_string;
pub mod paginator;
pub mod request;
pub mod response;
pub mod statuscode;
pub mod urls;

use vstd::prelude::*;

verus! {

/// Relies on `String::push`: appends exactly the one character.
#[verifier::external_body]
pub(crate) fn push_char(s: &mut String, c: char)
    ensures
        final(s)@ == old(s)@ + seq![c],
{
    s.push(c)
}

} // verus!
