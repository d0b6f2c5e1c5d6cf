//! Declarations of the `url` crate's types, and the operations on them that
//! this library relies on.
//!
//! A [`url::Url`] value is opaque here: the library carries it through its
//! own types and decides from what the `url` crate reports about it, but
//! never looks inside it.

use vstd::prelude::*;

verus! {

/// A parsed URL record, from the `url` crate.
#[verifier::external_type_specification]
#[verifier::external_body]
pub struct ExUrl(url::Url);

/// The `url` crate's parse error.
#[verifier::external_type_specification]
#[verifier::external_body]
pub struct ExParseError(url::ParseError);

/// Relies on `url::Url::parse`: parses an absolute URL from a string.
pub assume_specification[ ::url::Url::parse ](input: &str) -> Result<url::Url, url::ParseError>;

/// Relies on `url::Url::join`: parses a string as a URL, with this URL as
/// the base.
pub assume_specification[ ::url::Url::join ](base: &url::Url, input: &str) -> Result<
    url::Url,
    url::ParseError,
>;

/// Relies on `url::Url::cannot_be_a_base`: whether the URL is one that
/// cannot be used as a base for relative paths.
pub assume_specification[ ::url::Url::cannot_be_a_base ](base: &url::Url) -> bool;

/// Relies on `url::Url::as_str`: the serialization of the URL.
pub assume_specification<'a>[ ::url::Url::as_str ](base: &'a url::Url) -> &'a str;

/// Relies on the `Clone` implementation that `url::Url` derives.
pub assume_specification[ <::url::Url as Clone>::clone ](base: &url::Url) -> url::Url;

} // verus!
