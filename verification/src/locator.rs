//! Resolving a relative reference against a base URL, by the `url` crate.
//!
//! What the crate makes of a text is not worked out here: its results have
//! names, and the contracts below speak of those names.

use vstd::prelude::*;

verus! {

/// `url::Url`, carried through as it comes: nothing of what a value holds
/// is seen here but its serialization, which has a name below.
#[verifier::external_type_specification]
#[verifier::external_body]
pub struct ExUrl(url::Url);

/// `url::ParseError`, carried through as it comes: the cause that the
/// parser gives where it refuses a text.
#[verifier::external_type_specification]
#[verifier::external_body]
pub struct ExParseError(url::ParseError);

/// The serialization that a `url::Url` holds: the text that `Url::as_str`
/// hands out, and by which two URLs are compared.
pub uninterp spec fn serialization(u: url::Url) -> Seq<char>;

/// The serialization of the URL that `url::Url::parse` makes of `input`, or
/// `None` where it returns an error.
pub uninterp spec fn parsed(input: Seq<char>) -> Option<Seq<char>>;

/// The serialization of the URL that `url::Url::join` makes of `reference`,
/// called on a URL whose serialization is `base`, or `None` where it returns
/// an error. A URL is told by its serialization: the places of its parts,
/// which `join` reads, are those that parsing the serialization gives.
pub uninterp spec fn joined(base: Seq<char>, reference: Seq<char>) -> Option<Seq<char>>;

/// Calls `url::Url::parse`. The URL that comes back holds the serialization
/// named `parsed(input)`; an error comes back exactly where that is `None`.
#[verifier::external_body]
fn parse_url(input: &str) -> (r: Result<url::Url, url::ParseError>)
    ensures
        match r {
            Ok(u) => parsed(input@) == Some(serialization(u)),
            Err(_) => parsed(input@) is None,
        },
{
    url::Url::parse(input)
}

/// Calls `url::Url::join`. The URL that comes back holds the serialization
/// named `joined` for the serialization of `base` and for `reference`; an
/// error comes back exactly where that is `None`.
#[verifier::external_body]
fn join_url(base: &url::Url, reference: &str) -> (r: Result<url::Url, url::ParseError>)
    ensures
        match r {
            Ok(u) => joined(serialization(*base), reference@) == Some(serialization(u)),
            Err(_) => joined(serialization(*base), reference@) is None,
        },
{
    base.join(reference)
}

/// Calls `String::from` on a `url::Url`, which hands out the serialization
/// that the URL holds.
#[verifier::external_body]
fn into_text(u: url::Url) -> (s: String)
    ensures
        s@ == serialization(u),
{
    String::from(u)
}

/// Why no URL could be made.
#[derive(Debug)]
pub enum UrlConstructionError {
    /// The base is no absolute URL. The cause is the parser's.
    Base(url::ParseError),
    /// The reference cannot be resolved against the base. The cause is the
    /// parser's.
    Reference(url::ParseError),
}

/// What resolving `reference` against `base` gives: the serialization of
/// the resulting URL, or `None` where the base is no URL or the reference
/// cannot be joined to it.
pub open spec fn resolved(base: Seq<char>, reference: Seq<char>) -> Option<Seq<char>> {
    match parsed(base) {
        Some(b) => joined(b, reference),
        None => None,
    }
}

/// Resolves `reference` against `base` and returns the resulting URL as
/// text.
pub fn resolve(base: &str, reference: &str) -> (r: Result<String, UrlConstructionError>)
    ensures
        match r {
            Ok(text) => resolved(base@, reference@) == Some(text@),
            Err(UrlConstructionError::Base(_)) => parsed(base@) is None,
            Err(UrlConstructionError::Reference(_)) => parsed(base@) is Some && resolved(
                base@,
                reference@,
            ) is None,
        },
{
    match parse_url(base) {
        Err(cause) => Err(UrlConstructionError::Base(cause)),
        Ok(b) => match join_url(&b, reference) {
            Err(cause) => Err(UrlConstructionError::Reference(cause)),
            Ok(u) => Ok(into_text(u)),
        },
    }
}

} // verus!
