//! Construction of the upstream URL: the provider's base URL, the remainder
//! of the path joined to it, and the query string of the request.

use vstd::prelude::*;
use crate::errors::AppError;
use crate::registry::ProviderTable;

verus! {

/// `url::Url`, carried through as an opaque value.
#[verifier::external_type_specification]
#[verifier::external_body]
pub struct ExUrl(url::Url);

/// The serialization of a parsed URL.
pub uninterp spec fn url_text(url: url::Url) -> Seq<char>;

/// What `url::Url::parse` makes of a text: the serialization of the absolute
/// URL that it parsed, or the error.
pub uninterp spec fn parsed_url(input: Seq<char>) -> Result<Seq<char>, url::ParseError>;

/// What `url::Url::join` makes of a reference, on the base URL with the given
/// serialization: the serialization of the resolved URL, or the error.
pub uninterp spec fn joined_url(base: Seq<char>, reference: Seq<char>) -> Result<
    Seq<char>,
    url::ParseError,
>;

/// Calls `url::Url::parse`. The contract only names the outcome.
#[verifier::external_body]
fn parse_url(input: &str) -> (outcome: Result<url::Url, url::ParseError>)
    ensures
        match outcome {
            Ok(url) => parsed_url(input@) == Ok::<Seq<char>, url::ParseError>(url_text(url)),
            Err(error) => parsed_url(input@) == Err::<Seq<char>, url::ParseError>(error),
        },
{
    url::Url::parse(input)
}

/// Calls `url::Url::join`, which parses the reference with `base` as its base
/// URL. The contract only names the outcome, as a function of the base's
/// serialization and the reference.
#[verifier::external_body]
fn join_url(base: &url::Url, reference: &str) -> (outcome: Result<url::Url, url::ParseError>)
    ensures
        match outcome {
            Ok(url) => joined_url(url_text(*base), reference@) == Ok::<Seq<char>, url::ParseError>(
                url_text(url),
            ),
            Err(error) => joined_url(url_text(*base), reference@) == Err::<
                Seq<char>,
                url::ParseError,
            >(error),
        },
{
    base.join(reference)
}

/// Turns a `url::Url` into its serialization, through `From<Url> for String`.
#[verifier::external_body]
fn url_into_string(url: url::Url) -> (text: String)
    ensures
        text@ == url_text(url),
{
    String::from(url)
}

/// A URL with the query string of the request behind it, if there was one.
pub open spec fn with_query(url: Seq<char>, query: Option<Seq<char>>) -> Seq<char> {
    match query {
        Some(q) => url + "?"@ + q,
        None => url,
    }
}

/// The remainder joined to the base URL: the base must parse as an absolute
/// URL, and the remainder is resolved against it as a relative reference.
pub open spec fn resolved_url(base: Seq<char>, remainder: Seq<char>) -> Result<
    Seq<char>,
    url::ParseError,
> {
    match parsed_url(base) {
        Ok(parsed) => joined_url(parsed, remainder),
        Err(error) => Err(error),
    }
}

/// The upstream URL for a base URL, a remainder and a query string.
pub open spec fn upstream_url(
    base: Seq<char>,
    remainder: Seq<char>,
    query: Option<Seq<char>>,
) -> Result<Seq<char>, url::ParseError> {
    match resolved_url(base, remainder) {
        Ok(url) => Ok(with_query(url, query)),
        Err(error) => Err(error),
    }
}

/// Appends the query string to a joined URL, verbatim, behind a `?`. Without
/// a query string the URL is returned as it is.
pub fn append_query(url: String, query: Option<&str>) -> (full: String)
    ensures
        full@ == with_query(
            url@,
            match query {
                Some(q) => Some(q@),
                None => None,
            },
        ),
{
    match query {
        Some(q) => url.concat("?").concat(q),
        None => url,
    }
}

/// Joins the remainder to the base URL.
pub fn join_remainder(base: &str, remainder: &str) -> (outcome: Result<String, AppError>)
    ensures
        match outcome {
            Ok(url) => resolved_url(base@, remainder@) == Ok::<Seq<char>, url::ParseError>(url@),
            Err(AppError::UrlParseError(error)) => resolved_url(base@, remainder@) == Err::<
                Seq<char>,
                url::ParseError,
            >(error),
            Err(_) => false,
        },
{
    let parsed = match parse_url(base) {
        Ok(url) => url,
        Err(error) => {
            return Err(AppError::UrlParseError(error));
        },
    };
    match join_url(&parsed, remainder) {
        Ok(url) => Ok(url_into_string(url)),
        Err(error) => Err(AppError::UrlParseError(error)),
    }
}

/// Builds the upstream URL from a base URL, the remainder of the path and the
/// query string of the request.
pub fn build(base: &str, remainder: &str, query: Option<&str>) -> (outcome: Result<
    String,
    AppError,
>)
    ensures
        match outcome {
            Ok(url) => upstream_url(
                base@,
                remainder@,
                match query {
                    Some(q) => Some(q@),
                    None => None,
                },
            ) == Ok::<Seq<char>, url::ParseError>(url@),
            Err(AppError::UrlParseError(error)) => resolved_url(base@, remainder@) == Err::<
                Seq<char>,
                url::ParseError,
            >(error),
            Err(_) => false,
        },
{
    match join_remainder(base, remainder) {
        Ok(url) => Ok(append_query(url, query)),
        Err(error) => Err(error),
    }
}

/// What `get_upstream_url` owes for a table, a provider name, a remainder and
/// a query string: nothing but "not found" for an unknown provider, else the
/// upstream URL on that provider's base URL.
pub open spec fn upstream_of(
    table: Map<Seq<char>, Seq<char>>,
    provider: Seq<char>,
    remainder: Seq<char>,
    query: Option<Seq<char>>,
) -> Option<Result<Seq<char>, url::ParseError>> {
    if table.contains_key(provider) {
        Some(upstream_url(table[provider], remainder, query))
    } else {
        None
    }
}

/// Resolves the provider and builds the upstream URL of a request. An unknown
/// provider and a URL that does not parse or join are reported as such; no
/// URL is ever returned for them.
pub fn get_upstream_url(
    table: &ProviderTable,
    provider: &str,
    rest: &str,
    query: Option<&str>,
) -> (outcome: Result<String, AppError>)
    requires
        table.wf(),
    ensures
        match outcome {
            Ok(url) => upstream_of(
                table@,
                provider@,
                rest@,
                match query {
                    Some(q) => Some(q@),
                    None => None,
                },
            ) == Some(Ok::<Seq<char>, url::ParseError>(url@)),
            Err(AppError::ProviderNotFound(missing)) => !table@.contains_key(provider@)
                && missing@ == provider@,
            Err(AppError::UrlParseError(error)) => table@.contains_key(provider@) && resolved_url(
                table@[provider@],
                rest@,
            ) == Err::<Seq<char>, url::ParseError>(error),
            Err(_) => false,
        },
{
    let base = match table.resolve(provider) {
        Ok(base) => base,
        Err(error) => {
            return Err(error);
        },
    };
    build(base.as_str(), rest, query)
}

/// The query string of the request closes the upstream URL, behind a `?`.
pub proof fn lemma_query_closes_url(url: Seq<char>, query: Seq<char>)
    ensures
        with_query(url, Some(query)).len() == url.len() + 1 + query.len(),
        with_query(url, Some(query)).subrange(0, url.len() as int) == url,
        with_query(url, Some(query))[url.len() as int] == '?',
        with_query(url, Some(query)).subrange(
            url.len() as int + 1,
            with_query(url, Some(query)).len() as int,
        ) == query,
{
    reveal_strlit("?");
    let full = with_query(url, Some(query));
    assert(full.subrange(0, url.len() as int) =~= url);
    assert(full.subrange(url.len() as int + 1, full.len() as int) =~= query);
}

} // verus!
