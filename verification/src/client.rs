//! Building the request sent to the remote suggestion endpoint.
//!
//! The request is the configured base URL with two form-encoded query
//! parameters appended: `query`, the user's text, and `context`, the most
//! recently proposed command or the empty string when there is none. The
//! network transfer itself happens outside the library; what is built here is
//! the exact URL it uses.

use vstd::prelude::*;

verus! {

/// Whether the text is a valid URL. Named for the outcome of
/// `reqwest::Url::parse`, which depends on the text alone.
pub uninterp spec fn url_parse_ok(s: Seq<char>) -> bool;

/// The normalized serialization that parsing a valid URL text yields. Named
/// for the result of `reqwest::Url::parse`, which depends on the text alone.
pub uninterp spec fn parsed_url_text(s: Seq<char>) -> Seq<char>;

/// The serialization held by a parsed URL value.
pub uninterp spec fn url_text(u: reqwest::Url) -> Seq<char>;

/// The URL serialization with one form-encoded `key=value` pair appended to
/// its query string. Named for the effect of `append_pair`, which depends on
/// the serialization and the pair alone.
pub uninterp spec fn with_pair(url: Seq<char>, key: Seq<char>, value: Seq<char>) -> Seq<char>;

#[verifier::external_type_specification]
#[verifier::external_body]
pub struct ExUrl(reqwest::Url);

/// Relies on `reqwest::Url::parse` (url's `Url::parse`): it succeeds exactly
/// on valid URL text, and both the outcome and the parsed URL's normalized
/// serialization depend on the text alone.
#[verifier::external_body]
fn parse_url(base: &str) -> (r: Option<reqwest::Url>)
    ensures
        r is Some <==> url_parse_ok(base@),
        r is Some ==> url_text(r->0) == parsed_url_text(base@),
{
    match reqwest::Url::parse(base) {
        Ok(u) => Some(u),
        Err(_) => None,
    }
}

/// Relies on url's `Url::query_pairs_mut` together with form_urlencoded's
/// `Serializer::append_pair`: they append the form-encoded pair to the URL's
/// query string, and the new serialization depends on the old one and the
/// pair alone.
#[verifier::external_body]
fn append_query_pair(url: &mut reqwest::Url, key: &str, value: &str)
    ensures
        url_text(*final(url)) == with_pair(url_text(*old(url)), key@, value@),
{
    url.query_pairs_mut().append_pair(key, value);
}

/// Relies on `reqwest::Url::as_str`: it returns the URL's serialization.
#[verifier::external_body]
fn url_str(url: &reqwest::Url) -> (r: String)
    ensures
        r@ == url_text(*url),
{
    String::from(url.as_str())
}

/// The context parameter's text: the prior command, or the empty string when
/// no fetch has happened yet.
pub open spec fn context_or_empty(context: Option<Seq<char>>) -> Seq<char> {
    match context {
        Some(c) => c,
        None => Seq::empty(),
    }
}

/// The full serialization of a request for `query` under context `context`
/// against the endpoint at `base`.
pub open spec fn request_url_text(
    base: Seq<char>,
    query: Seq<char>,
    context: Option<Seq<char>>,
) -> Seq<char> {
    with_pair(with_pair(parsed_url_text(base), "query"@, query), "context"@, context_or_empty(context))
}

/// Builds the request URL: parses the configured base URL — failing exactly
/// when that text is not a valid URL, a fatal condition for the caller — and
/// appends the `query` and `context` parameters.
pub fn build_request_url(base: &str, query: &str, context: &Option<String>) -> (r: Option<
    reqwest::Url,
>)
    ensures
        r is Some <==> url_parse_ok(base@),
        r is Some ==> url_text(r->0) == request_url_text(base@, query@, context.deep_view()),
{
    let mut url = match parse_url(base) {
        Some(u) => u,
        None => {
            return None;
        },
    };
    append_query_pair(&mut url, "query", query);
    match context {
        Some(c) => append_query_pair(&mut url, "context", c.as_str()),
        None => {
            append_query_pair(&mut url, "context", "");
            proof {
                reveal_strlit("");
                assert(""@ =~= Seq::<char>::empty());
            }
        },
    }
    Some(url)
}

/// The request URL as text: what `build_request_url` yields, serialized.
pub fn build_request_url_str(base: &str, query: &str, context: &Option<String>) -> (r: Option<
    String,
>)
    ensures
        r is Some <==> url_parse_ok(base@),
        r is Some ==> r->0@ == request_url_text(base@, query@, context.deep_view()),
{
    match build_request_url(base, query, context) {
        Some(url) => Some(url_str(&url)),
        None => None,
    }
}

} // verus!
