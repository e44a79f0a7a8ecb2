//! The extension marketplace that the proxy forwards to.

use vstd::prelude::*;
use crate::text::same_text;

verus! {

#[verifier::external_type_specification]
#[verifier::external_body]
pub struct ExUrlParseError(url::ParseError);

/// What `url::Url::parse` makes of `input`: the scheme and the full text
/// (`Url::as_str`) of the URL it reads, or nothing where `input` is not an
/// absolute URL. Both depend on `input` alone.
pub uninterp spec fn url_parse(input: Seq<char>) -> Option<(Seq<char>, Seq<char>)>;

/// The text of the URL that `url::Url::parse` reads from `base` after
/// `Url::set_path(path)` and `Url::set_query(query)`. It depends on the
/// three arguments alone.
pub uninterp spec fn url_with_path_query(base: Seq<char>, path: Seq<char>, query: Option<Seq<char>>) -> Seq<char>;

/// `url::Url::parse`, giving the parsed URL's scheme (`Url::scheme`) and
/// text (`Url::as_str`). How the URL standard reads an input takes the url
/// crate's whole parser to state, so the outcome is named. Of the scheme
/// the contract states what `Url::scheme` documents: lower-cased ASCII
/// without the `:` delimiter.
#[verifier::external_body]
fn parse_url(input: &str) -> (r: Result<(String, String), url::ParseError>)
    ensures
        r is Ok <==> url_parse(input@) is Some,
        r matches Ok((scheme, text)) ==> url_parse(input@) == Some((scheme@, text@)),
        r matches Ok((scheme, _)) ==> forall|i: int|
            0 <= i < scheme@.len() ==> (#[trigger] scheme@[i] as u32) < 128 && !('A' <= scheme@[i]
                && scheme@[i] <= 'Z') && scheme@[i] != ':',
{
    match url::Url::parse(input) {
        Ok(url) => Ok((url.scheme().to_string(), url.as_str().to_string())),
        Err(e) => Err(e),
    }
}

/// `url::Url::set_path` and `url::Url::set_query` on the URL that
/// `url::Url::parse` reads from `base`, giving the resulting text
/// (`Url::as_str`). It fails exactly where `base` does not parse. Both
/// setters unwrap the new text's length as a `u32`, so the lengths are
/// bounded far below that.
#[verifier::external_body]
fn parse_with_path_query(base: &str, path: &str, query: Option<&str>) -> (r: Result<String, url::ParseError>)
    requires
        base@.len() <= 0x10_0000,
        path@.len() + opt_len(query) <= 0x10_0000,
    ensures
        r is Ok <==> url_parse(base@) is Some,
        r matches Ok(t) ==> t@ == url_with_path_query(base@, path@, opt_text(query)),
{
    match url::Url::parse(base) {
        Ok(mut url) => {
            url.set_path(path);
            url.set_query(query);
            Ok(url.as_str().to_string())
        },
        Err(e) => Err(e),
    }
}

/// The view of an optional string.
pub open spec fn opt_text(o: Option<&str>) -> Option<Seq<char>> {
    match o {
        Some(v) => Some(v@),
        None => None,
    }
}

/// The length of an optional string, zero where absent.
pub open spec fn opt_len(o: Option<&str>) -> int {
    match o {
        Some(v) => v@.len() as int,
        None => 0,
    }
}

/// Why an extension marketplace address is refused.
pub enum UpstreamError {
    /// The text is not an absolute URL.
    Invalid(url::ParseError),
    /// The URL's scheme is neither `http` nor `https`.
    UnsupportedScheme,
}

/// Whether the proxy may forward to a URL of scheme `scheme`.
pub open spec fn upstream_scheme_allowed(scheme: Seq<char>) -> bool {
    scheme == "http"@ || scheme == "https"@
}

/// Whether the proxy may forward to a URL whose scheme is `scheme`.
pub fn scheme_allowed(scheme: &str) -> (r: bool)
    ensures
        r == upstream_scheme_allowed(scheme@),
{
    same_text(scheme, "http") || same_text(scheme, "https")
}

/// The extension marketplace at `text`, as the text of the URL it parses
/// to: refused as invalid exactly where `text` is not an absolute URL, and
/// as unsupported exactly where its scheme is neither `http` nor `https`.
pub fn check_extensions_upstream(text: &str) -> (r: Result<String, UpstreamError>)
    ensures
        r is Ok <==> (url_parse(text@) matches Some((scheme, _)) && upstream_scheme_allowed(scheme)),
        r matches Ok(t) ==> url_parse(text@) matches Some((_, parsed)) && t@ == parsed,
        r matches Err(UpstreamError::Invalid(_)) <==> url_parse(text@) is None,
        r matches Err(UpstreamError::UnsupportedScheme) <==> (url_parse(text@) matches Some((scheme, _))
            && !upstream_scheme_allowed(scheme)),
{
    match parse_url(text) {
        Err(e) => Err(UpstreamError::Invalid(e)),
        Ok((scheme, parsed)) => {
            if scheme_allowed(scheme.as_str()) {
                Ok(parsed)
            } else {
                Err(UpstreamError::UnsupportedScheme)
            }
        },
    }
}

/// The URL a proxied request is sent to: the marketplace URL `upstream`
/// with its path replaced by `path` and its query by `query`. It fails
/// exactly where `upstream` is not an absolute URL.
pub fn upstream_request_url(upstream: &str, path: &str, query: Option<&str>) -> (r: Result<String, UpstreamError>)
    requires
        upstream@.len() <= 0x10_0000,
        path@.len() + opt_len(query) <= 0x10_0000,
    ensures
        r is Ok <==> url_parse(upstream@) is Some,
        r matches Ok(t) ==> t@ == url_with_path_query(upstream@, path@, opt_text(query)),
        r matches Err(e) ==> e is Invalid,
{
    match parse_with_path_query(upstream, path, query) {
        Ok(t) => Ok(t),
        Err(e) => Err(UpstreamError::Invalid(e)),
    }
}

} // verus!
