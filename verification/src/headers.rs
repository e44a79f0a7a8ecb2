//! Which headers the extension proxy passes on, each way.

use vstd::prelude::*;
use crate::text::{ascii_lower_code, eq_ignore_ascii_case, same_text_ignore_ascii_case};

verus! {

/// A request header that is not forwarded upstream: hop-by-hop headers,
/// the client's host, credentials and cookies, and what the proxy's own
/// client sets itself.
pub open spec fn request_header_skipped(name: Seq<char>) -> bool {
    ||| eq_ignore_ascii_case(name, "host"@)
    ||| eq_ignore_ascii_case(name, "connection"@)
    ||| eq_ignore_ascii_case(name, "keep-alive"@)
    ||| eq_ignore_ascii_case(name, "proxy-authenticate"@)
    ||| eq_ignore_ascii_case(name, "proxy-authorization"@)
    ||| eq_ignore_ascii_case(name, "te"@)
    ||| eq_ignore_ascii_case(name, "trailer"@)
    ||| eq_ignore_ascii_case(name, "transfer-encoding"@)
    ||| eq_ignore_ascii_case(name, "upgrade"@)
    ||| eq_ignore_ascii_case(name, "cookie"@)
    ||| eq_ignore_ascii_case(name, "accept-encoding"@)
    ||| eq_ignore_ascii_case(name, "content-length"@)
}

/// A response header that is passed back to the client.
pub open spec fn response_header_allowed(name: Seq<char>) -> bool {
    ||| eq_ignore_ascii_case(name, "content-type"@)
    ||| eq_ignore_ascii_case(name, "content-length"@)
    ||| eq_ignore_ascii_case(name, "cache-control"@)
}

/// Whether a request header named `name` is forwarded upstream.
pub fn forward_request_header(name: &str) -> (r: bool)
    ensures
        r == !request_header_skipped(name@),
{
    !(same_text_ignore_ascii_case(name, "host") || same_text_ignore_ascii_case(name, "connection")
        || same_text_ignore_ascii_case(name, "keep-alive") || same_text_ignore_ascii_case(
        name,
        "proxy-authenticate",
    ) || same_text_ignore_ascii_case(name, "proxy-authorization") || same_text_ignore_ascii_case(
        name,
        "te",
    ) || same_text_ignore_ascii_case(name, "trailer") || same_text_ignore_ascii_case(
        name,
        "transfer-encoding",
    ) || same_text_ignore_ascii_case(name, "upgrade") || same_text_ignore_ascii_case(name, "cookie")
        || same_text_ignore_ascii_case(name, "accept-encoding") || same_text_ignore_ascii_case(
        name,
        "content-length",
    ))
}

/// Whether a response header named `name` is passed back to the client.
pub fn forward_response_header(name: &str) -> (r: bool)
    ensures
        r == response_header_allowed(name@),
{
    same_text_ignore_ascii_case(name, "content-type") || same_text_ignore_ascii_case(
        name,
        "content-length",
    ) || same_text_ignore_ascii_case(name, "cache-control")
}

/// Law: header names are matched without regard to ASCII case, so two
/// spellings of one name are always treated alike, both ways.
pub proof fn lemma_header_rules_ignore_case(a: Seq<char>, b: Seq<char>)
    requires
        eq_ignore_ascii_case(a, b),
    ensures
        request_header_skipped(a) == request_header_skipped(b),
        response_header_allowed(a) == response_header_allowed(b),
{
    assert forall|w: Seq<char>| eq_ignore_ascii_case(a, w) == eq_ignore_ascii_case(b, w) by {
        if eq_ignore_ascii_case(a, w) {
            assert forall|i: int| 0 <= i < b.len() implies #[trigger] ascii_lower_code(b[i])
                == ascii_lower_code(w[i]) by {
                assert(ascii_lower_code(a[i]) == ascii_lower_code(b[i]));
                assert(ascii_lower_code(a[i]) == ascii_lower_code(w[i]));
            }
        }
        if eq_ignore_ascii_case(b, w) {
            assert forall|i: int| 0 <= i < a.len() implies #[trigger] ascii_lower_code(a[i])
                == ascii_lower_code(w[i]) by {
                assert(ascii_lower_code(a[i]) == ascii_lower_code(b[i]));
                assert(ascii_lower_code(b[i]) == ascii_lower_code(w[i]));
            }
        }
    }
}

/// Law: a redirect's `Location` never reaches the client, in any case of
/// its name, so redirects are followed by the proxy and never by the client.
pub proof fn lemma_location_never_returned(name: Seq<char>)
    requires
        eq_ignore_ascii_case(name, "location"@),
    ensures
        !response_header_allowed(name),
{
    reveal_strlit("location");
    reveal_strlit("content-type");
    reveal_strlit("content-length");
    reveal_strlit("cache-control");
}

/// What the proxy does with the headers of an upstream response.
pub struct ResponseHeaderPlan {
    /// For each upstream header in order, whether it is passed on.
    pub keep: Vec<bool>,
    /// Whether `content-type: application/octet-stream` is added because no
    /// content type is passed on.
    pub add_default_content_type: bool,
}

/// Whether some header in `names` is a content type.
pub open spec fn has_content_type(names: Seq<&str>) -> bool {
    exists|i: int| 0 <= i < names.len() && eq_ignore_ascii_case(#[trigger] names[i]@, "content-type"@)
}

/// The plan for the upstream response headers named `names`, in order:
/// allowed ones are kept, and a default content type is added where none
/// of them is a content type.
pub fn plan_response_headers(names: &[&str]) -> (plan: ResponseHeaderPlan)
    ensures
        plan.keep@.len() == names@.len(),
        forall|i: int| 0 <= i < names@.len() ==> plan.keep@[i] == response_header_allowed(
            #[trigger] names@[i]@,
        ),
        plan.add_default_content_type == !has_content_type(names@),
{
    let mut keep: Vec<bool> = Vec::new();
    let mut seen = false;
    let mut i: usize = 0;
    while i < names.len()
        invariant
            i <= names@.len(),
            keep@.len() == i,
            forall|j: int| 0 <= j < i ==> keep@[j] == response_header_allowed(#[trigger] names@[j]@),
            seen == exists|j: int| 0 <= j < i && eq_ignore_ascii_case(#[trigger] names@[j]@, "content-type"@),
        decreases names@.len() - i,
    {
        let name = names[i];
        let allowed = forward_response_header(name);
        if allowed && same_text_ignore_ascii_case(name, "content-type") {
            seen = true;
        }
        proof {
            if eq_ignore_ascii_case(names@[i as int]@, "content-type"@) {
                assert(response_header_allowed(names@[i as int]@));
            }
        }
        keep.push(allowed);
        i = i + 1;
    }
    ResponseHeaderPlan { keep, add_default_content_type: !seen }
}

} // verus!
