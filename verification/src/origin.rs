//! The public origin that download links are written against.

use vstd::prelude::*;
use crate::text::{
    is_whitespace, lemma_trim_end_char_idempotent, lemma_trim_shape, chars_of, index_of, lemma_index_of, lemma_index_of_bounds, trim, trim_bounds, trim_end_char,
};

verus! {

/// The first comma-separated piece of `s` that is not blank, trimmed.
pub open spec fn first_nonblank_segment(s: Seq<char>) -> Option<Seq<char>>
    decreases s.len(),
{
    let k = index_of(s, ',');
    let segment = trim(s.take(k));
    if segment.len() > 0 {
        Some(segment)
    } else if k >= s.len() {
        None
    } else {
        proof {
            lemma_index_of_bounds(s, ',');
        }
        first_nonblank_segment(s.skip(k + 1))
    }
}

/// The view of an optional string.
pub open spec fn opt_view(o: Option<&str>) -> Option<Seq<char>> {
    match o {
        Some(v) => Some(v@),
        None => None,
    }
}

/// The value of a forwarding header: its first non-blank comma-separated entry.
pub open spec fn spec_first_forwarded_value(header: Option<Seq<char>>) -> Option<Seq<char>> {
    match header {
        Some(v) => first_nonblank_segment(v),
        None => None,
    }
}

/// `o` where it holds a non-empty string.
pub open spec fn non_empty(o: Option<Seq<char>>) -> Option<Seq<char>> {
    match o {
        Some(v) => if v.len() > 0 { Some(v) } else { None },
        None => None,
    }
}

/// The origin that download links point at. A configured public URL wins,
/// without its trailing slashes; else the scheme and host are taken from
/// `X-Forwarded-Proto` and `X-Forwarded-Host`, then `Host`, then defaults.
pub open spec fn spec_public_origin(
    configured: Option<Seq<char>>,
    forwarded_proto: Option<Seq<char>>,
    forwarded_host: Option<Seq<char>>,
    host: Option<Seq<char>>,
) -> Seq<char> {
    match non_empty(configured) {
        Some(url) => trim_end_char(url, '/'),
        None => {
            let h = match spec_first_forwarded_value(forwarded_host) {
                Some(v) => v,
                None => match non_empty(host) {
                    Some(v) => v,
                    None => "127.0.0.1"@,
                },
            };
            let p = match spec_first_forwarded_value(forwarded_proto) {
                Some(v) => v,
                None => "http"@,
            };
            p + "://"@ + h
        },
    }
}

/// The first non-blank comma-separated entry of a forwarding header, trimmed.
pub fn first_forwarded_value<'a>(header: Option<&'a str>) -> (r: Option<&'a str>)
    ensures
        opt_view(r) == spec_first_forwarded_value(opt_view(header)),
{
    let value = match header {
        Some(v) => v,
        None => return None,
    };
    assert(opt_view(header) == Some(value@));
    let cs = chars_of(value);
    let n = cs.len();
    let mut start: usize = 0;
    let mut i: usize = 0;
    assert(cs@.skip(0) =~= cs@);
    while i <= n
        invariant
            opt_view(header) == Some(value@),
            cs@ == value@,
            n == cs@.len(),
            start <= i,
            i <= n,
            forall|j: int| start <= j < i && j < n ==> cs@[j] != ',',
            first_nonblank_segment(cs@) == first_nonblank_segment(cs@.skip(start as int)),
        decreases n - i,
    {
        if i == n || cs[i] == ',' {
            let ghost rest = cs@.skip(start as int);
            proof {
                lemma_index_of(rest, ',', i - start);
                assert(rest.take(i - start) =~= cs@.subrange(start as int, i as int));
            }
            let (a, b) = trim_bounds(&cs, start, i);
            assert(trim(rest.take(index_of(rest, ','))) == cs@.subrange(a as int, b as int));
            if a < b {
                return Some(value.substring_char(a, b));
            }
            if i == n {
                return None;
            }
            proof {
                assert(rest.skip(i - start + 1) =~= cs@.skip(i + 1));
            }
            start = i + 1;
        }
        i = i + 1;
    }
    None
}

/// `s` without its trailing slashes.
pub fn trim_trailing_slashes(s: &str) -> (r: &str)
    ensures
        r@ == trim_end_char(s@, '/'),
{
    let cs = chars_of(s);
    let mut k = cs.len();
    assert(cs@.take(k as int) =~= cs@);
    while k > 0 && cs[k - 1] == '/'
        invariant
            cs@ == s@,
            k <= cs@.len(),
            trim_end_char(cs@.take(k as int), '/') == trim_end_char(s@, '/'),
        decreases k,
    {
        assert(cs@.take(k as int).drop_last() =~= cs@.take(k - 1));
        k = k - 1;
    }
    s.substring_char(0, k)
}

/// `o` where it holds a non-empty string.
fn non_empty_str<'a>(o: Option<&'a str>) -> (r: Option<&'a str>)
    ensures
        opt_view(r) == non_empty(opt_view(o)),
{
    match o {
        Some(v) => if v.unicode_len() > 0 { Some(v) } else { None },
        None => None,
    }
}

/// The origin (`scheme://host`) that download links point at.
pub fn public_origin(
    configured: Option<&str>,
    forwarded_proto: Option<&str>,
    forwarded_host: Option<&str>,
    host: Option<&str>,
) -> (r: String)
    ensures
        r@ == spec_public_origin(
            opt_view(configured),
            opt_view(forwarded_proto),
            opt_view(forwarded_host),
            opt_view(host),
        ),
        non_empty(opt_view(configured)) is None ==> r@ == forwarded_scheme(
            opt_view(forwarded_proto),
        ) + "://"@ + forwarded_host_of(opt_view(forwarded_host), opt_view(host)),
{
    proof {
        if non_empty(opt_view(configured)) is None {
            lemma_origin_scheme_from_forwarded_proto(
                opt_view(configured),
                opt_view(forwarded_proto),
                opt_view(forwarded_host),
                opt_view(host),
            );
        }
    }
    if let Some(url) = non_empty_str(configured) {
        return String::from_str(trim_trailing_slashes(url));
    }
    let h = match first_forwarded_value(forwarded_host) {
        Some(v) => v,
        None => match non_empty_str(host) {
            Some(v) => v,
            None => "127.0.0.1",
        },
    };
    let p = match first_forwarded_value(forwarded_proto) {
        Some(v) => v,
        None => "http",
    };
    let mut origin = String::from_str(p);
    origin.append("://");
    origin.append(h);
    origin
}

/// A configured public URL, stored without its trailing slashes.
pub fn normalize_public_url(value: Option<String>) -> (r: Option<String>)
    ensures
        match value {
            Some(v) => r matches Some(t) && t@ == trim_end_char(v@, '/'),
            None => r is None,
        },
{
    match value {
        Some(v) => Some(String::from_str(trim_trailing_slashes(v.as_str()))),
        None => None,
    }
}

/// What a configured public URL is stored as.
pub open spec fn spec_normalize_public_url(value: Option<Seq<char>>) -> Option<Seq<char>> {
    match value {
        Some(v) => Some(trim_end_char(v, '/')),
        None => None,
    }
}

/// The scheme that a request's `X-Forwarded-Proto` header asks for: its
/// first non-blank entry, else `http`.
pub open spec fn forwarded_scheme(forwarded_proto: Option<Seq<char>>) -> Seq<char> {
    match forwarded_proto {
        Some(v) => match first_nonblank_segment(v) {
            Some(s) => s,
            None => "http"@,
        },
        None => "http"@,
    }
}

/// The host that a request's headers name: the first non-blank entry of
/// `X-Forwarded-Host`, else a non-empty `Host`, else `127.0.0.1`.
pub open spec fn forwarded_host_of(forwarded_host: Option<Seq<char>>, host: Option<Seq<char>>) -> Seq<char> {
    match forwarded_host {
        Some(v) if first_nonblank_segment(v) is Some => first_nonblank_segment(v).unwrap(),
        _ => match host {
            Some(v) if v.len() > 0 => v,
            _ => "127.0.0.1"@,
        },
    }
}

/// Law: without a configured URL the origin is the scheme that
/// `X-Forwarded-Proto` asks for, `://`, and the host the other headers
/// name. The scheme depends on `X-Forwarded-Proto` alone, whichever header
/// gives the host, and the host does not depend on `X-Forwarded-Proto`.
pub proof fn lemma_origin_scheme_from_forwarded_proto(
    configured: Option<Seq<char>>,
    forwarded_proto: Option<Seq<char>>,
    forwarded_host: Option<Seq<char>>,
    host: Option<Seq<char>>,
)
    requires
        non_empty(configured) is None,
    ensures
        spec_public_origin(configured, forwarded_proto, forwarded_host, host) == forwarded_scheme(
            forwarded_proto,
        ) + "://"@ + forwarded_host_of(forwarded_host, host),
{
}

/// Law: storing the configured URL without its trailing slashes changes no
/// origin, except for a URL made of slashes alone, which turns empty when
/// stored and so no longer counts as configured.
pub proof fn lemma_normalized_url_keeps_origin(
    configured: Option<Seq<char>>,
    forwarded_proto: Option<Seq<char>>,
    forwarded_host: Option<Seq<char>>,
    host: Option<Seq<char>>,
)
    requires
        configured matches Some(v) ==> v.len() == 0 || trim_end_char(v, '/').len() > 0,
    ensures
        spec_public_origin(spec_normalize_public_url(configured), forwarded_proto, forwarded_host, host)
            == spec_public_origin(configured, forwarded_proto, forwarded_host, host),
{
    if let Some(v) = configured {
        lemma_trim_end_char_idempotent(v, '/');
    }
}

/// Law: a configured public URL decides the origin whatever the request's
/// headers say; without one, `X-Forwarded-Host` overrides `Host`.
pub proof fn lemma_origin_precedence(
    configured: Option<Seq<char>>,
    proto_a: Option<Seq<char>>,
    forwarded_host_a: Option<Seq<char>>,
    host_a: Option<Seq<char>>,
    proto_b: Option<Seq<char>>,
    forwarded_host_b: Option<Seq<char>>,
    host_b: Option<Seq<char>>,
)
    ensures
        non_empty(configured) is Some ==> spec_public_origin(configured, proto_a, forwarded_host_a, host_a)
            == spec_public_origin(configured, proto_b, forwarded_host_b, host_b),
        non_empty(configured) is None && spec_first_forwarded_value(forwarded_host_a) is Some
            ==> spec_public_origin(configured, proto_a, forwarded_host_a, host_a)
            == spec_public_origin(configured, proto_a, forwarded_host_a, host_b),
{
}

/// Law: the value taken from a forwarding header is one clean entry: not
/// empty, without a comma, and without whitespace at either end.
pub proof fn lemma_forwarded_value_is_clean(s: Seq<char>)
    ensures
        first_nonblank_segment(s) matches Some(v) ==> {
            &&& v.len() > 0
            &&& !v.contains(',')
            &&& !is_whitespace(v[0])
            &&& !is_whitespace(v.last())
        },
    decreases s.len(),
{
    lemma_index_of_bounds(s, ',');
    let k = index_of(s, ',');
    let piece = s.take(k);
    lemma_trim_shape(piece);
    let segment = trim(piece);
    if segment.len() > 0 {
        if segment.contains(',') {
            let i = choose|i: int| 0 <= i < segment.len() && segment[i] == ',';
            assert(piece.contains(segment[i]));
        }
    } else if k < s.len() {
        lemma_forwarded_value_is_clean(s.skip(k + 1));
    }
}

} // verus!
