//! Rewriting proxied HTML: relative URLs become absolute against the
//! fetched page's origin, and protocol-relative URLs are pinned to
//! https.  The origin itself comes from the `url` crate; every
//! replacement is verified.

use crate::bytes::{ascii_bytes, ascii_of, push_all, replace_all, spec_replace};
use vstd::prelude::*;

verus! {

/// The origin — scheme, `://`, host — that the `url` crate derives from
/// an absolute URL, or `None` where the URL does not parse.
pub uninterp spec fn url_origin_of(url: Seq<u8>) -> Option<Seq<u8>>;

/// Relies on url::Url::parse with Url::scheme and Url::host_str: the
/// origin is a deterministic function of the URL text alone.  A URL that
/// does not parse, or is not UTF-8, yields `None`; a parsed URL without
/// a host yields its scheme with an empty host, as the original text
/// after `://` would.
#[verifier::external_body]
pub fn parse_origin(url: &[u8]) -> (r: Option<Vec<u8>>)
    ensures
        match r {
            Some(o) => url_origin_of(url@) == Some(o@),
            None => url_origin_of(url@) is None,
        },
{
    let text = core::str::from_utf8(url).ok()?;
    let parsed = url::Url::parse(text).ok()?;
    let origin = format!("{}://{}", parsed.scheme(), parsed.host_str().unwrap_or(""));
    Some(origin.into_bytes())
}

/// One relative-to-absolute rewrite: occurrences of `pat` followed by a
/// root-relative path become `pre + origin + post`.
pub open spec fn spec_rewrite_step(
    html: Seq<u8>,
    pat: Seq<char>,
    origin: Seq<u8>,
    to_pre: Seq<char>,
    to_post: Seq<char>,
) -> Seq<u8> {
    spec_replace(html, ascii_of(pat), ascii_of(to_pre) + origin + ascii_of(to_post))
}

/// The whole rewrite chain over a body, for a given origin: attribute
/// roots, stylesheet roots, then protocol-relative links, in order.
pub open spec fn spec_rewrite_with_origin(html: Seq<u8>, origin: Seq<u8>) -> Seq<u8> {
    let h1 = spec_rewrite_step(html, "href=\"/"@, origin, "href=\""@, "/"@);
    let h2 = spec_rewrite_step(h1, "src=\"/"@, origin, "src=\""@, "/"@);
    let h3 = spec_rewrite_step(h2, "action=\"/"@, origin, "action=\""@, "/"@);
    let h4 = spec_rewrite_step(h3, "url(/_next/"@, origin, "url("@, "//_next/"@);
    let h5 = spec_rewrite_step(h4, "url(/"@, origin, "url("@, "/"@);
    let h6 = spec_replace(h5, ascii_of("href=\"//"@), ascii_of("href=\"https://"@));
    spec_replace(h6, ascii_of("src=\"//"@), ascii_of("src=\"https://"@))
}

/// The rewritten body: unchanged where the base URL yields no origin.
pub open spec fn spec_rewrite_html(html: Seq<u8>, base_url: Seq<u8>) -> Seq<u8> {
    match url_origin_of(base_url) {
        Some(o) => spec_rewrite_with_origin(html, o),
        None => html,
    }
}

/// Replace `pat` in `html` by `to_pre + origin + to_post`.
fn rewrite_step(html: &[u8], pat: &str, origin: &[u8], to_pre: &str, to_post: &str) -> (r: Vec<u8>)
    requires
        pat.is_ascii(),
        to_pre.is_ascii(),
        to_post.is_ascii(),
        pat@.len() > 0,
    ensures
        r@ == spec_rewrite_step(html@, pat@, origin@, to_pre@, to_post@),
{
    let from = ascii_bytes(pat);
    let mut to = ascii_bytes(to_pre);
    push_all(&mut to, origin);
    let post = ascii_bytes(to_post);
    push_all(&mut to, post.as_slice());
    assert(to@ =~= ascii_of(to_pre@) + origin@ + ascii_of(to_post@));
    replace_all(html, from.as_slice(), to.as_slice())
}

/// Rewrite a fetched body against its base URL: root-relative `href`,
/// `src`, `action` and stylesheet `url()` references become absolute on
/// the page's origin, and protocol-relative links are pinned to https.
/// A base URL without an origin leaves the body untouched.
pub fn rewrite_html(html: &[u8], base_url: &[u8]) -> (r: Vec<u8>)
    ensures
        r@ == spec_rewrite_html(html@, base_url@),
{
    proof {
        reveal_strlit("href=\"/");
        reveal_strlit("href=\"");
        reveal_strlit("src=\"/");
        reveal_strlit("src=\"");
        reveal_strlit("action=\"/");
        reveal_strlit("action=\"");
        reveal_strlit("url(/_next/");
        reveal_strlit("url(");
        reveal_strlit("//_next/");
        reveal_strlit("url(/");
        reveal_strlit("/");
        reveal_strlit("href=\"//");
        reveal_strlit("href=\"https://");
        reveal_strlit("src=\"//");
        reveal_strlit("src=\"https://");
    }
    let origin = match parse_origin(base_url) {
        Some(o) => o,
        None => {
            return crate::bytes::sub_vec(html, 0, html.len());
        },
    };
    let h1 = rewrite_step(html, "href=\"/", origin.as_slice(), "href=\"", "/");
    let h2 = rewrite_step(h1.as_slice(), "src=\"/", origin.as_slice(), "src=\"", "/");
    let h3 = rewrite_step(h2.as_slice(), "action=\"/", origin.as_slice(), "action=\"", "/");
    let h4 = rewrite_step(h3.as_slice(), "url(/_next/", origin.as_slice(), "url(", "//_next/");
    let h5 = rewrite_step(h4.as_slice(), "url(/", origin.as_slice(), "url(", "/");
    let from6 = ascii_bytes("href=\"//");
    let to6 = ascii_bytes("href=\"https://");
    let h6 = replace_all(h5.as_slice(), from6.as_slice(), to6.as_slice());
    let from7 = ascii_bytes("src=\"//");
    let to7 = ascii_bytes("src=\"https://");
    replace_all(h6.as_slice(), from7.as_slice(), to7.as_slice())
}

} // verus!
