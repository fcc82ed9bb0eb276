//! Ordered, origin-aware header synthesis.  The headers a request carries
//! are exactly the ordered list a real browser with the session's
//! fingerprint would send, and never a hop-by-hop header.

use crate::b64::{b64_encode, b64_of};
use crate::bytes::{ascii_bytes, ascii_of, contains_bytes, push_all, spec_contains_bytes, spec_dec, str_eq, u64_dec};
use crate::rng::random_u64_range;
use crate::session::Session;
use vstd::prelude::*;
use vstd::string::StringExecFns;

verus! {

/// The protected-origin class: hosts of the search provider, recognised
/// by this marker anywhere in the URL.
pub open spec fn spec_is_protected_origin(url: Seq<u8>) -> bool {
    spec_contains_bytes(url, ascii_of("google."@))
}

/// Whether `url` belongs to the protected-origin class.
pub fn is_protected_origin(url: &[u8]) -> (r: bool)
    ensures
        r == spec_is_protected_origin(url@),
{
    proof {
        reveal_strlit("google.");
    }
    let needle = ascii_bytes("google.");
    contains_bytes(url, needle.as_slice())
}

/// The session has already visited the protected-origin class.
pub open spec fn spec_has_visited_protected(s: Session) -> bool {
    exists|i: int|
        0 <= i < s.visited_urls@.len() && spec_contains_bytes(
            #[trigger] s.visited_urls@[i]@,
            ascii_of("google."@),
        )
}

/// Whether the session's history holds a protected-origin visit.
pub fn has_visited_protected(s: &Session) -> (r: bool)
    ensures
        r == spec_has_visited_protected(*s),
{
    proof {
        reveal_strlit("google.");
    }
    let needle = ascii_bytes("google.");
    let n = s.visited_urls.len();
    let mut i: usize = 0;
    while i < n
        invariant
            n == s.visited_urls@.len(),
            i <= n,
            needle@ == ascii_of("google."@),
            forall|j: int|
                0 <= j < i ==> !spec_contains_bytes(#[trigger] s.visited_urls@[j]@, needle@),
        decreases n - i,
    {
        if contains_bytes(s.visited_urls[i].as_slice(), needle.as_slice()) {
            return true;
        }
        i += 1;
    }
    false
}

/// The hop-by-hop exclusion set.
pub open spec fn spec_is_hop_by_hop(name: Seq<char>) -> bool {
    ||| name == "connection"@
    ||| name == "proxy-connection"@
    ||| name == "te"@
    ||| name == "trailer"@
    ||| name == "transfer-encoding"@
    ||| name == "upgrade"@
    ||| name == "keep-alive"@
    ||| name == "proxy-authenticate"@
    ||| name == "proxy-authorization"@
}

/// Whether a lower-case header name is hop-by-hop.
pub fn is_hop_by_hop_header(name: &str) -> (r: bool)
    ensures
        r == spec_is_hop_by_hop(name@),
{
    str_eq(name, "connection") || str_eq(name, "proxy-connection") || str_eq(name, "te") || str_eq(
        name,
        "trailer",
    ) || str_eq(name, "transfer-encoding") || str_eq(name, "upgrade") || str_eq(name, "keep-alive")
        || str_eq(name, "proxy-authenticate") || str_eq(name, "proxy-authorization")
}

/// Header names the engine itself fills in, which an inbound request must
/// not override.
pub open spec fn spec_is_already_set(name: Seq<char>) -> bool {
    ||| name == "host"@
    ||| name == "content-length"@
    ||| name == "accept"@
    ||| name == "accept-language"@
    ||| name == "accept-encoding"@
    ||| name == "user-agent"@
    ||| name == "sec-fetch-dest"@
    ||| name == "sec-fetch-mode"@
    ||| name == "sec-fetch-site"@
    ||| name == "sec-fetch-user"@
    ||| name == "upgrade-insecure-requests"@
    ||| name == "dnt"@
    ||| name == "cache-control"@
    ||| name == "x-forwarded-for"@
    ||| name == "x-real-ip"@
    ||| name == "x-forwarded-proto"@
    ||| name == "sec-ch-ua"@
    ||| name == "sec-ch-ua-mobile"@
    ||| name == "sec-ch-ua-platform"@
    ||| name == "sec-ch-ua-arch"@
    ||| name == "sec-ch-ua-bitness"@
    ||| name == "sec-ch-ua-full-version-list"@
    ||| name == "sec-ch-ua-wow64"@
    ||| name == "sec-ch-ua-model"@
    ||| name == "x-client-data"@
    ||| name == "sec-ch-viewport-width"@
    ||| name == "sec-ch-viewport-height"@
    ||| name == "sec-ch-device-memory"@
    ||| name == "sec-ch-prefers-color-scheme"@
    ||| name == "sec-ch-prefers-reduced-motion"@
    ||| name == "referer"@
}

/// Whether a lower-case header name is one the engine sets itself.
pub fn is_already_set_header(name: &str) -> (r: bool)
    ensures
        r == spec_is_already_set(name@),
{
    str_eq(name, "host") || str_eq(name, "content-length") || str_eq(name, "accept") || str_eq(
        name,
        "accept-language",
    ) || str_eq(name, "accept-encoding") || str_eq(name, "user-agent") || str_eq(
        name,
        "sec-fetch-dest",
    ) || str_eq(name, "sec-fetch-mode") || str_eq(name, "sec-fetch-site") || str_eq(
        name,
        "sec-fetch-user",
    ) || str_eq(name, "upgrade-insecure-requests") || str_eq(name, "dnt") || str_eq(
        name,
        "cache-control",
    ) || str_eq(name, "x-forwarded-for") || str_eq(name, "x-real-ip") || str_eq(
        name,
        "x-forwarded-proto",
    ) || str_eq(name, "sec-ch-ua") || str_eq(name, "sec-ch-ua-mobile") || str_eq(
        name,
        "sec-ch-ua-platform",
    ) || str_eq(name, "sec-ch-ua-arch") || str_eq(name, "sec-ch-ua-bitness") || str_eq(
        name,
        "sec-ch-ua-full-version-list",
    ) || str_eq(name, "sec-ch-ua-wow64") || str_eq(name, "sec-ch-ua-model") || str_eq(
        name,
        "x-client-data",
    ) || str_eq(name, "sec-ch-viewport-width") || str_eq(name, "sec-ch-viewport-height") || str_eq(
        name,
        "sec-ch-device-memory",
    ) || str_eq(name, "sec-ch-prefers-color-scheme") || str_eq(
        name,
        "sec-ch-prefers-reduced-motion",
    ) || str_eq(name, "referer")
}

/// The fixed fallback user agent for callers that do not carry a
/// session fingerprint.
pub fn get_realistic_user_agent(_url: &str) -> (r: &'static str)
    ensures
        r@ == "Mozilla/5.0 (Windows NT 10.0; Win64; x64) AppleWebKit/537.36 (KHTML, like Gecko) Chrome/120.0.0.0 Safari/537.36"@,
{
    "Mozilla/5.0 (Windows NT 10.0; Win64; x64) AppleWebKit/537.36 (KHTML, like Gecko) Chrome/120.0.0.0 Safari/537.36"
}

/// The raw payload behind the X-Client-Data token: major browser version,
/// a session-scoped draw, the viewport, and a second draw, colon-joined.
pub open spec fn spec_client_data_payload(s: Session, r1: u64, r2: u64) -> Seq<u8> {
    ascii_of(s.fingerprint.chrome_major@) + ascii_of(":"@) + spec_dec(r1 as nat) + ascii_of(":"@)
        + spec_dec(s.fingerprint.viewport_width as nat) + ascii_of(":"@) + spec_dec(
        s.fingerprint.viewport_height as nat,
    ) + ascii_of(":"@) + spec_dec(r2 as nat)
}

/// The views of an exec header list.
pub open spec fn header_views(v: Seq<(String, String)>) -> Seq<(Seq<char>, Seq<char>)> {
    Seq::new(v.len(), |i: int| (v[i].0@, v[i].1@))
}

/// The full ordered header list for a request from session `s` to `url`:
/// the fixed browser headers, the client hints of the fingerprint, the
/// Sec-Fetch set with Site conditioned on a referer, then — against the
/// protected origin only — Referer (when the history holds a visit
/// there), the X-Client-Data token and X-Same-Domain, and Cache-Control
/// once the session has made more than one request.
pub open spec fn spec_headers(s: Session, url: Seq<u8>, is_mobile: bool, r1: u64, r2: u64) -> Seq<
    (Seq<char>, Seq<char>),
> {
    let protected = spec_is_protected_origin(url);
    let revisit = spec_has_visited_protected(s);
    let referer = protected && revisit;
    let base = seq![
        (
            "Accept"@,
            "text/html,application/xhtml+xml,application/xml;q=0.9,image/avif,image/webp,image/apng,*/*;q=0.8,application/signed-exchange;v=b3;q=0.7"@,
        ),
        ("Accept-Encoding"@, "gzip, deflate, br"@),
        ("Accept-Language"@, "en-US,en;q=0.9"@),
        ("Sec-Ch-Ua"@, s.fingerprint.sec_ch_ua@),
        (
            "Sec-Ch-Ua-Mobile"@,
            if is_mobile {
                "?1"@
            } else {
                s.fingerprint.sec_ch_ua_mobile@
            },
        ),
        ("Sec-Ch-Ua-Platform"@, s.fingerprint.sec_ch_ua_platform@),
        ("Sec-Fetch-Dest"@, "document"@),
        ("Sec-Fetch-Mode"@, "navigate"@),
        (
            "Sec-Fetch-Site"@,
            if referer {
                "same-origin"@
            } else {
                "none"@
            },
        ),
        ("Sec-Fetch-User"@, "?1"@),
        ("Upgrade-Insecure-Requests"@, "1"@),
        ("User-Agent"@, s.fingerprint.user_agent@),
    ];
    let with_referer = if referer {
        base.push(("Referer"@, "https://www.google.com/"@))
    } else {
        base
    };
    let with_client_data = if protected {
        let cd = with_referer.push(
            ("X-Client-Data"@, b64_of(spec_client_data_payload(s, r1, r2))),
        );
        if revisit {
            cd.push(("X-Same-Domain"@, "1"@))
        } else {
            cd
        }
    } else {
        with_referer
    };
    if s.request_count > 1 {
        with_client_data.push(("Cache-Control"@, "max-age=0"@))
    } else {
        with_client_data
    }
}

/// Build the client-data payload for concrete draws.
fn client_data_payload(s: &Session, r1: u64, r2: u64) -> (p: Vec<u8>)
    requires
        crate::session::session_wf(*s),
        r1 < 10000,
        r2 < 1000,
    ensures
        p@ == spec_client_data_payload(*s, r1, r2),
        p@.len() <= 20000,
{
    proof {
        reveal_strlit(":");
        crate::bytes::lemma_spec_dec_len(r1 as nat);
        crate::bytes::lemma_spec_dec_len(r2 as nat);
        crate::bytes::lemma_spec_dec_len(s.fingerprint.viewport_width as nat);
        crate::bytes::lemma_spec_dec_len(s.fingerprint.viewport_height as nat);
        let (gi, gj) = choose|i: int, j: int|
            0 <= i < crate::fingerprint::platform_count() && 0 <= j
                < crate::fingerprint::version_count() && crate::fingerprint::fp_from_catalog(
                s.fingerprint,
                i,
                j,
            );
        reveal_strlit("120");
        reveal_strlit("119");
        reveal_strlit("121");
        reveal_strlit("118");
        assert(vstd::utf8::is_ascii_chars(s.fingerprint.chrome_major@));
    }
    let mut p = ascii_bytes(s.fingerprint.chrome_major.as_str());
    let colon = ascii_bytes(":");
    push_all(&mut p, colon.as_slice());
    let d1 = u64_dec(r1);
    push_all(&mut p, d1.as_slice());
    push_all(&mut p, colon.as_slice());
    let dw = u64_dec(s.fingerprint.viewport_width as u64);
    push_all(&mut p, dw.as_slice());
    push_all(&mut p, colon.as_slice());
    let dh = u64_dec(s.fingerprint.viewport_height as u64);
    push_all(&mut p, dh.as_slice());
    push_all(&mut p, colon.as_slice());
    let d2 = u64_dec(r2);
    push_all(&mut p, d2.as_slice());
    p
}

/// Synthesize the ordered header list for the given draws.
pub fn synthesize_with(session: &Session, target_url: &[u8], is_mobile: bool, r1: u64, r2: u64) -> (
    r: Vec<(String, String)>)
    requires
        crate::session::session_wf(*session),
        1000 <= r1 < 10000,
        100 <= r2 < 1000,
    ensures
        header_views(r@) == spec_headers(*session, target_url@, is_mobile, r1, r2),
        forall|i: int| 0 <= i < r@.len() ==> !spec_is_hop_by_hop(#[trigger] r@[i].0@),
{
    let protected = is_protected_origin(target_url);
    let revisit = has_visited_protected(session);
    let referer = protected && revisit;
    let mut r: Vec<(String, String)> = Vec::new();
    r.push(
        (
            String::from_str("Accept"),
            String::from_str(
                "text/html,application/xhtml+xml,application/xml;q=0.9,image/avif,image/webp,image/apng,*/*;q=0.8,application/signed-exchange;v=b3;q=0.7",
            ),
        ),
    );
    r.push((String::from_str("Accept-Encoding"), String::from_str("gzip, deflate, br")));
    r.push((String::from_str("Accept-Language"), String::from_str("en-US,en;q=0.9")));
    r.push((String::from_str("Sec-Ch-Ua"), session.fingerprint.sec_ch_ua.clone()));
    r.push(
        (
            String::from_str("Sec-Ch-Ua-Mobile"),
            if is_mobile {
                String::from_str("?1")
            } else {
                session.fingerprint.sec_ch_ua_mobile.clone()
            },
        ),
    );
    r.push((String::from_str("Sec-Ch-Ua-Platform"), session.fingerprint.sec_ch_ua_platform.clone()));
    r.push((String::from_str("Sec-Fetch-Dest"), String::from_str("document")));
    r.push((String::from_str("Sec-Fetch-Mode"), String::from_str("navigate")));
    r.push(
        (
            String::from_str("Sec-Fetch-Site"),
            if referer {
                String::from_str("same-origin")
            } else {
                String::from_str("none")
            },
        ),
    );
    r.push((String::from_str("Sec-Fetch-User"), String::from_str("?1")));
    r.push((String::from_str("Upgrade-Insecure-Requests"), String::from_str("1")));
    r.push((String::from_str("User-Agent"), session.fingerprint.user_agent.clone()));
    if referer {
        r.push((String::from_str("Referer"), String::from_str("https://www.google.com/")));
    }
    if protected {
        let payload = client_data_payload(session, r1, r2);
        let token = b64_encode(payload.as_slice());
        r.push((String::from_str("X-Client-Data"), token));
        if revisit {
            r.push((String::from_str("X-Same-Domain"), String::from_str("1")));
        }
    }
    if session.request_count > 1 {
        r.push((String::from_str("Cache-Control"), String::from_str("max-age=0")));
    }
    proof {
        assert(header_views(r@) =~~= spec_headers(*session, target_url@, is_mobile, r1, r2));
        reveal_strlit("Accept");
        reveal_strlit("Accept-Encoding");
        reveal_strlit("Accept-Language");
        reveal_strlit("Sec-Ch-Ua");
        reveal_strlit("Sec-Ch-Ua-Mobile");
        reveal_strlit("Sec-Ch-Ua-Platform");
        reveal_strlit("Sec-Fetch-Dest");
        reveal_strlit("Sec-Fetch-Mode");
        reveal_strlit("Sec-Fetch-Site");
        reveal_strlit("Sec-Fetch-User");
        reveal_strlit("Upgrade-Insecure-Requests");
        reveal_strlit("User-Agent");
        reveal_strlit("Referer");
        reveal_strlit("X-Client-Data");
        reveal_strlit("X-Same-Domain");
        reveal_strlit("Cache-Control");
        reveal_strlit("connection");
        reveal_strlit("proxy-connection");
        reveal_strlit("te");
        reveal_strlit("trailer");
        reveal_strlit("transfer-encoding");
        reveal_strlit("upgrade");
        reveal_strlit("keep-alive");
        reveal_strlit("proxy-authenticate");
        reveal_strlit("proxy-authorization");
        assert("Accept"@.len() == 6);
        assert("Accept-Encoding"@.len() == 15);
        assert("Accept-Language"@.len() == 15);
        assert("Sec-Ch-Ua"@.len() == 9);
        assert("Sec-Ch-Ua-Mobile"@.len() == 16);
        assert("Sec-Ch-Ua-Platform"@.len() == 18);
        assert("Sec-Fetch-Dest"@.len() == 14);
        assert("Sec-Fetch-Mode"@.len() == 14);
        assert("Sec-Fetch-Site"@.len() == 14);
        assert("Sec-Fetch-User"@.len() == 14);
        assert("Upgrade-Insecure-Requests"@.len() == 25);
        assert("User-Agent"@.len() == 10);
        assert("Referer"@.len() == 7);
        assert("X-Client-Data"@.len() == 13);
        assert("X-Same-Domain"@.len() == 13);
        assert("Cache-Control"@.len() == 13);
        assert("connection"@.len() == 10);
        assert("proxy-connection"@.len() == 16);
        assert("te"@.len() == 2);
        assert("trailer"@.len() == 7);
        assert("transfer-encoding"@.len() == 17);
        assert("upgrade"@.len() == 7);
        assert("keep-alive"@.len() == 10);
        assert("proxy-authenticate"@.len() == 18);
        assert("proxy-authorization"@.len() == 19);
        assert("User-Agent"@[0] != "connection"@[0]);
        assert("User-Agent"@[0] != "keep-alive"@[0]);
        assert("Referer"@[0] != "trailer"@[0]);
        assert("Referer"@[0] != "upgrade"@[0]);
        assert("Sec-Ch-Ua-Mobile"@[0] != "proxy-connection"@[0]);
        assert("Sec-Ch-Ua-Platform"@[0] != "proxy-authenticate"@[0]);
        assert forall|i: int| 0 <= i < r@.len() implies !spec_is_hop_by_hop(
            #[trigger] r@[i].0@,
        ) by {
            assert(r@[i].0@ == "Accept"@ || r@[i].0@ == "Accept-Encoding"@ || r@[i].0@
                == "Accept-Language"@ || r@[i].0@ == "Sec-Ch-Ua"@ || r@[i].0@
                == "Sec-Ch-Ua-Mobile"@ || r@[i].0@ == "Sec-Ch-Ua-Platform"@ || r@[i].0@
                == "Sec-Fetch-Dest"@ || r@[i].0@ == "Sec-Fetch-Mode"@ || r@[i].0@
                == "Sec-Fetch-Site"@ || r@[i].0@ == "Sec-Fetch-User"@ || r@[i].0@
                == "Upgrade-Insecure-Requests"@ || r@[i].0@ == "User-Agent"@ || r@[i].0@
                == "Referer"@ || r@[i].0@ == "X-Client-Data"@ || r@[i].0@ == "X-Same-Domain"@
                || r@[i].0@ == "Cache-Control"@);
        }
    }
    r
}

/// Synthesize the ordered header list, drawing the session-scoped
/// randomness of the X-Client-Data token.
pub fn synthesize(session: &Session, target_url: &[u8], is_mobile: bool) -> (r: Vec<
    (String, String),
>)
    requires
        crate::session::session_wf(*session),
    ensures
        exists|r1: u64, r2: u64|
            1000 <= r1 < 10000 && 100 <= r2 < 1000 && header_views(r@) == spec_headers(
                *session,
                target_url@,
                is_mobile,
                r1,
                r2,
            ),
        forall|i: int| 0 <= i < r@.len() ==> !spec_is_hop_by_hop(#[trigger] r@[i].0@),
{
    let r1 = random_u64_range(1000, 10000);
    let r2 = random_u64_range(100, 1000);
    synthesize_with(session, target_url, is_mobile, r1, r2)
}

} // verus!
