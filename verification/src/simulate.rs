//! The behavioural simulator's plan.  Before a real request against the
//! protected origin, the engine runs a scripted warm-up: a homepage load
//! with browser-resource fetches for a first visit, and incremental
//! type-ahead suggestion queries for a search.  The plan — which URLs to
//! fetch, with what pacing — is computed here; issuing the requests and
//! sleeping the delays is the caller's part.

use crate::bytes::{ascii_bytes, ascii_of, contains_bytes, find_first, pct_decode, pct_encode, push_all, spec_contains_bytes, spec_find, spec_pct_decode, spec_pct_encode, sub_vec};
use crate::headers::{has_visited_protected, is_protected_origin, spec_has_visited_protected, spec_is_protected_origin};
use crate::session::Session;
use vstd::prelude::*;

verus! {

/// One scripted warm-up request: the URL to fetch, whether to send it
/// with a homepage referer, and the delay range to sleep afterwards.
pub struct SimStep {
    pub url: Vec<u8>,
    pub with_referer: bool,
    pub delay_lo_ms: u64,
    pub delay_hi_ms: u64,
}

/// The whole warm-up: scripted requests, then one last pause before the
/// real request goes out.
pub struct SimPlan {
    pub steps: Vec<SimStep>,
    pub final_delay: Option<(u64, u64)>,
}

/// The views of an exec step list.
pub open spec fn step_views(v: Seq<SimStep>) -> Seq<(Seq<u8>, bool, u64, u64)> {
    Seq::new(v.len(), |i: int| (v[i].url@, v[i].with_referer, v[i].delay_lo_ms, v[i].delay_hi_ms))
}

/// The search query carried by `url`: the text after the first `q=` up
/// to the next `&`, when the URL is a search URL and that text is
/// non-empty.
pub open spec fn spec_extract_query(url: Seq<u8>) -> Option<Seq<u8>> {
    if !spec_contains_bytes(url, ascii_of("/search?q="@)) {
        None
    } else {
        match spec_find(url, ascii_of("q="@)) {
            Some(i) => {
                let rest = url.skip(i + 2);
                let q = match spec_find(rest, ascii_of("&"@)) {
                    Some(e) => rest.subrange(0, e),
                    None => rest,
                };
                if q.len() == 0 {
                    None
                } else {
                    Some(q)
                }
            },
            None => None,
        }
    }
}

/// Extract the search query from `url`, if it carries one.
pub fn extract_query(url: &[u8]) -> (r: Option<Vec<u8>>)
    ensures
        match r {
            Some(q) => spec_extract_query(url@) == Some(q@),
            None => spec_extract_query(url@) is None,
        },
{
    proof {
        reveal_strlit("/search?q=");
        reveal_strlit("q=");
        reveal_strlit("&");
    }
    let gate = ascii_bytes("/search?q=");
    if !contains_bytes(url, gate.as_slice()) {
        return None;
    }
    let marker = ascii_bytes("q=");
    match find_first(url, marker.as_slice()) {
        None => None,
        Some(i) => {
            let ul = url.len();
            proof {
                crate::bytes::lemma_spec_find_leftmost(url@, marker@);
                assert(i + 2 <= ul);
            }
            let rest = sub_vec(url, i + 2, ul);
            assert(rest@ =~= url@.skip(i + 2));
            let amp = ascii_bytes("&");
            let q = match find_first(rest.as_slice(), amp.as_slice()) {
                Some(e) => {
                    proof {
                        crate::bytes::lemma_spec_find_leftmost(rest@, amp@);
                    }
                    sub_vec(rest.as_slice(), 0, e)
                },
                None => rest,
            };
            if q.len() == 0 {
                None
            } else {
                Some(q)
            }
        },
    }
}

/// The autocomplete URL for a typed prefix of the decoded query.
pub open spec fn spec_suggestion_url(decoded: Seq<u8>, i: int) -> Seq<u8> {
    ascii_of("https://www.google.com/complete/search?q="@) + spec_pct_encode(
        decoded.subrange(0, i),
    ) + ascii_of("&client=gws-wiz&xssi=t&gs_ri=gws-wiz&hl=en&authuser=0"@)
}

/// The type-ahead steps from prefix length `i` on: one suggestion fetch
/// for every second character beyond the second, at typing pace.
pub open spec fn spec_suggestion_steps(decoded: Seq<u8>, i: int) -> Seq<(Seq<u8>, bool, u64, u64)>
    decreases decoded.len() + 1 - i,
{
    if i > decoded.len() || i < 0 {
        Seq::empty()
    } else {
        (if i > 2 && i % 2 == 0 {
            seq![(spec_suggestion_url(decoded, i), true, 150u64, 400u64)]
        } else {
            Seq::empty()
        }) + spec_suggestion_steps(decoded, i + 1)
    }
}

/// A first visit's warm-up: the homepage at reading pace, then a favicon
/// and a branding asset at resource pace.
pub open spec fn spec_home_steps() -> Seq<(Seq<u8>, bool, u64, u64)> {
    seq![
        (ascii_of("https://www.google.com/"@), false, 1500u64, 3000u64),
        (ascii_of("https://www.google.com/favicon.ico"@), true, 100u64, 500u64),
        (
            ascii_of(
                "https://www.google.com/images/branding/googleg/1x/googleg_standard_color_128dp.png"@,
            ),
            true,
            100u64,
            500u64,
        ),
    ]
}

/// The whole plan: nothing away from the protected origin; a homepage
/// warm-up for a session that has never visited it; type-ahead steps and
/// a final pause for a search.
pub open spec fn spec_sim_plan(s: Session, url: Seq<u8>) -> (
    Seq<(Seq<u8>, bool, u64, u64)>,
    Option<(u64, u64)>,
) {
    if !spec_is_protected_origin(url) {
        (Seq::empty(), None)
    } else {
        let home = if !spec_has_visited_protected(s) {
            spec_home_steps()
        } else {
            Seq::empty()
        };
        match spec_extract_query(url) {
            Some(q) => (
                home + spec_suggestion_steps(spec_pct_decode(q), 1),
                Some((500u64, 1500u64)),
            ),
            None => (home, None),
        }
    }
}

/// Compute the warm-up plan for a request from `session` to `target_url`.
pub fn plan_simulation(session: &Session, target_url: &[u8]) -> (r: SimPlan)
    ensures
        step_views(r.steps@) == spec_sim_plan(*session, target_url@).0,
        r.final_delay == spec_sim_plan(*session, target_url@).1,
{
    let mut steps: Vec<SimStep> = Vec::new();
    if !is_protected_origin(target_url) {
        assert(step_views(steps@) =~~= spec_sim_plan(*session, target_url@).0);
        return SimPlan { steps, final_delay: None };
    }
    proof {
        reveal_strlit("https://www.google.com/");
        reveal_strlit("https://www.google.com/favicon.ico");
        reveal_strlit(
            "https://www.google.com/images/branding/googleg/1x/googleg_standard_color_128dp.png",
        );
    }
    let ghost home: Seq<(Seq<u8>, bool, u64, u64)> = if !spec_has_visited_protected(*session) {
        spec_home_steps()
    } else {
        Seq::empty()
    };
    if !has_visited_protected(session) {
        steps.push(
            SimStep {
                url: ascii_bytes("https://www.google.com/"),
                with_referer: false,
                delay_lo_ms: 1500,
                delay_hi_ms: 3000,
            },
        );
        steps.push(
            SimStep {
                url: ascii_bytes("https://www.google.com/favicon.ico"),
                with_referer: true,
                delay_lo_ms: 100,
                delay_hi_ms: 500,
            },
        );
        steps.push(
            SimStep {
                url: ascii_bytes(
                    "https://www.google.com/images/branding/googleg/1x/googleg_standard_color_128dp.png",
                ),
                with_referer: true,
                delay_lo_ms: 100,
                delay_hi_ms: 500,
            },
        );
    }
    assert(step_views(steps@) =~~= home);
    let final_delay: Option<(u64, u64)> = match extract_query(target_url) {
        None => {
            assert(step_views(steps@) =~~= spec_sim_plan(*session, target_url@).0);
            None
        },
        Some(q) => {
            let decoded = pct_decode(q.as_slice());
            let n = decoded.len();
            let mut i: usize = 0;
            while i < n
                invariant
                    n == decoded@.len(),
                    i <= n,
                    home == (if !spec_has_visited_protected(*session) {
                        spec_home_steps()
                    } else {
                        Seq::<(Seq<u8>, bool, u64, u64)>::empty()
                    }),
                    home + spec_suggestion_steps(decoded@, 1) =~~= step_views(steps@)
                        + spec_suggestion_steps(decoded@, i + 1),
                decreases n - i,
            {
                proof {
                    reveal_strlit("https://www.google.com/complete/search?q=");
                    reveal_strlit("&client=gws-wiz&xssi=t&gs_ri=gws-wiz&hl=en&authuser=0");
                }
                let pl = i + 1;
                if pl > 2 && pl % 2 == 0 {
                    let prefix = sub_vec(decoded.as_slice(), 0, pl);
                    let encoded = pct_encode(prefix.as_slice());
                    let mut u = ascii_bytes("https://www.google.com/complete/search?q=");
                    push_all(&mut u, encoded.as_slice());
                    let tail = ascii_bytes("&client=gws-wiz&xssi=t&gs_ri=gws-wiz&hl=en&authuser=0");
                    push_all(&mut u, tail.as_slice());
                    assert(u@ =~= spec_suggestion_url(decoded@, pl as int));
                    steps.push(
                        SimStep { url: u, with_referer: true, delay_lo_ms: 150, delay_hi_ms: 400 },
                    );
                }
                proof {
                    assert(step_views(steps@) + spec_suggestion_steps(decoded@, pl + 1) =~~= home
                        + spec_suggestion_steps(decoded@, 1));
                }
                i = pl;
            }
            proof {
                assert(spec_suggestion_steps(decoded@, i + 1) =~~= Seq::<
                    (Seq<u8>, bool, u64, u64),
                >::empty());
                assert(step_views(steps@) =~~= home + spec_suggestion_steps(decoded@, 1));
                assert(step_views(steps@) =~~= spec_sim_plan(*session, target_url@).0);
            }
            Some((500, 1500))
        },
    };
    SimPlan { steps, final_delay }
}

/// The upstream token the homepage sometimes carries: the text between
/// the provider's token marker and the next quote.
pub open spec fn spec_fpb_token(body: Seq<u8>) -> Option<Seq<u8>> {
    match spec_find(body, ascii_of("\"FPB\":\""@)) {
        Some(i) => {
            let rest = body.skip(i + 7);
            match spec_find(rest, ascii_of("\""@)) {
                Some(e) => Some(rest.subrange(0, e)),
                None => None,
            }
        },
        None => None,
    }
}

/// Extract the provider token from a homepage body, if one is present.
pub fn extract_fpb_token(body: &[u8]) -> (r: Option<Vec<u8>>)
    ensures
        match r {
            Some(t) => spec_fpb_token(body@) == Some(t@),
            None => spec_fpb_token(body@) is None,
        },
{
    proof {
        reveal_strlit("\"FPB\":\"");
        reveal_strlit("\"");
    }
    let marker = ascii_bytes("\"FPB\":\"");
    match find_first(body, marker.as_slice()) {
        None => None,
        Some(i) => {
            let bl = body.len();
            proof {
                crate::bytes::lemma_spec_find_leftmost(body@, marker@);
                assert(i + 7 <= bl);
            }
            let rest = sub_vec(body, i + 7, bl);
            assert(rest@ =~= body@.skip(i + 7));
            let quote = ascii_bytes("\"");
            match find_first(rest.as_slice(), quote.as_slice()) {
                Some(e) => {
                    proof {
                        crate::bytes::lemma_spec_find_leftmost(rest@, quote@);
                    }
                    Some(sub_vec(rest.as_slice(), 0, e))
                },
                None => None,
            }
        },
    }
}

} // verus!
