//! Per-request planning: target validation, the flags that drive the
//! simulator and the retry controller, the response-header filter, and
//! the synthetic forwarded-IP chain.

use crate::bytes::{ascii_bytes, ascii_of, bytes_eq, contains_bytes, dec_val, all_digits, parse_u8_dec, push_all, spec_contains_bytes, spec_dec, spec_find, find_first, sub_vec, u64_dec};
use crate::headers::spec_is_protected_origin;
use crate::retry::spec_max_attempts;
use crate::rng::random_u64_range;
use vstd::prelude::*;

verus! {

/// Why an inbound request is rejected before any upstream work.
#[derive(Clone, Copy, Debug, PartialEq, Eq, Structural)]
pub enum ValidationError {
    /// The target URL parameter is missing or empty.
    MissingUrl,
}

/// The per-request decisions taken before anything is sent.
#[derive(Clone, Copy, Debug, PartialEq, Eq, Structural)]
pub struct RequestPlan {
    /// The target belongs to the protected-origin class.
    pub protected: bool,
    /// The target is a search against the protected origin.
    pub is_search: bool,
    /// The retry controller's attempt cap for this target.
    pub max_attempts: u32,
}

/// Validate a target URL and fix the request's plan: empty targets are
/// rejected; protected targets get the simulator and the full attempt
/// cap, all others a single attempt.
pub fn plan_request(url: &[u8]) -> (r: Result<RequestPlan, ValidationError>)
    ensures
        r is Ok <==> url@.len() > 0,
        url@.len() == 0 ==> r == Err::<RequestPlan, ValidationError>(ValidationError::MissingUrl),
        r matches Ok(p) ==> {
            &&& p.protected == spec_is_protected_origin(url@)
            &&& p.is_search == (spec_is_protected_origin(url@) && spec_contains_bytes(
                url@,
                ascii_of("/search"@),
            ))
            &&& p.max_attempts == spec_max_attempts(p.protected)
        },
{
    if url.len() == 0 {
        return Err(ValidationError::MissingUrl);
    }
    proof {
        reveal_strlit("/search");
    }
    let protected = crate::headers::is_protected_origin(url);
    let search_marker = ascii_bytes("/search");
    let is_search = protected && contains_bytes(url, search_marker.as_slice());
    let max_attempts = crate::retry::max_attempts(protected);
    Ok(RequestPlan { protected, is_search, max_attempts })
}

/// ASCII lower-casing of a byte string.
pub open spec fn spec_ascii_lower(s: Seq<u8>) -> Seq<u8> {
    Seq::new(
        s.len(),
        |i: int|
            if 0x41 <= s[i] <= 0x5a {
                (s[i] + 32) as u8
            } else {
                s[i]
            },
    )
}

/// Lower-case the ASCII letters of a byte string.
pub fn ascii_lower(s: &[u8]) -> (r: Vec<u8>)
    ensures
        r@ == spec_ascii_lower(s@),
{
    let n = s.len();
    let mut r: Vec<u8> = Vec::new();
    let mut i: usize = 0;
    while i < n
        invariant
            n == s@.len(),
            i <= n,
            r@.len() == i,
            forall|j: int| 0 <= j < i ==> r@[j] == spec_ascii_lower(s@)[j],
        decreases n - i,
    {
        let b = s[i];
        if b >= 0x41 && b <= 0x5a {
            r.push(b + 32);
        } else {
            r.push(b);
        }
        i += 1;
    }
    assert(r@ =~= spec_ascii_lower(s@));
    r
}

/// Whether an upstream response header may be forwarded to the client:
/// everything except the hop-by-hop set and the content encoding the
/// transport already undid.
pub open spec fn spec_response_header_forwarded(name: Seq<u8>) -> bool {
    let l = spec_ascii_lower(name);
    !(l == ascii_of("connection"@) || l == ascii_of("proxy-connection"@) || l == ascii_of("te"@)
        || l == ascii_of("trailer"@) || l == ascii_of("transfer-encoding"@) || l == ascii_of(
        "upgrade"@,
    ) || l == ascii_of("content-encoding"@))
}

/// Decide whether a response header of the upstream is forwarded.
pub fn response_header_forwarded(name: &[u8]) -> (r: bool)
    ensures
        r == spec_response_header_forwarded(name@),
{
    proof {
        reveal_strlit("connection");
        reveal_strlit("proxy-connection");
        reveal_strlit("te");
        reveal_strlit("trailer");
        reveal_strlit("transfer-encoding");
        reveal_strlit("upgrade");
        reveal_strlit("content-encoding");
    }
    let l = ascii_lower(name);
    let c1 = ascii_bytes("connection");
    let c2 = ascii_bytes("proxy-connection");
    let c3 = ascii_bytes("te");
    let c4 = ascii_bytes("trailer");
    let c5 = ascii_bytes("transfer-encoding");
    let c6 = ascii_bytes("upgrade");
    let c7 = ascii_bytes("content-encoding");
    !(bytes_eq(l.as_slice(), c1.as_slice()) || bytes_eq(l.as_slice(), c2.as_slice()) || bytes_eq(
        l.as_slice(),
        c3.as_slice(),
    ) || bytes_eq(l.as_slice(), c4.as_slice()) || bytes_eq(l.as_slice(), c5.as_slice())
        || bytes_eq(l.as_slice(), c6.as_slice()) || bytes_eq(l.as_slice(), c7.as_slice()))
}

/// The synthetic-IP catalog: a dotted prefix and the inclusive ranges of
/// the first two generated octets (the third is always drawn from the
/// full host range).
pub open spec fn ip_range_entry(i: int) -> (Seq<char>, u64, u64, u64, u64) {
    if i == 0 {
        ("192.168."@, 1u64, 255u64, 1u64, 254u64)
    } else if i == 1 {
        ("10."@, 0u64, 255u64, 0u64, 255u64)
    } else if i == 2 {
        ("172."@, 16u64, 31u64, 0u64, 255u64)
    } else if i == 3 {
        ("203."@, 0u64, 255u64, 0u64, 255u64)
    } else if i == 4 {
        ("74."@, 125u64, 127u64, 0u64, 255u64)
    } else {
        ("98."@, 138u64, 140u64, 0u64, 255u64)
    }
}

/// A synthetic address drawn from catalog entry `idx`.
pub open spec fn spec_range_ip(idx: int, o1: u64, o2: u64, o3: u64) -> Seq<u8> {
    ascii_of(ip_range_entry(idx).0) + spec_dec(o1 as nat) + ascii_of("."@) + spec_dec(o2 as nat)
        + ascii_of("."@) + spec_dec(o3 as nat)
}

/// A dotted-quad address from its four octets.
pub open spec fn spec_dotted(a: u8, b: u8, c: u8, d: u8) -> Seq<u8> {
    spec_dec(a as nat) + ascii_of("."@) + spec_dec(b as nat) + ascii_of("."@) + spec_dec(c as nat)
        + ascii_of("."@) + spec_dec(d as nat)
}

/// The four octets of a dotted-quad address, when the text is exactly
/// four all-digit parts, each fitting a byte.
pub open spec fn spec_parse_ipv4(o: Seq<u8>) -> Option<(u8, u8, u8, u8)> {
    let dot = ascii_of("."@);
    match spec_find(o, dot) {
        None => None,
        Some(i) => {
            let p1 = o.subrange(0, i);
            let r1 = o.skip(i + 1);
            match spec_find(r1, dot) {
                None => None,
                Some(j) => {
                    let p2 = r1.subrange(0, j);
                    let r2 = r1.skip(j + 1);
                    match spec_find(r2, dot) {
                        None => None,
                        Some(k) => {
                            let p3 = r2.subrange(0, k);
                            let p4 = r2.skip(k + 1);
                            if spec_find(p4, dot) is Some {
                                None
                            } else {
                                match (
                                    spec_parse_u8(p1),
                                    spec_parse_u8(p2),
                                    spec_parse_u8(p3),
                                    spec_parse_u8(p4),
                                ) {
                                    (Some(a), Some(b), Some(c), Some(d)) => Some((a, b, c, d)),
                                    _ => None,
                                }
                            }
                        },
                    }
                },
            }
        },
    }
}

/// A byte value from its decimal text, where the text is non-empty, all
/// digits, and in range.
pub open spec fn spec_parse_u8(s: Seq<u8>) -> Option<u8> {
    if s.len() > 0 && all_digits(s) && dec_val(s) <= 255 {
        Some(dec_val(s) as u8)
    } else {
        None
    }
}

/// A lightly disguised variant of a real address: the last octet moves
/// by `delta`, wrapping; anything that is not a dotted quad stays as it
/// is.
pub open spec fn spec_tweak_ip(o: Seq<u8>, delta: u8) -> Seq<u8> {
    match spec_parse_ipv4(o) {
        Some(q) => spec_dotted(q.0, q.1, q.2, ((q.3 + delta) % 256) as u8),
        None => o,
    }
}

/// Append the decimal text of one octet value.
fn push_dec(out: &mut Vec<u8>, v: u64)
    ensures
        final(out)@ == old(out)@ + spec_dec(v as nat),
{
    let d = u64_dec(v);
    push_all(out, d.as_slice());
}

/// Tweak a real address: move its last octet by `delta`, wrapping, and
/// leave anything that is not a dotted quad unchanged.
pub fn tweak_ip(original: &[u8], delta: u8) -> (r: Vec<u8>)
    ensures
        r@ == spec_tweak_ip(original@, delta),
{
    proof {
        reveal_strlit(".");
    }
    let dot = ascii_bytes(".");
    let ol = original.len();
    let unchanged = sub_vec(original, 0, ol);
    let i = match find_first(original, dot.as_slice()) {
        Some(i) => i,
        None => {
            return unchanged;
        },
    };
    proof {
        crate::bytes::lemma_spec_find_leftmost(original@, dot@);
    }
    let p1 = sub_vec(original, 0, i);
    let r1 = sub_vec(original, i + 1, ol);
    assert(r1@ =~= original@.skip(i + 1));
    let j = match find_first(r1.as_slice(), dot.as_slice()) {
        Some(j) => j,
        None => {
            return unchanged;
        },
    };
    proof {
        crate::bytes::lemma_spec_find_leftmost(r1@, dot@);
    }
    let p2 = sub_vec(r1.as_slice(), 0, j);
    let r2 = sub_vec(r1.as_slice(), j + 1, r1.len());
    assert(r2@ =~= r1@.skip(j + 1));
    let k = match find_first(r2.as_slice(), dot.as_slice()) {
        Some(k) => k,
        None => {
            return unchanged;
        },
    };
    proof {
        crate::bytes::lemma_spec_find_leftmost(r2@, dot@);
    }
    let p3 = sub_vec(r2.as_slice(), 0, k);
    let p4 = sub_vec(r2.as_slice(), k + 1, r2.len());
    assert(p4@ =~= r2@.skip(k + 1));
    if find_first(p4.as_slice(), dot.as_slice()).is_some() {
        return unchanged;
    }
    let a = match parse_u8_dec(p1.as_slice()) {
        Some(v) => v,
        None => {
            return unchanged;
        },
    };
    let b = match parse_u8_dec(p2.as_slice()) {
        Some(v) => v,
        None => {
            return unchanged;
        },
    };
    let c = match parse_u8_dec(p3.as_slice()) {
        Some(v) => v,
        None => {
            return unchanged;
        },
    };
    let d = match parse_u8_dec(p4.as_slice()) {
        Some(v) => v,
        None => {
            return unchanged;
        },
    };
    let d2 = ((d as u64 + delta as u64) % 256) as u8;
    let mut out: Vec<u8> = Vec::new();
    push_dec(&mut out, a as u64);
    push_all(&mut out, dot.as_slice());
    push_dec(&mut out, b as u64);
    push_all(&mut out, dot.as_slice());
    push_dec(&mut out, c as u64);
    push_all(&mut out, dot.as_slice());
    push_dec(&mut out, d2 as u64);
    assert(out@ =~= spec_dotted(a, b, c, d2));
    out
}

/// Build a synthetic address from catalog entry `idx` and three octet
/// draws.
pub fn range_ip(idx: usize, o1: u64, o2: u64, o3: u64) -> (r: Vec<u8>)
    requires
        idx < 6,
    ensures
        r@ == spec_range_ip(idx as int, o1, o2, o3),
{
    proof {
        reveal_strlit("192.168.");
        reveal_strlit("10.");
        reveal_strlit("172.");
        reveal_strlit("203.");
        reveal_strlit("74.");
        reveal_strlit("98.");
        reveal_strlit(".");
    }
    let prefix: &str = if idx == 0 {
        "192.168."
    } else if idx == 1 {
        "10."
    } else if idx == 2 {
        "172."
    } else if idx == 3 {
        "203."
    } else if idx == 4 {
        "74."
    } else {
        "98."
    };
    let mut out = ascii_bytes(prefix);
    let dot = ascii_bytes(".");
    push_dec(&mut out, o1);
    push_all(&mut out, dot.as_slice());
    push_dec(&mut out, o2);
    push_all(&mut out, dot.as_slice());
    push_dec(&mut out, o3);
    assert(out@ =~= spec_range_ip(idx as int, o1, o2, o3));
    out
}

/// A well-formed synthetic forwarded address: drawn jointly from one
/// catalog entry, or the real address with its last octet nudged.
pub open spec fn spec_forwarded_ip_ok(original: Seq<u8>, r: Seq<u8>) -> bool {
    ||| exists|idx: int, o1: u64, o2: u64, o3: u64|
        #![auto]
        {
            &&& 0 <= idx < 6
            &&& ip_range_entry(idx).1 <= o1 <= ip_range_entry(idx).2
            &&& ip_range_entry(idx).3 <= o2 <= ip_range_entry(idx).4
            &&& 1 <= o3 <= 254
            &&& r == spec_range_ip(idx, o1, o2, o3)
        }
    ||| exists|delta: u8| #![auto] delta < 5 && r == spec_tweak_ip(original, delta)
}

/// Synthesize the forwarded-for address for an outbound request: most of
/// the time an address drawn jointly from one catalog entry, otherwise
/// the caller's real address with its last octet nudged.
pub fn generate_forwarded_ip(original: &[u8]) -> (r: Vec<u8>)
    ensures
        spec_forwarded_ip_ok(original@, r@),
{
    let pick = random_u64_range(0, 10);
    if pick < 8 {
        let idx = random_u64_range(0, 6) as usize;
        let (lo1, hi1, lo2, hi2): (u64, u64, u64, u64) = if idx == 0 {
            (1, 255, 1, 254)
        } else if idx == 1 {
            (0, 255, 0, 255)
        } else if idx == 2 {
            (16, 31, 0, 255)
        } else if idx == 3 {
            (0, 255, 0, 255)
        } else if idx == 4 {
            (125, 127, 0, 255)
        } else {
            (138, 140, 0, 255)
        };
        let o1 = random_u64_range(lo1, hi1 + 1);
        let o2 = random_u64_range(lo2, hi2 + 1);
        let o3 = random_u64_range(1, 255);
        let out = range_ip(idx, o1, o2, o3);
        proof {
            assert(ip_range_entry(idx as int).1 <= o1 <= ip_range_entry(idx as int).2);
            assert(ip_range_entry(idx as int).3 <= o2 <= ip_range_entry(idx as int).4);
            assert(out@ == spec_range_ip(idx as int, o1, o2, o3));
        }
        out
    } else {
        let delta = random_u64_range(0, 5) as u8;
        let out = tweak_ip(original, delta);
        proof {
            assert(out@ == spec_tweak_ip(original@, delta));
        }
        out
    }
}

} // verus!
