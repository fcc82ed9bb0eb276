//! Anti-bot response classification.  A response body is inspected, in a
//! fixed order, for CAPTCHA markers, automated-traffic warnings, forced
//! redirect challenges and genuine result content, and the session's
//! counters follow the verdict.

use crate::bytes::{ascii_bytes, ascii_of, contains_bytes, spec_contains_bytes};
use crate::session::{session_wf, spec_bump_captcha, spec_bump_success, Session};
use vstd::prelude::*;

verus! {

/// Verdict over a response body.
#[derive(Clone, Copy, Debug, PartialEq, Eq, Structural)]
pub enum Classification {
    /// The body carries an anti-bot challenge.
    Challenge,
    /// The body carries genuine result content.
    Success,
    /// Neither was found.
    Neutral,
}

/// A CAPTCHA marker, in either letter case the upstream uses.
pub open spec fn has_captcha_marker(b: Seq<u8>) -> bool {
    spec_contains_bytes(b, ascii_of("captcha"@)) || spec_contains_bytes(b, ascii_of("CAPTCHA"@))
}

/// A warning about automated traffic.
pub open spec fn has_automation_marker(b: Seq<u8>) -> bool {
    spec_contains_bytes(b, ascii_of("unusual traffic"@)) || spec_contains_bytes(
        b,
        ascii_of("automated"@),
    )
}

/// A forced-redirect challenge page.
pub open spec fn has_redirect_marker(b: Seq<u8>) -> bool {
    spec_contains_bytes(b, ascii_of("Please click"@)) && spec_contains_bytes(
        b,
        ascii_of("redirected"@),
    )
}

/// Markers of genuine result content.
pub open spec fn has_success_marker(b: Seq<u8>) -> bool {
    spec_contains_bytes(b, ascii_of("<h3"@)) || spec_contains_bytes(b, ascii_of("search-result"@))
}

/// Classification of a body, the detection rules applied in order.
pub open spec fn spec_classify(b: Seq<u8>) -> Classification {
    if has_captcha_marker(b) {
        Classification::Challenge
    } else if has_automation_marker(b) {
        Classification::Challenge
    } else if has_redirect_marker(b) {
        Classification::Challenge
    } else if has_success_marker(b) {
        Classification::Success
    } else {
        Classification::Neutral
    }
}

/// Classify a response body without touching any session.
pub fn classify(body: &[u8]) -> (r: Classification)
    ensures
        r == spec_classify(body@),
{
    proof {
        reveal_strlit("captcha");
        reveal_strlit("CAPTCHA");
        reveal_strlit("unusual traffic");
        reveal_strlit("automated");
        reveal_strlit("Please click");
        reveal_strlit("redirected");
        reveal_strlit("<h3");
        reveal_strlit("search-result");
    }
    let captcha_lower = ascii_bytes("captcha");
    let captcha_upper = ascii_bytes("CAPTCHA");
    if contains_bytes(body, captcha_lower.as_slice()) || contains_bytes(
        body,
        captcha_upper.as_slice(),
    ) {
        return Classification::Challenge;
    }
    let unusual = ascii_bytes("unusual traffic");
    let automated = ascii_bytes("automated");
    if contains_bytes(body, unusual.as_slice()) || contains_bytes(body, automated.as_slice()) {
        return Classification::Challenge;
    }
    let click = ascii_bytes("Please click");
    let redirected = ascii_bytes("redirected");
    if contains_bytes(body, click.as_slice()) && contains_bytes(body, redirected.as_slice()) {
        return Classification::Challenge;
    }
    let h3 = ascii_bytes("<h3");
    let result_marker = ascii_bytes("search-result");
    if contains_bytes(body, h3.as_slice()) || contains_bytes(body, result_marker.as_slice()) {
        return Classification::Success;
    }
    Classification::Neutral
}

/// Classify a response body and let the session's counters follow: a
/// CAPTCHA marker raises the CAPTCHA counter, a success raises the
/// success counter, anything else changes nothing.
pub fn classify_and_update(session: &mut Session, body: &[u8]) -> (r: Classification)
    requires
        session_wf(*old(session)),
    ensures
        session_wf(*final(session)),
        r == spec_classify(body@),
        *final(session) == if has_captcha_marker(body@) {
            spec_bump_captcha(*old(session))
        } else if spec_classify(body@) == Classification::Success {
            spec_bump_success(*old(session))
        } else {
            *old(session)
        },
{
    proof {
        reveal_strlit("captcha");
        reveal_strlit("CAPTCHA");
    }
    let captcha_lower = ascii_bytes("captcha");
    let captcha_upper = ascii_bytes("CAPTCHA");
    let has_captcha = contains_bytes(body, captcha_lower.as_slice()) || contains_bytes(
        body,
        captcha_upper.as_slice(),
    );
    let r = classify(body);
    if has_captcha {
        session.note_captcha();
    } else if matches!(r, Classification::Success) {
        session.add_success();
    }
    r
}

/// Law: a body with a CAPTCHA marker always classifies as a challenge.
pub proof fn lemma_captcha_is_challenge(b: Seq<u8>)
    requires
        has_captcha_marker(b),
    ensures
        spec_classify(b) == Classification::Challenge,
{
}

/// Law: a body with a success marker and no challenge marker always
/// classifies as a success.
pub proof fn lemma_clean_results_are_success(b: Seq<u8>)
    requires
        has_success_marker(b),
        !has_captcha_marker(b),
        !has_automation_marker(b),
        !has_redirect_marker(b),
    ensures
        spec_classify(b) == Classification::Success,
{
}

/// Law: a body with no marker at all classifies as neutral, and by
/// `classify_and_update`'s contract changes no counter.
pub proof fn lemma_plain_body_is_neutral(b: Seq<u8>)
    requires
        !has_captcha_marker(b),
        !has_automation_marker(b),
        !has_redirect_marker(b),
        !has_success_marker(b),
    ensures
        spec_classify(b) == Classification::Neutral,
{
}

} // verus!
