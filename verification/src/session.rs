//! Per-client session state: fingerprint, bounded browsing history,
//! behavioural counters and the suspicion heuristics built on them.

use crate::fingerprint::{fp_wf, Fingerprint};
use vstd::prelude::*;

verus! {

/// Maximum entries kept in the visited-URL list.
pub const MAX_VISITED: usize = 50;

/// Entries dropped from the front of the visited-URL list when it fills.
pub const TRIM_VISITED: usize = 10;

/// Maximum entries kept in the interaction log.
pub const MAX_HISTORY: usize = 100;

/// Entries dropped from the front of the interaction log when it fills.
pub const TRIM_HISTORY: usize = 20;

/// Thresholds of the suspicion heuristics.  The defaults mirror the
/// behaviour this engine was tuned with; they carry no deeper rationale
/// and are parameters rather than constants for that reason.
pub struct SuspicionConfig {
    /// A session is suspicious above this many requests per elapsed second.
    pub rate_per_sec: u64,
    /// The success-ratio test applies only beyond this many requests.
    pub min_requests: u32,
    /// Numerator of the success-ratio floor.
    pub ratio_num: u32,
    /// Denominator of the success-ratio floor.
    pub ratio_den: u32,
    /// Cooling off starts above this many CAPTCHA encounters.
    pub captcha_threshold: u32,
}

impl Default for SuspicionConfig {
    /// Rate above 5 requests per second; success ratio below 3/10 after
    /// more than 10 requests; cooling off above 2 CAPTCHA encounters.
    fn default() -> (c: Self)
        ensures
            c.rate_per_sec == 5,
            c.min_requests == 10,
            c.ratio_num == 3,
            c.ratio_den == 10,
            c.captcha_threshold == 2,
    {
        SuspicionConfig {
            rate_per_sec: 5,
            min_requests: 10,
            ratio_num: 3,
            ratio_den: 10,
            captcha_threshold: 2,
        }
    }
}

/// One logical client's accumulated state.
pub struct Session {
    pub session_id: String,
    pub fingerprint: Fingerprint,
    pub visited_urls: Vec<Vec<u8>>,
    pub interaction_history: Vec<Vec<u8>>,
    pub session_start: u64,
    pub last_activity: u64,
    pub request_count: u32,
    pub success_count: u32,
    pub captcha_attempts: u32,
    pub tokens: Vec<Vec<u8>>,
}

/// Session invariant: the success counter never exceeds the request
/// counter, both history lists respect their caps, the activity timestamp
/// never precedes the creation timestamp, and the fingerprint is
/// well-formed.
pub open spec fn session_wf(s: Session) -> bool {
    &&& s.success_count <= s.request_count
    &&& s.visited_urls@.len() <= MAX_VISITED
    &&& s.interaction_history@.len() <= MAX_HISTORY
    &&& s.session_start <= s.last_activity
    &&& fp_wf(s.fingerprint)
}

/// Append to a bounded list: push at the back, and when the cap is
/// exceeded drop `trim` entries from the front.
pub open spec fn spec_bounded_push<T>(s: Seq<T>, x: T, max: int, trim: int) -> Seq<T> {
    let t = s.push(x);
    if t.len() > max {
        t.skip(trim)
    } else {
        t
    }
}

/// The session after noting a request at time `now`: the activity
/// timestamp only moves forward and the request counter only grows.
pub open spec fn spec_touch(s: Session, now: u64) -> Session {
    Session {
        last_activity: if now > s.last_activity {
            now
        } else {
            s.last_activity
        },
        request_count: if s.request_count < u32::MAX {
            (s.request_count + 1) as u32
        } else {
            s.request_count
        },
        ..s
    }
}

/// The session after noting a successful response.
pub open spec fn spec_bump_success(s: Session) -> Session {
    Session {
        success_count: if s.success_count < s.request_count {
            (s.success_count + 1) as u32
        } else {
            s.success_count
        },
        ..s
    }
}

/// The session after noting a CAPTCHA encounter.
pub open spec fn spec_bump_captcha(s: Session) -> Session {
    Session {
        captcha_attempts: if s.captcha_attempts < u32::MAX {
            (s.captcha_attempts + 1) as u32
        } else {
            s.captcha_attempts
        },
        ..s
    }
}

/// Whether a session looks automated at time `now`: too many requests per
/// elapsed second, or too low a success ratio once enough requests have
/// been made.
pub open spec fn spec_is_suspicious(s: Session, now: u64, cfg: SuspicionConfig) -> bool {
    let elapsed: int = if now >= s.last_activity {
        now - s.last_activity
    } else {
        0
    };
    ||| s.request_count > cfg.rate_per_sec * (elapsed + 1)
    ||| (s.request_count > cfg.min_requests && s.success_count * cfg.ratio_den < s.request_count
        * cfg.ratio_num)
}

/// Whether a session must cool off before its next request: too many
/// CAPTCHA encounters, or suspicious behaviour.
pub open spec fn spec_needs_cooling_off(s: Session, now: u64, cfg: SuspicionConfig) -> bool {
    s.captcha_attempts > cfg.captcha_threshold || spec_is_suspicious(s, now, cfg)
}

impl Session {
    /// A fresh session: a newly drawn fingerprint, empty history, zeroed
    /// counters, created now.
    pub fn new(session_id: String, now: u64) -> (s: Session)
        ensures
            session_wf(s),
            s.session_id@ == session_id@,
            s.session_start == now,
            s.last_activity == now,
            s.request_count == 0,
            s.success_count == 0,
            s.captcha_attempts == 0,
            s.visited_urls@.len() == 0,
            s.interaction_history@.len() == 0,
            s.tokens@.len() == 0,
    {
        Session {
            session_id,
            fingerprint: Fingerprint::generate(now),
            visited_urls: Vec::new(),
            interaction_history: Vec::new(),
            session_start: now,
            last_activity: now,
            request_count: 0,
            success_count: 0,
            captcha_attempts: 0,
            tokens: Vec::new(),
        }
    }

    /// Note a request at time `now`.  The activity timestamp only moves
    /// forward, and the request counter only grows.
    pub fn update_activity(&mut self, now: u64)
        requires
            session_wf(*old(self)),
        ensures
            session_wf(*final(self)),
            *final(self) == spec_touch(*old(self), now),
    {
        if now > self.last_activity {
            self.last_activity = now;
        }
        if self.request_count < u32::MAX {
            self.request_count = self.request_count + 1;
        }
    }

    /// Record a visit to `url`: append it to the visited-URL list and a
    /// note of it to the interaction log, trimming each from the front
    /// once it exceeds its cap.
    pub fn record_visit(&mut self, url: Vec<u8>)
        requires
            session_wf(*old(self)),
        ensures
            session_wf(*final(self)),
            final(self).visited_urls@ == spec_bounded_push(
                old(self).visited_urls@,
                url,
                MAX_VISITED as int,
                TRIM_VISITED as int,
            ),
            final(self).interaction_history@.len() <= MAX_HISTORY,
            final(self).session_id == old(self).session_id,
            final(self).fingerprint == old(self).fingerprint,
            final(self).session_start == old(self).session_start,
            final(self).last_activity == old(self).last_activity,
            final(self).request_count == old(self).request_count,
            final(self).success_count == old(self).success_count,
            final(self).captcha_attempts == old(self).captcha_attempts,
            final(self).tokens == old(self).tokens,
    {
        proof {
            reveal_strlit("visited: ");
        }
        let mut note: Vec<u8> = crate::bytes::ascii_bytes("visited: ");
        crate::bytes::push_all(&mut note, url.as_slice());
        self.visited_urls.push(url);
        if self.visited_urls.len() > MAX_VISITED {
            let tail = self.visited_urls.split_off(TRIM_VISITED);
            self.visited_urls = tail;
        }
        self.interaction_history.push(note);
        if self.interaction_history.len() > MAX_HISTORY {
            let tail = self.interaction_history.split_off(TRIM_HISTORY);
            self.interaction_history = tail;
        }
    }

    /// Note a successful response.  Bounded by the request counter so the
    /// session invariant is preserved.
    pub fn add_success(&mut self)
        requires
            session_wf(*old(self)),
        ensures
            session_wf(*final(self)),
            *final(self) == spec_bump_success(*old(self)),
    {
        if self.success_count < self.request_count {
            self.success_count = self.success_count + 1;
        }
    }

    /// Note a CAPTCHA encounter.
    pub fn note_captcha(&mut self)
        requires
            session_wf(*old(self)),
        ensures
            session_wf(*final(self)),
            *final(self) == spec_bump_captcha(*old(self)),
    {
        if self.captcha_attempts < u32::MAX {
            self.captcha_attempts = self.captcha_attempts + 1;
        }
    }

    /// Keep a token captured from an upstream response.
    pub fn add_token(&mut self, token: Vec<u8>)
        requires
            session_wf(*old(self)),
        ensures
            session_wf(*final(self)),
            final(self).tokens@ == old(self).tokens@.push(token),
            final(self).session_id == old(self).session_id,
            final(self).fingerprint == old(self).fingerprint,
            final(self).visited_urls == old(self).visited_urls,
            final(self).interaction_history == old(self).interaction_history,
            final(self).session_start == old(self).session_start,
            final(self).last_activity == old(self).last_activity,
            final(self).request_count == old(self).request_count,
            final(self).success_count == old(self).success_count,
            final(self).captcha_attempts == old(self).captcha_attempts,
    {
        self.tokens.push(token);
    }

    /// Seconds between creation and the last activity.
    pub fn session_duration(&self) -> (d: u64)
        requires
            session_wf(*self),
        ensures
            d == self.last_activity - self.session_start,
    {
        self.last_activity - self.session_start
    }

    /// Whether the session looks automated at time `now`.
    pub fn is_suspicious(&self, now: u64, cfg: &SuspicionConfig) -> (r: bool)
        ensures
            r == spec_is_suspicious(*self, now, *cfg),
    {
        let elapsed: u64 = if now >= self.last_activity {
            now - self.last_activity
        } else {
            0
        };
        let e1: u128 = elapsed as u128 + 1;
        let rate: u128 = cfg.rate_per_sec as u128;
        assert(rate * e1 <= u128::MAX) by (nonlinear_arith)
            requires
                rate <= 0xffff_ffff_ffff_ffff,
                e1 <= 0x1_0000_0000_0000_0000,
        ;
        let high_rate = (self.request_count as u128) > rate * e1;
        let sc: u64 = self.success_count as u64;
        let rc: u64 = self.request_count as u64;
        let num: u64 = cfg.ratio_num as u64;
        let den: u64 = cfg.ratio_den as u64;
        assert(sc * den <= u64::MAX && rc * num <= u64::MAX) by (nonlinear_arith)
            requires
                sc <= 0xffff_ffff,
                den <= 0xffff_ffff,
                rc <= 0xffff_ffff,
                num <= 0xffff_ffff,
        ;
        let low_ratio = self.request_count > cfg.min_requests && sc * den < rc * num;
        high_rate || low_ratio
    }

    /// Whether the session must cool off before its next request.
    pub fn needs_cooling_off(&self, now: u64, cfg: &SuspicionConfig) -> (r: bool)
        ensures
            r == spec_needs_cooling_off(*self, now, *cfg),
    {
        self.captcha_attempts > cfg.captcha_threshold || self.is_suspicious(now, cfg)
    }
}

/// Law: however many updates a session has seen, its visited-URL list and
/// its interaction log never exceed their configured caps.
pub proof fn lemma_history_bounded(s: Session)
    requires
        session_wf(s),
    ensures
        s.visited_urls@.len() <= MAX_VISITED,
        s.interaction_history@.len() <= MAX_HISTORY,
{
}

} // verus!
