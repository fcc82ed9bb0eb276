//! The retry controller and the delay policy.  Sends against protected
//! origins are wrapped in a bounded loop: an anti-bot challenge or a
//! transport failure earns a randomized backoff and another attempt, up
//! to the cap; past the cap the last response is surfaced as it stands.

use crate::detector::Classification;
use crate::session::{spec_needs_cooling_off, Session, SuspicionConfig};
use vstd::prelude::*;

verus! {

/// What one attempt came back with: a classified response, or no
/// response at all.
#[derive(Clone, Copy, Debug, PartialEq, Eq, Structural)]
pub enum Outcome {
    Response(Classification),
    TransportError,
}

/// What the caller must do after an attempt.
#[derive(Clone, Copy, Debug, PartialEq, Eq, Structural)]
pub enum RetryAction {
    /// Surface the response as it stands.
    Finish,
    /// Sleep a draw from `[lo_ms, hi_ms)` and try again.
    RetryAfter { lo_ms: u64, hi_ms: u64 },
}

/// The attempt cap: 3 attempts against protected origins, 1 elsewhere.
pub open spec fn spec_max_attempts(protected: bool) -> u32 {
    if protected {
        3
    } else {
        1
    }
}

pub fn max_attempts(protected: bool) -> (r: u32)
    ensures
        r == spec_max_attempts(protected),
{
    if protected {
        3
    } else {
        1
    }
}

/// An outcome that asks for another attempt: an anti-bot challenge or a
/// transport failure.
pub open spec fn spec_retry_needed(o: Outcome) -> bool {
    o == Outcome::TransportError || o == Outcome::Response(Classification::Challenge)
}

/// The backoff range an outcome earns: longer for anti-bot challenges
/// than for plain transport errors.
pub open spec fn spec_backoff(o: Outcome) -> (u64, u64) {
    if o == Outcome::TransportError {
        (2000, 5000)
    } else {
        (3000, 8000)
    }
}

/// The action after attempt number `attempts` (1-based) of at most `max`.
pub open spec fn spec_action(max: u32, attempts: u32, o: Outcome) -> RetryAction {
    if spec_retry_needed(o) && attempts < max {
        RetryAction::RetryAfter { lo_ms: spec_backoff(o).0, hi_ms: spec_backoff(o).1 }
    } else {
        RetryAction::Finish
    }
}

/// The bounded retry loop's state: how many attempts were made, out of
/// how many are allowed.
pub struct RetryController {
    pub max_attempts: u32,
    pub attempts: u32,
}

pub open spec fn controller_wf(c: RetryController) -> bool {
    c.attempts <= c.max_attempts && c.max_attempts >= 1
}

impl RetryController {
    /// A fresh controller for one request.
    pub fn new(protected: bool) -> (c: RetryController)
        ensures
            controller_wf(c),
            c.max_attempts == spec_max_attempts(protected),
            c.attempts == 0,
    {
        RetryController { max_attempts: max_attempts(protected), attempts: 0 }
    }

    /// Whether another attempt may still be made.
    pub fn can_attempt(&self) -> (r: bool)
        ensures
            r == (self.attempts < self.max_attempts),
    {
        self.attempts < self.max_attempts
    }

    /// Count one attempt and say what to do with its outcome: retry
    /// after a backoff exactly when the outcome asks for it and the cap
    /// is not yet reached.
    pub fn record_attempt(&mut self, outcome: Outcome) -> (a: RetryAction)
        requires
            controller_wf(*old(self)),
            old(self).attempts < old(self).max_attempts,
        ensures
            controller_wf(*final(self)),
            final(self).max_attempts == old(self).max_attempts,
            final(self).attempts == old(self).attempts + 1,
            a == spec_action(old(self).max_attempts, final(self).attempts, outcome),
    {
        self.attempts = self.attempts + 1;
        let needs_retry = matches!(outcome, Outcome::TransportError) || matches!(
            outcome,
            Outcome::Response(Classification::Challenge),
        );
        if needs_retry && self.attempts < self.max_attempts {
            match outcome {
                Outcome::TransportError => RetryAction::RetryAfter { lo_ms: 2000, hi_ms: 5000 },
                Outcome::Response(_) => RetryAction::RetryAfter { lo_ms: 3000, hi_ms: 8000 },
            }
        } else {
            RetryAction::Finish
        }
    }
}

/// The retry loop over a fixed outcome sequence, from attempt number `k`
/// (1-based): the pair of the total attempts made and the index of the
/// outcome that is surfaced.
pub open spec fn spec_run_retry_from(k: int, max: int, outcomes: Seq<Outcome>) -> (int, int)
    decreases max - k,
{
    if k < max && spec_retry_needed(outcomes[k - 1]) {
        spec_run_retry_from(k + 1, max, outcomes)
    } else {
        (k, k - 1)
    }
}

/// The whole retry loop over a fixed outcome sequence.
pub open spec fn spec_run_retry(max: int, outcomes: Seq<Outcome>) -> (int, int) {
    spec_run_retry_from(1, max, outcomes)
}

/// Run the bounded retry loop over outcomes fixed in advance — the
/// controller applied to a detector whose verdicts are already known.
/// Returns how many attempts were made and which outcome is surfaced.
pub fn run_retry_model(protected: bool, outcomes: &Vec<Outcome>) -> (r: (u32, usize))
    requires
        outcomes@.len() >= spec_max_attempts(protected),
    ensures
        (r.0 as int, r.1 as int) == spec_run_retry(spec_max_attempts(protected) as int, outcomes@),
{
    let mut ctrl = RetryController::new(protected);
    let ghost max = spec_max_attempts(protected) as int;
    loop
        invariant
            max == spec_max_attempts(protected) as int,
            controller_wf(ctrl),
            ctrl.max_attempts == spec_max_attempts(protected),
            ctrl.attempts < ctrl.max_attempts,
            outcomes@.len() >= ctrl.max_attempts,
            spec_run_retry(max, outcomes@) == spec_run_retry_from(
                ctrl.attempts + 1,
                max,
                outcomes@,
            ),
        decreases ctrl.max_attempts - ctrl.attempts,
    {
        let i = ctrl.attempts as usize;
        let action = ctrl.record_attempt(outcomes[i]);
        if matches!(action, RetryAction::Finish) {
            return (ctrl.attempts, i);
        }
    }
}

/// Law: against a protected origin, with a detector that always reports
/// a challenge, exactly the attempt cap's many attempts are made and the
/// last attempt's response is the one surfaced, unmodified.
pub proof fn lemma_all_challenges_exhaust(max: int, outcomes: Seq<Outcome>)
    requires
        1 <= max <= outcomes.len(),
        forall|i: int|
            0 <= i < outcomes.len() ==> outcomes[i] == Outcome::Response(Classification::Challenge),
    ensures
        spec_run_retry(max, outcomes) == (max, max - 1),
{
    lemma_all_challenges_exhaust_from(1, max, outcomes);
}

proof fn lemma_all_challenges_exhaust_from(k: int, max: int, outcomes: Seq<Outcome>)
    requires
        1 <= k <= max <= outcomes.len(),
        forall|i: int|
            0 <= i < outcomes.len() ==> outcomes[i] == Outcome::Response(Classification::Challenge),
    ensures
        spec_run_retry_from(k, max, outcomes) == (max, max - 1),
    decreases max - k,
{
    if k < max {
        lemma_all_challenges_exhaust_from(k + 1, max, outcomes);
    }
}

/// The human-pace delay range before the real request: long when the
/// session must cool off, long-ish every fifth request to imitate
/// reading, short otherwise.
pub open spec fn spec_smart_delay(s: Session, now: u64, cfg: SuspicionConfig) -> (u64, u64) {
    if spec_needs_cooling_off(s, now, cfg) {
        (3000, 8000)
    } else if s.request_count % 5 == 0 {
        (2000, 5000)
    } else {
        (800, 2500)
    }
}

/// The delay range to draw from before sending on behalf of `s`.
pub fn smart_delay_range(s: &Session, now: u64, cfg: &SuspicionConfig) -> (r: (u64, u64))
    ensures
        r == spec_smart_delay(*s, now, *cfg),
{
    if s.needs_cooling_off(now, cfg) {
        (3000, 8000)
    } else if s.request_count % 5 == 0 {
        (2000, 5000)
    } else {
        (800, 2500)
    }
}

/// The extra cooling-off pause: `Some` range exactly when the session's
/// CAPTCHA count or suspicion heuristics call for one.
pub fn pre_request_delay(s: &Session, now: u64, cfg: &SuspicionConfig) -> (r: Option<(u64, u64)>)
    ensures
        r == if spec_needs_cooling_off(*s, now, *cfg) {
            Some((5000u64, 15000u64))
        } else {
            None::<(u64, u64)>
        },
{
    if s.needs_cooling_off(now, cfg) {
        Some((5000, 15000))
    } else {
        None
    }
}

} // verus!
