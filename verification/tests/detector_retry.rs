use pqc_proxy::detector::{classify, classify_and_update, Classification};
use pqc_proxy::retry::{
    max_attempts, run_retry_model, Outcome, RetryAction, RetryController,
};
use pqc_proxy::session::{Session, SuspicionConfig};
use pqc_proxy::retry::{pre_request_delay, smart_delay_range};

#[test]
fn captcha_body_is_a_challenge_and_counts() {
    let mut s = Session::new("k".to_string(), 0);
    s.update_activity(1);
    let before = s.captcha_attempts;
    let c = classify_and_update(&mut s, b"<html>please solve this captcha</html>");
    assert_eq!(c, Classification::Challenge);
    assert_eq!(s.captcha_attempts, before + 1);
    assert_eq!(s.success_count, 0);
    // the upper-case variant counts too
    let c = classify_and_update(&mut s, b"CAPTCHA REQUIRED");
    assert_eq!(c, Classification::Challenge);
    assert_eq!(s.captcha_attempts, before + 2);
}

#[test]
fn result_body_is_a_success_and_counts_once() {
    let mut s = Session::new("k".to_string(), 0);
    s.update_activity(1);
    let c = classify_and_update(&mut s, b"<div><h3>result</h3></div>");
    assert_eq!(c, Classification::Success);
    assert_eq!(s.success_count, 1);
    assert_eq!(s.captcha_attempts, 0);
}

#[test]
fn plain_body_is_neutral_and_changes_nothing() {
    let mut s = Session::new("k".to_string(), 0);
    s.update_activity(1);
    let c = classify_and_update(&mut s, b"<html>nothing special</html>");
    assert_eq!(c, Classification::Neutral);
    assert_eq!(s.success_count, 0);
    assert_eq!(s.captcha_attempts, 0);
}

#[test]
fn challenge_markers_without_captcha() {
    assert_eq!(classify(b"we detected unusual traffic from you"), Classification::Challenge);
    assert_eq!(classify(b"this request looks automated"), Classification::Challenge);
    assert_eq!(
        classify(b"Please click here, you are being redirected"),
        Classification::Challenge
    );
    // redirect challenge needs both phrases
    assert_eq!(classify(b"Please click here"), Classification::Neutral);
}

#[test]
fn challenge_outranks_result_markup() {
    assert_eq!(classify(b"<h3>x</h3> captcha"), Classification::Challenge);
}

#[test]
fn always_challenged_request_uses_exactly_the_cap() {
    let outcomes = vec![
        Outcome::Response(Classification::Challenge),
        Outcome::Response(Classification::Challenge),
        Outcome::Response(Classification::Challenge),
    ];
    let (attempts, surfaced) = run_retry_model(true, &outcomes);
    assert_eq!(attempts, 3);
    // the surfaced response is the last attempt's, as it stands
    assert_eq!(surfaced, 2);
}

#[test]
fn early_success_stops_the_loop() {
    let outcomes = vec![
        Outcome::Response(Classification::Challenge),
        Outcome::Response(Classification::Success),
        Outcome::Response(Classification::Challenge),
    ];
    let (attempts, surfaced) = run_retry_model(true, &outcomes);
    assert_eq!(attempts, 2);
    assert_eq!(surfaced, 1);
}

#[test]
fn unprotected_targets_get_one_attempt() {
    assert_eq!(max_attempts(false), 1);
    assert_eq!(max_attempts(true), 3);
    let outcomes = vec![Outcome::Response(Classification::Challenge)];
    let (attempts, surfaced) = run_retry_model(false, &outcomes);
    assert_eq!(attempts, 1);
    assert_eq!(surfaced, 0);
}

#[test]
fn backoff_ranges_match_the_failure_kind() {
    let mut c = RetryController::new(true);
    let a = c.record_attempt(Outcome::Response(Classification::Challenge));
    assert_eq!(a, RetryAction::RetryAfter { lo_ms: 3000, hi_ms: 8000 });
    let a = c.record_attempt(Outcome::TransportError);
    assert_eq!(a, RetryAction::RetryAfter { lo_ms: 2000, hi_ms: 5000 });
    // the cap is reached: even a challenge is surfaced now
    let a = c.record_attempt(Outcome::Response(Classification::Challenge));
    assert_eq!(a, RetryAction::Finish);
}

#[test]
fn delay_policy_ranges() {
    let cfg = SuspicionConfig::default();
    let mut s = Session::new("k".to_string(), 1000);
    s.last_activity = 1000;
    s.request_count = 1;
    assert_eq!(smart_delay_range(&s, 2000, &cfg), (800, 2500));
    s.request_count = 5;
    assert_eq!(smart_delay_range(&s, 2000, &cfg), (2000, 5000));
    assert_eq!(pre_request_delay(&s, 2000, &cfg), None);
    s.captcha_attempts = 3;
    assert_eq!(smart_delay_range(&s, 2000, &cfg), (3000, 8000));
    assert_eq!(pre_request_delay(&s, 2000, &cfg), Some((5000, 15000)));
}
