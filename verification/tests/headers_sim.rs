use base64::Engine as _;
use pqc_proxy::engine::{
    generate_forwarded_ip, plan_request, response_header_forwarded, tweak_ip, RequestPlan,
    ValidationError,
};
use pqc_proxy::headers::{
    get_realistic_user_agent, is_already_set_header, is_hop_by_hop_header, is_protected_origin,
    synthesize, synthesize_with,
};
use pqc_proxy::detector::{classify_and_update, Classification};
use pqc_proxy::retry::{run_retry_model, Outcome};
use pqc_proxy::session::Session;
use pqc_proxy::simulate::{extract_fpb_token, extract_query, plan_simulation};

#[test]
fn protected_origin_class() {
    assert!(is_protected_origin(b"https://www.google.com/search?q=x"));
    assert!(is_protected_origin(b"https://google.example/search?q=hello"));
    assert!(!is_protected_origin(b"https://example.org/page"));
}

#[test]
fn synthesized_headers_avoid_hop_by_hop() {
    let s = Session::new("k".to_string(), 0);
    let headers = synthesize(&s, b"https://www.google.com/search?q=x", false);
    assert!(!headers.is_empty());
    for (name, _) in &headers {
        assert!(!is_hop_by_hop_header(&name.to_lowercase()), "emitted {}", name);
    }
}

#[test]
fn header_order_matches_a_browser() {
    let s = Session::new("k".to_string(), 0);
    let headers = synthesize_with(&s, b"https://www.google.com/search?q=x", false, 1234, 567);
    let names: Vec<&str> = headers.iter().map(|p| p.0.as_str()).collect();
    assert_eq!(
        names,
        vec![
            "Accept",
            "Accept-Encoding",
            "Accept-Language",
            "Sec-Ch-Ua",
            "Sec-Ch-Ua-Mobile",
            "Sec-Ch-Ua-Platform",
            "Sec-Fetch-Dest",
            "Sec-Fetch-Mode",
            "Sec-Fetch-Site",
            "Sec-Fetch-User",
            "Upgrade-Insecure-Requests",
            "User-Agent",
            "X-Client-Data",
        ]
    );
    // a fresh session has no referer, so Sec-Fetch-Site is none
    assert_eq!(headers[8].1, "none".to_string());
    assert_eq!(headers[11].1, s.fingerprint.user_agent);
}

#[test]
fn client_data_token_is_derived_from_the_fingerprint() {
    let s = Session::new("k".to_string(), 0);
    let headers = synthesize_with(&s, b"https://www.google.com/", false, 4321, 765);
    let token = &headers.iter().find(|p| p.0 == "X-Client-Data").unwrap().1;
    let expected = base64::engine::general_purpose::STANDARD.encode(format!(
        "{}:4321:{}:{}:765",
        s.fingerprint.chrome_major, s.fingerprint.viewport_width, s.fingerprint.viewport_height
    ));
    assert_eq!(token, &expected);
}

#[test]
fn revisits_carry_referer_and_cache_headers() {
    let mut s = Session::new("k".to_string(), 0);
    s.record_visit(b"https://www.google.com/".to_vec());
    s.update_activity(1);
    s.update_activity(2);
    let headers = synthesize_with(&s, b"https://www.google.com/search?q=x", false, 1, 101);
    let names: Vec<&str> = headers.iter().map(|p| p.0.as_str()).collect();
    assert!(names.contains(&"Referer"));
    assert!(names.contains(&"X-Same-Domain"));
    assert!(names.contains(&"Cache-Control"));
    let site = &headers.iter().find(|p| p.0 == "Sec-Fetch-Site").unwrap().1;
    assert_eq!(site, &"same-origin".to_string());
    let referer = &headers.iter().find(|p| p.0 == "Referer").unwrap().1;
    assert_eq!(referer, &"https://www.google.com/".to_string());
}

#[test]
fn unprotected_targets_get_no_tracking_headers() {
    let s = Session::new("k".to_string(), 0);
    let headers = synthesize_with(&s, b"https://example.org/page", false, 1, 101);
    let names: Vec<&str> = headers.iter().map(|p| p.0.as_str()).collect();
    assert!(!names.contains(&"X-Client-Data"));
    assert!(!names.contains(&"Referer"));
    assert!(!names.contains(&"X-Same-Domain"));
}

#[test]
fn transport_owned_headers_are_recognised() {
    assert!(is_already_set_header("host"));
    assert!(is_already_set_header("content-length"));
    assert!(is_already_set_header("x-client-data"));
    assert!(!is_already_set_header("x-custom-header"));
    assert!(is_hop_by_hop_header("transfer-encoding"));
    assert!(!is_hop_by_hop_header("content-type"));
}

#[test]
fn response_header_filter() {
    assert!(response_header_forwarded(b"Content-Type"));
    assert!(response_header_forwarded(b"set-cookie"));
    assert!(!response_header_forwarded(b"Transfer-Encoding"));
    assert!(!response_header_forwarded(b"Connection"));
    assert!(!response_header_forwarded(b"content-encoding"));
}

#[test]
fn fallback_user_agent_is_fixed() {
    assert_eq!(
        get_realistic_user_agent("https://example.org"),
        "Mozilla/5.0 (Windows NT 10.0; Win64; x64) AppleWebKit/537.36 (KHTML, like Gecko) Chrome/120.0.0.0 Safari/537.36"
    );
}

#[test]
fn query_extraction() {
    assert_eq!(
        extract_query(b"https://g/search?q=hello&hl=en"),
        Some(b"hello".to_vec())
    );
    assert_eq!(extract_query(b"https://g/search?q=hello"), Some(b"hello".to_vec()));
    assert_eq!(extract_query(b"https://g/search?q="), None);
    assert_eq!(extract_query(b"https://g/page?q=x"), None);
}

#[test]
fn plan_validates_target() {
    assert_eq!(plan_request(b""), Err(ValidationError::MissingUrl));
    assert_eq!(
        plan_request(b"https://example.org/page"),
        Ok(RequestPlan { protected: false, is_search: false, max_attempts: 1 })
    );
    assert_eq!(
        plan_request(b"https://google.example/search?q=hello"),
        Ok(RequestPlan { protected: true, is_search: true, max_attempts: 3 })
    );
}

#[test]
fn unprotected_request_gets_no_simulation() {
    let s = Session::new("k".to_string(), 0);
    let plan = plan_simulation(&s, b"https://example.org/page");
    assert!(plan.steps.is_empty());
    assert_eq!(plan.final_delay, None);
}

#[test]
fn fresh_search_gets_homepage_and_typed_prefixes() {
    let mut s = Session::new("k".to_string(), 0);
    let plan = plan_simulation(&s, b"https://google.example/search?q=hello");
    // a homepage visit with two browser resources leads
    assert_eq!(plan.steps[0].url, b"https://www.google.com/".to_vec());
    assert_eq!(plan.steps[0].delay_lo_ms, 1500);
    assert_eq!(plan.steps[0].delay_hi_ms, 3000);
    assert_eq!(plan.steps[1].url, b"https://www.google.com/favicon.ico".to_vec());
    assert!(String::from_utf8_lossy(&plan.steps[2].url).contains("branding"));
    // every second character beyond the second earns a suggestion fetch:
    // for "hello" that is the four-character prefix
    let suggestions: Vec<&pqc_proxy::simulate::SimStep> = plan.steps[3..].iter().collect();
    assert_eq!(suggestions.len(), 1);
    let url = String::from_utf8_lossy(&suggestions[0].url);
    assert!(url.starts_with("https://www.google.com/complete/search?q=hell&"));
    assert_eq!(plan.final_delay, Some((500, 1500)));

    // the runner records the homepage visit on the session afterwards
    s.record_visit(plan.steps[0].url.clone());
    assert!(s.visited_urls.contains(&b"https://www.google.com/".to_vec()));

    // a session that has been there skips the homepage warm-up
    let plan2 = plan_simulation(&s, b"https://google.example/search?q=hi");
    assert!(plan2.steps.is_empty());
    assert_eq!(plan2.final_delay, Some((500, 1500)));
}

#[test]
fn suggestion_prefixes_are_percent_encoded() {
    let s = Session::new("k".to_string(), 0);
    let plan = plan_simulation(&s, b"https://google.example/search?q=caf%C3%A9+x");
    // the decoded query "café+x" (7 bytes) earns fetches at prefix
    // lengths 4 and 6
    let suggestions: Vec<String> = plan.steps[3..]
        .iter()
        .map(|st| String::from_utf8_lossy(&st.url).into_owned())
        .collect();
    assert_eq!(suggestions.len(), 2);
    assert!(suggestions[0].contains("q=caf%C3"));
    assert!(suggestions[1].contains("q=caf%C3%A9%2B"));
}

#[test]
fn token_extraction() {
    assert_eq!(
        extract_fpb_token(b"x \"FPB\":\"tok123\" y"),
        Some(b"tok123".to_vec())
    );
    assert_eq!(extract_fpb_token(b"x \"FPB\":\"unterminated"), None);
    assert_eq!(extract_fpb_token(b"nothing here"), None);
}

#[test]
fn forwarded_ip_shapes() {
    assert_eq!(tweak_ip(b"1.2.3.4", 2), b"1.2.3.6".to_vec());
    assert_eq!(tweak_ip(b"1.2.3.255", 1), b"1.2.3.0".to_vec());
    assert_eq!(tweak_ip(b"not-an-ip", 3), b"not-an-ip".to_vec());
    assert_eq!(tweak_ip(b"1.2.3.4.5", 1), b"1.2.3.4.5".to_vec());
    for _ in 0..16 {
        let ip = generate_forwarded_ip(b"9.9.9.9");
        assert!(ip.iter().all(|b| b.is_ascii_digit() || *b == b'.'));
        assert!(ip.iter().filter(|b| **b == b'.').count() >= 3);
    }
}

#[test]
fn plain_origin_request_is_a_single_verbatim_attempt() {
    // a target outside the protected-origin class, with no prior session
    let url = b"https://example.org/page";
    let plan = plan_request(url).unwrap();
    assert!(!plan.protected);
    assert_eq!(plan.max_attempts, 1);
    // no warm-up is scripted
    let s = Session::new("client".to_string(), 0);
    let sim = plan_simulation(&s, url);
    assert!(sim.steps.is_empty());
    assert_eq!(sim.final_delay, None);
    // exactly one attempt is made, and its response is the one surfaced
    let outcomes = vec![Outcome::Response(Classification::Neutral)];
    assert_eq!(run_retry_model(false, &outcomes), (1, 0));
    // an ordinary body changes no counter on the way through
    let mut s2 = Session::new("client".to_string(), 0);
    s2.update_activity(1);
    let before = (s2.success_count, s2.captcha_attempts);
    assert_eq!(
        classify_and_update(&mut s2, b"<html>plain page</html>"),
        Classification::Neutral
    );
    assert_eq!((s2.success_count, s2.captcha_attempts), before);
    // and ordinary response headers come through the filter
    assert!(response_header_forwarded(b"Content-Type"));
}
