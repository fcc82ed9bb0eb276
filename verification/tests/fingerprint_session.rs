use pqc_proxy::fingerprint::Fingerprint;
use pqc_proxy::session::{Session, SuspicionConfig};

fn catalog_entry_for(platform: &str) -> (&'static str, u32, u32, u32, u32) {
    match platform {
        "Windows" => ("Windows NT 10.0; Win64; x64", 1920, 1080, 1920, 1040),
        "macOS" => ("Macintosh; Intel Mac OS X 10_15_7", 1440, 900, 1440, 877),
        "Linux" => ("X11; Linux x86_64", 1920, 1080, 1920, 1053),
        other => panic!("platform outside the catalog: {}", other),
    }
}

#[test]
fn fingerprint_platform_tuple_is_joint() {
    for _ in 0..32 {
        let fp = Fingerprint::generate(42);
        let (ua_platform, sw, sh, vw, vh) = catalog_entry_for(&fp.platform);
        assert!(fp.user_agent.contains(ua_platform));
        assert_eq!(fp.screen_width, sw);
        assert_eq!(fp.screen_height, sh);
        assert_eq!(fp.viewport_width, vw);
        assert_eq!(fp.viewport_height, vh);
        assert_eq!(fp.sec_ch_ua_platform, format!("\"{}\"", fp.platform));
    }
}

#[test]
fn fingerprint_versions_agree() {
    for _ in 0..32 {
        let fp = Fingerprint::generate(7);
        let major = fp.chrome_major.clone();
        assert!(["118", "119", "120", "121"].contains(&major.as_str()));
        assert!(fp.user_agent.contains(&format!("Chrome/{}.0.0.0 ", major)));
        assert!(fp.sec_ch_ua.contains(&format!("\"Chromium\";v=\"{}\"", major)));
        assert!(fp.sec_ch_ua.contains(&format!("\"Google Chrome\";v=\"{}\"", major)));
        assert!(fp.timezone_offset >= -720 && fp.timezone_offset <= 840);
        assert_eq!(fp.created_at, 7);
    }
}

#[test]
fn history_lists_stay_bounded() {
    let mut s = Session::new("k".to_string(), 10);
    for i in 0..200u32 {
        s.record_visit(format!("https://example.org/{}", i).into_bytes());
        assert!(s.visited_urls.len() <= 50);
        assert!(s.interaction_history.len() <= 100);
    }
    // after 200 pushes the newest entry is always at the back
    assert_eq!(s.visited_urls.last().unwrap(), &b"https://example.org/199".to_vec());
}

#[test]
fn history_trims_from_the_front() {
    let mut s = Session::new("k".to_string(), 10);
    for i in 0..51u32 {
        s.record_visit(format!("u{}", i).into_bytes());
    }
    // the 51st push trips the cap: 10 oldest entries leave the front
    assert_eq!(s.visited_urls.len(), 41);
    assert_eq!(s.visited_urls[0], b"u10".to_vec());
    assert_eq!(s.visited_urls[40], b"u50".to_vec());
}

#[test]
fn activity_only_moves_forward() {
    let mut s = Session::new("k".to_string(), 100);
    s.update_activity(150);
    assert_eq!(s.last_activity, 150);
    assert_eq!(s.request_count, 1);
    s.update_activity(120);
    assert_eq!(s.last_activity, 150);
    assert_eq!(s.request_count, 2);
    assert_eq!(s.session_duration(), 50);
}

#[test]
fn success_counter_never_passes_request_counter() {
    let mut s = Session::new("k".to_string(), 0);
    s.add_success();
    assert_eq!(s.success_count, 0);
    s.update_activity(1);
    s.add_success();
    assert_eq!(s.success_count, 1);
    s.add_success();
    assert_eq!(s.success_count, 1);
}

#[test]
fn suspicion_thresholds() {
    let cfg = SuspicionConfig::default();
    let mut s = Session::new("k".to_string(), 1000);
    // high request rate: many requests with no time elapsed
    s.request_count = 6;
    s.last_activity = 1000;
    assert!(s.is_suspicious(1000, &cfg));
    // same count spread over time is fine
    assert!(!s.is_suspicious(1010, &cfg));
    // low success ratio beyond the minimum request count
    s.request_count = 11;
    s.success_count = 3;
    assert!(s.is_suspicious(1010, &cfg));
    s.success_count = 4;
    assert!(!s.is_suspicious(1010, &cfg));
}

#[test]
fn cooling_off_on_captcha_count() {
    let cfg = SuspicionConfig::default();
    let mut s = Session::new("k".to_string(), 1000);
    s.last_activity = 1000;
    assert!(!s.needs_cooling_off(2000, &cfg));
    s.note_captcha();
    s.note_captcha();
    assert!(!s.needs_cooling_off(2000, &cfg));
    s.note_captcha();
    assert!(s.needs_cooling_off(2000, &cfg));
}
