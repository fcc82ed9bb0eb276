use pqc_proxy::store::{generate_session_id, session_key_for_ip, SessionStore};

#[test]
fn same_key_yields_one_session() {
    let mut store = SessionStore::new(3600);
    let i1 = store.get_or_create("session_a", 100);
    let id1 = store.session(i1).session_id.clone();
    let i2 = store.get_or_create("session_a", 100);
    let id2 = store.session(i2).session_id.clone();
    assert_eq!(store.len(), 1);
    assert_eq!(id1, id2);
}

#[test]
fn different_keys_get_different_sessions() {
    let mut store = SessionStore::new(3600);
    let i1 = store.get_or_create("session_a", 100);
    let id1 = store.session(i1).session_id.clone();
    let i2 = store.get_or_create("session_b", 100);
    let id2 = store.session(i2).session_id.clone();
    assert_eq!(store.len(), 2);
    assert_ne!(id1, id2);
}

#[test]
fn idle_sessions_are_swept() {
    let mut store = SessionStore::new(3600);
    let i1 = store.get_or_create("session_a", 100);
    store.touch(i1, 100);
    assert_eq!(store.session(i1).request_count, 1);
    // well within the TTL: the same session comes back
    let i2 = store.get_or_create("session_a", 1000);
    assert_eq!(store.session(i2).request_count, 1);
    // idle past the TTL: a fresh session replaces it
    let i3 = store.get_or_create("session_a", 100 + 3600);
    assert_eq!(store.session(i3).request_count, 0);
    assert_eq!(store.len(), 1);
}

#[test]
fn eviction_leaves_other_sessions_alone() {
    let mut store = SessionStore::new(3600);
    let ia = store.get_or_create("session_a", 0);
    store.touch(ia, 0);
    let _ib = store.get_or_create("session_b", 3000);
    // at 3700, a (idle 3700s) is stale, b (idle 700s) is not
    store.evict_idle(3700);
    assert_eq!(store.len(), 1);
    assert_eq!(store.session(0).session_id, "session_b".to_string());
}

#[test]
fn per_session_updates_are_isolated() {
    let mut store = SessionStore::new(3600);
    let ia = store.get_or_create("session_a", 0);
    let ib = store.get_or_create("session_b", 0);
    store.record_visit(ia, b"https://example.org/".to_vec());
    store.touch(ia, 5);
    store.record_success(ia);
    store.add_token(ia, b"tok".to_vec());
    assert_eq!(store.session(ia).visited_urls.len(), 1);
    assert_eq!(store.session(ia).request_count, 1);
    assert_eq!(store.session(ia).success_count, 1);
    assert_eq!(store.session(ia).tokens, vec![b"tok".to_vec()]);
    assert_eq!(store.session(ib).visited_urls.len(), 0);
    assert_eq!(store.session(ib).request_count, 0);
}

#[test]
fn session_key_prefixes_encoded_address() {
    let key = session_key_for_ip(b"1.2.3.4");
    assert_eq!(key, "session_MS4yLjMuNA==".to_string());
}

#[test]
fn handshake_ids_are_prefixed_decimals() {
    let id = generate_session_id();
    assert!(id.starts_with("pqc_session_"));
    let digits = &id["pqc_session_".len()..];
    assert!(!digits.is_empty());
    assert!(digits.bytes().all(|b| b.is_ascii_digit()));
}
