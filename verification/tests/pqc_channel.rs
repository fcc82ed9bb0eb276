use base64::Engine as _;
use pqc_proxy::b64::{b64_decode, b64_encode};
use pqc_proxy::pqc::{PqcCrypto, PqcError};
use pqc_proxy::rewrite::rewrite_html;

#[test]
fn base64_wrappers_round_trip() {
    let data = b"\x00\x01\xfe binary!".to_vec();
    let encoded = b64_encode(&data);
    assert_ne!(encoded.as_bytes(), data.as_slice());
    assert_eq!(b64_decode(&encoded).unwrap(), data);
    assert!(b64_decode("not base64 !!").is_err());
}

#[test]
fn envelope_round_trip() {
    let c = PqcCrypto::new();
    let secret = base64::engine::general_purpose::STANDARD.encode(b"correct horse battery");
    let data = b"the quick brown fox jumps over the lazy dog".to_vec();
    let sealed = c.symmetric_encrypt(&data, &secret).unwrap();
    assert_ne!(sealed.as_bytes(), data.as_slice());
    let opened = c.symmetric_decrypt(&sealed, &secret).unwrap();
    assert_eq!(opened, data);
}

#[test]
fn envelope_needs_the_same_secret() {
    let c = PqcCrypto::new();
    let secret = base64::engine::general_purpose::STANDARD.encode(b"key-one");
    let other = base64::engine::general_purpose::STANDARD.encode(b"key-two");
    let data = b"payload".to_vec();
    let sealed = c.symmetric_encrypt(&data, &secret).unwrap();
    let opened = c.symmetric_decrypt(&sealed, &other).unwrap();
    assert_ne!(opened, data);
}

#[test]
fn envelope_error_cases() {
    let c = PqcCrypto::new();
    assert_eq!(
        c.symmetric_encrypt(b"data", "!!! not base64"),
        Err(PqcError::InvalidEncoding)
    );
    // an empty key cannot seal a non-empty payload
    assert_eq!(c.symmetric_encrypt(b"data", ""), Err(PqcError::InvalidLength));
    assert_eq!(
        c.symmetric_decrypt("also not base64 !!!", "a2V5"),
        Err(PqcError::InvalidEncoding)
    );
}

#[test]
fn digest_is_stable_and_encoded() {
    let c = PqcCrypto::new();
    let d1 = c.hash_data(b"abc");
    let d2 = c.hash_data(b"abc");
    assert_eq!(d1, d2);
    assert_ne!(d1.as_bytes(), b"abc");
    // SHA3-256 of an empty input, base64-encoded
    let empty = c.hash_data(b"");
    let expected = base64::engine::general_purpose::STANDARD.encode([
        0xa7u8, 0xff, 0xc6, 0xf8, 0xbf, 0x1e, 0xd7, 0x66, 0x51, 0xc1, 0x47, 0x56, 0xa0, 0x61,
        0xd6, 0x62, 0xf5, 0x80, 0xff, 0x4d, 0xe4, 0x3b, 0x49, 0xfa, 0x82, 0xd8, 0x0a, 0x4b, 0x80,
        0xf8, 0x43, 0x4a,
    ]);
    assert_eq!(empty, expected);
}

#[test]
fn handshake_and_verification() {
    let service = PqcCrypto::new();
    let peer = PqcCrypto::new();
    let (peer_kyber, peer_dilithium, _) = peer.get_public_keys();
    // the service encapsulates against the peer and signs the secret
    let session = service.create_secure_session(&peer_kyber).unwrap();
    let (_, service_dilithium, _) = service.get_public_keys();
    // the peer decapsulates and checks the signature covers the secret
    let recovered = peer.verify_secure_session(&session, &service_dilithium).unwrap();
    assert_eq!(recovered, session.shared_secret);
}

#[test]
fn handshake_rejects_bad_peer_keys() {
    let c = PqcCrypto::new();
    assert_eq!(
        c.create_secure_session("@@@ not base64").unwrap_err(),
        PqcError::InvalidEncoding
    );
    assert_eq!(
        c.create_secure_session("c2hvcnQ=").unwrap_err(),
        PqcError::InvalidLength
    );
}

#[test]
fn verification_rejects_a_forged_signature() {
    let service = PqcCrypto::new();
    let peer = PqcCrypto::new();
    let (peer_kyber, _, _) = peer.get_public_keys();
    let mut session = service.create_secure_session(&peer_kyber).unwrap();
    // a signature over something else does not cover the secret
    session.signature = service
        .dilithium_sign(b"something else entirely")
        .unwrap();
    let (_, service_dilithium, _) = service.get_public_keys();
    assert_eq!(
        peer.verify_secure_session(&session, &service_dilithium)
            .unwrap_err(),
        PqcError::VerificationFailed
    );
}

#[test]
fn dilithium_sign_verify_round_trip() {
    let c = PqcCrypto::new();
    let signed = c.dilithium_sign(b"message to stamp").unwrap();
    let (_, pk, _) = c.get_public_keys();
    let opened = c.dilithium_verify(&signed, &pk).unwrap();
    assert_eq!(opened, b"message to stamp".to_vec());
    assert_eq!(
        c.dilithium_verify(&signed, "dG9vIHNob3J0").unwrap_err(),
        PqcError::InvalidLength
    );
}

#[test]
fn sphincs_sign_verify_round_trip() {
    let c = PqcCrypto::new();
    let signed = c.sphincs_sign(b"alternative stamp").unwrap();
    let (_, _, pk) = c.get_public_keys();
    let opened = c.sphincs_verify(&signed, &pk).unwrap();
    assert_eq!(opened, b"alternative stamp".to_vec());
}

#[test]
fn kyber_encapsulation_checks_key_size() {
    let c = PqcCrypto::new();
    let (kyber_pk, _, _) = c.get_public_keys();
    let (shared, ciphertext) = c.kyber_encapsulate(&kyber_pk).unwrap();
    // decapsulating our own encapsulation returns the same secret
    let recovered = c.kyber_decapsulate(&ciphertext).unwrap();
    assert_eq!(recovered, shared);
    assert_eq!(
        c.kyber_encapsulate("AAAA").unwrap_err(),
        PqcError::InvalidLength
    );
    assert_eq!(
        c.kyber_decapsulate("////invalid....").unwrap_err(),
        PqcError::InvalidEncoding
    );
}

#[test]
fn from_keys_preserves_material() {
    let c = PqcCrypto::new();
    let copy = PqcCrypto::from_keys(c.key_pair.clone());
    assert_eq!(copy.key_pair.kyber_public_key, c.key_pair.kyber_public_key);
    let (k, d, s) = copy.get_public_keys();
    assert_eq!(k, c.key_pair.kyber_public_key);
    assert_eq!(d, c.key_pair.dilithium_public_key);
    assert_eq!(s, c.key_pair.sphincs_public_key);
}

#[test]
fn html_rewrite_absolutises_links() {
    let html = br#"<a href="/x">x</a><img src="/i.png"><form action="/post"> url(/s.css) <a href="//cdn.example/z">z</a>"#;
    let out = rewrite_html(html, b"https://example.org/page");
    let text = String::from_utf8(out).unwrap();
    assert!(text.contains(r#"href="https://example.org/x""#));
    assert!(text.contains(r#"src="https://example.org/i.png""#));
    assert!(text.contains(r#"action="https://example.org/post""#));
    assert!(text.contains("url(https://example.org/s.css)"));
    // a protocol-relative link is caught by the root-relative rule first
    assert!(text.contains(r#"href="https://example.org//cdn.example/z""#));
}

#[test]
fn html_rewrite_pins_protocol_relative_sources() {
    // src rules run after href: a protocol-relative src that the root
    // rule already absolutised stays put, but a plain double-slash in a
    // fresh src is pinned to https
    let out = rewrite_html(br#"<video poster="x" src="//cdn.example/v">"#, b"ftp://h/");
    let text = String::from_utf8(out).unwrap();
    assert!(text.contains(r#"src="ftp://h//cdn.example/v""#));
}

#[test]
fn html_rewrite_keeps_unparseable_bases() {
    let html = br#"<a href="/x">x</a>"#.to_vec();
    let out = rewrite_html(&html, b"not a url");
    assert_eq!(out, html);
}
