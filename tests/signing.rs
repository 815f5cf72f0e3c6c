use wss_signer::decimal::decimal_string;
use wss_signer::signer::{canonical_message, generate_wss_url, sign};

const GOLDEN_SIGN: &str = "1DCB368328D9DD9AE907426D6AF0765BF1E7281C7BD5D0755BE052D29FBAF88E";

fn is_upper_hex(s: &str) -> bool {
    s.chars().all(|c| c.is_ascii_digit() || ('A'..='F').contains(&c))
}

#[test]
fn golden_url_without_session() {
    let url = generate_wss_url("ABC", b"secret", None, 1700000000000);
    assert_eq!(
        url,
        format!(
            "wss://ws.coincall.com/options?code=10&ts=1700000000000&sign={}&apiKey=ABC",
            GOLDEN_SIGN
        )
    );
}

#[test]
fn golden_canonical_message() {
    assert_eq!(
        canonical_message("ABC", 1700000000000),
        "GET/users/self/verify?uuid=ABC&ts=1700000000000"
    );
}

#[test]
fn golden_signature() {
    let msg = canonical_message("ABC", 1700000000000);
    assert_eq!(sign(b"secret", &msg), GOLDEN_SIGN);
}

#[test]
fn same_timestamp_gives_same_url() {
    let a = generate_wss_url("key1", b"s3cr3t", Some("sess"), 1234567890123);
    let b = generate_wss_url("key1", b"s3cr3t", Some("sess"), 1234567890123);
    assert_eq!(a, b);
    let c = generate_wss_url("key1", b"s3cr3t", Some("sess"), 1234567890124);
    assert_ne!(a, c);
}

#[test]
fn signature_is_64_uppercase_hex() {
    for (secret, msg) in [
        (&b""[..], ""),
        (&b"secret"[..], "GET/users/self/verify?uuid=ABC&ts=1"),
        (&[0xffu8; 200][..], "a longer message with spaces and \u{e9}"),
    ] {
        let s = sign(secret, msg);
        assert_eq!(s.len(), 64);
        assert!(is_upper_hex(&s), "{}", s);
    }
}

#[test]
fn session_id_follows_code() {
    let url = generate_wss_url("ABC", b"secret", Some("my-session"), 1700000000000);
    assert!(url.starts_with("wss://ws.coincall.com/options?code=10&uuid=my-session&ts=1700000000000&sign="));
    assert!(url.ends_with("&apiKey=ABC"));
    // the session id is not part of what is signed
    assert!(url.contains(GOLDEN_SIGN));
}

#[test]
fn no_session_means_no_uuid_parameter() {
    let url = generate_wss_url("ABC", b"secret", None, 1700000000000);
    assert!(!url.contains("uuid="));
}

#[test]
fn secret_byte_change_changes_signature_only() {
    let msg = canonical_message("ABC", 1700000000000);
    let base = sign(b"secret", &msg);
    let mut secret = b"secret".to_vec();
    for i in 0..secret.len() {
        secret[i] ^= 1;
        assert_ne!(sign(&secret, &msg), base);
        secret[i] ^= 1;
    }
    assert_eq!(canonical_message("ABC", 1700000000000), msg);
}

#[test]
fn key_change_changes_message_and_api_key() {
    let m1 = canonical_message("ABC", 1700000000000);
    let m2 = canonical_message("ABD", 1700000000000);
    assert_ne!(m1, m2);
    assert_eq!(m2, "GET/users/self/verify?uuid=ABD&ts=1700000000000");
    let u1 = generate_wss_url("ABC", b"secret", None, 1700000000000);
    let u2 = generate_wss_url("ABD", b"secret", None, 1700000000000);
    assert!(u2.ends_with("&apiKey=ABD"));
    assert_ne!(u1, u2);
    assert_ne!(sign(b"secret", &m1), sign(b"secret", &m2));
}

#[test]
fn empty_key_and_secret() {
    let url = generate_wss_url("", b"", None, 0);
    let msg = canonical_message("", 0);
    assert_eq!(msg, "GET/users/self/verify?uuid=&ts=0");
    assert_eq!(
        url,
        format!("wss://ws.coincall.com/options?code=10&ts=0&sign={}&apiKey=", sign(b"", &msg))
    );
}

#[test]
fn decimal_rendering() {
    assert_eq!(decimal_string(0), "0");
    assert_eq!(decimal_string(9), "9");
    assert_eq!(decimal_string(10), "10");
    assert_eq!(decimal_string(1700000000000), "1700000000000");
    assert_eq!(decimal_string(u128::MAX), u128::MAX.to_string());
}
