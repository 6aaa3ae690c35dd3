use timelapse_core::monitoring::{clean_reply, generate_signed_query, image_expired,
    multipart_image_body, openai_request_body, post_interval_reached, post_message_body,
    Monitoring, EXPIRATION};

#[test]
fn monitoring_state_round_trip() {
    let mut m = Monitoring::new(String::from("gpt-4-turbo"), String::from("SECRET-REDACTED"),
        1700000000);
    assert!(!m.get_query_status());
    assert_eq!(m.get_query_reply(), "");
    m.set_query_start(String::from("what changed"), 4, 7);
    assert!(m.get_query_status());
    assert_eq!(m.openai.track_id, 4);
    assert_eq!(m.openai.count, 7);
    m.set_post_access_token(String::from("room"), String::from("SECRET-REDACTED"),
        String::from("ALERT"));
    assert_eq!(m.postmsg.post_to, "room");
    assert_eq!(m.postmsg.post_message_trigger, "ALERT");
    m.set_storage_access_token(String::from("acct"), String::from("SECRET-REDACTED"),
        String::from("SECRET-REDACTED"));
    assert_eq!(m.postmsg.storage_account, "acct");
    m.post_message_request(String::from("hello"), 1, 2);
    assert!(m.get_post_message_status());
    assert!(!m.get_posted_status());
    m.set_last_posted_date_time(1700000100, 3600);
    assert_eq!(m.postmsg.last_posted_date_time, 1700000100);
    assert_eq!(m.postmsg.post_interval, 3600);
}

#[test]
fn post_interval_gate() {
    // no interval configured: always reached
    assert!(post_interval_reached(1000, 1000, 0));
    // interval not yet elapsed
    assert!(!post_interval_reached(1000, 1500, 600));
    // exactly elapsed
    assert!(post_interval_reached(1000, 1600, 600));
}

#[test]
fn image_expiry_after_one_day() {
    let uploaded = 1700000000u64;
    assert!(!image_expired(uploaded, uploaded + EXPIRATION - 1));
    assert!(image_expired(uploaded, uploaded + EXPIRATION));
}

#[test]
fn clean_reply_strips_line_breaks() {
    assert_eq!(clean_reply("a\r\nb\nc\r"), "a b c");
    assert_eq!(clean_reply("plain"), "plain");
    assert_eq!(clean_reply(""), "");
}

#[test]
fn openai_body_matches_template() {
    let body = openai_request_body("gpt-4-turbo", "what is this", "low", 100, b"abc");
    let expected = format!(
        r#"{{"model": "{}", "messages": [
{{"role": "user", "content": [
    {{"type": "text", "text": "{}"}},
    {{"type": "image_url", "image_url": {{"url": "data:image/jpeg;base64,{}", "detail": "{}" }}}}
]}}],
"max_tokens": {}}}"#,
        "gpt-4-turbo", "what is this", "YWJj", "low", 100
    );
    assert_eq!(body, expected);
}

#[test]
fn post_message_body_matches_template() {
    let body = post_message_body("room", "all\r\nfine", "https://img.example/u1");
    let expected = format!(
        r#"{{"to": "{}", "messages": [
{{"type": "text", "text": "{}"}},
{{"type": "image", "originalContentUrl": "{}", "previewImageUrl": "{}"}}
]}}"#,
        "room", "all fine", "https://img.example/u1", "https://img.example/u1"
    );
    assert_eq!(body, expected);
}

#[test]
fn multipart_body_layout() {
    let body = multipart_image_body("t1i2.jpg", &[0xFF, 0xD8, 0xFF], true);
    let boundary = "--------------------------a90531928d528eaf";
    let mut expected: Vec<u8> = Vec::new();
    expected.extend_from_slice(format!("{}\r\n", boundary).as_bytes());
    expected.extend_from_slice(
        b"Content-Disposition: form-data; name=\"file\"; filename=\"t1i2.jpg\"\r\n");
    expected.extend_from_slice(b"Content-Type: image/jpeg\r\n");
    expected.extend_from_slice(b"\r\n");
    expected.extend_from_slice(&[0xFF, 0xD8, 0xFF]);
    expected.extend_from_slice(format!("\r\n{}\r\n", boundary).as_bytes());
    expected.extend_from_slice(
        b"Content-Disposition: form-data; name=\"requireSignedURLs\"\r\n\r\ntrue\r\n");
    expected.extend_from_slice(format!("{}--\r\n", boundary).as_bytes());
    assert_eq!(body, expected);
}

#[test]
fn signed_query_empty_query() {
    let q = generate_signed_query("/images/abc.jpg", "", "secretkey", 1700000000);
    assert_eq!(q,
        "exp=1700000000&sig=37fa1bc3fac3d2c6bb6f6a35ce9af947c407b360879f21907e9480684d5fcc34");
}

#[test]
fn signed_query_appends_to_existing() {
    let q = generate_signed_query("/images/abc.jpg", "w=100", "secretkey", 1700000000);
    assert_eq!(q,
        "w=100&exp=1700000000&sig=5703849eeaab9cf0cb1366d37e1fc01456f0028bbcd1d691beeb662d4513a545");
}

use hmac::{KeyInit, Mac};

#[test]
fn signed_query_matches_direct_hmac() {
    // the signature must be the HMAC-SHA-256 of "path?query-with-exp",
    // computed here directly with the underlying crates
    let path = "/i/x.jpg";
    let key = "k";
    let expiry = 42u64;
    let q = generate_signed_query(path, "a=1", key, expiry);
    let sts = format!("{}?a=1&exp={}", path, expiry);
    let mut mac = <hmac::Hmac<sha2::Sha256> as KeyInit>::new_from_slice(key.as_bytes())
        .unwrap();
    mac.update(sts.as_bytes());
    let sig = hex::encode(mac.finalize().into_bytes());
    assert_eq!(q, format!("a=1&exp={}&sig={}", expiry, sig));
}
