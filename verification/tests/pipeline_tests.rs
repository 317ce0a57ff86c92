use botrun::classify::to_message_or_file_bytes;
use botrun::fetch::{
    cooldown_message, fetch_preflight, parse_headers_json, parse_payload_json, validate_url,
    Preflight, COOLDOWN_SECS, MAX_MESSAGE_SIZE,
};
use botrun::limiter::{AdmitDecision, RateLimiter};

#[test]
fn cooldown_denies_inside_window() {
    let mut rl = RateLimiter::new(10);
    assert_eq!(rl.admit_call(7, 100), AdmitDecision::Admitted);
    assert_eq!(rl.admit_call(7, 105), AdmitDecision::Denied { retry_after: 5 });
    assert_eq!(rl.admit_call(7, 109), AdmitDecision::Denied { retry_after: 1 });
    assert_eq!(rl.admit_call(7, 110), AdmitDecision::Admitted);
}

#[test]
fn cooldown_is_per_actor() {
    let mut rl = RateLimiter::new(10);
    assert_eq!(rl.admit_call(1, 100), AdmitDecision::Admitted);
    assert_eq!(rl.admit_call(2, 100), AdmitDecision::Admitted);
    assert_eq!(rl.admit_call(1, 101), AdmitDecision::Denied { retry_after: 9 });
}

#[test]
fn denied_call_does_not_extend_the_window() {
    let mut rl = RateLimiter::new(10);
    assert_eq!(rl.admit_call(3, 100), AdmitDecision::Admitted);
    assert_eq!(rl.admit_call(3, 109), AdmitDecision::Denied { retry_after: 1 });
    assert_eq!(rl.admit_call(3, 110), AdmitDecision::Admitted);
}

#[test]
fn first_call_is_always_admitted() {
    let mut rl = RateLimiter::new(COOLDOWN_SECS);
    assert_eq!(rl.admit_call(42, 0), AdmitDecision::Admitted);
}

#[test]
fn url_validation() {
    assert!(validate_url("https://example.com/a?b=c").is_ok());
    assert!(validate_url("http://127.0.0.1:8080/").is_ok());
    let e = validate_url("ftp://example.com").unwrap_err();
    assert!(e.contains("http(s)"));
    assert!(validate_url("not a url").is_err());
    assert!(validate_url("/relative/path").is_err());
}

#[test]
fn headers_parse_object() {
    let v = parse_headers_json("{\"a\":\"b\",\"n\":1}").unwrap();
    assert_eq!(v, vec![("a".to_string(), "b".to_string()), ("n".to_string(), "1".to_string())]);
}

#[test]
fn headers_blank_means_none() {
    assert_eq!(parse_headers_json("").unwrap(), vec![]);
    assert_eq!(parse_headers_json("   \n\t").unwrap(), vec![]);
}

#[test]
fn headers_reject_non_object_and_non_json() {
    let not_object = parse_headers_json("[1,2]").unwrap_err();
    assert!(not_object.contains("JSON \u{30aa}\u{30d6}\u{30b8}\u{30a7}\u{30af}\u{30c8}"));
    let not_json = parse_headers_json("{nope").unwrap_err();
    assert!(not_json.contains("\u{89e3}\u{6790}\u{306b}\u{5931}\u{6557}"));
}

#[test]
fn payload_is_normalized_compact_json() {
    assert_eq!(parse_payload_json("{ \"a\" : 1 }").unwrap(), "{\"a\":1}");
    assert!(parse_payload_json("nope").is_err());
}

#[test]
fn cooldown_message_carries_seconds() {
    let m = cooldown_message(5);
    assert_eq!(
        m,
        "\u{30af}\u{30fc}\u{30eb}\u{30c0}\u{30a6}\u{30f3}\u{4e2d}\u{3067}\u{3059}\u{3002}5\u{79d2}\u{5f8c}\u{306b}\u{518d}\u{8a66}\u{884c}\u{3057}\u{3066}\u{304f}\u{3060}\u{3055}\u{3044}"
    );
    assert!(cooldown_message(10).contains("10"));
}

#[test]
fn preflight_denies_then_validates() {
    let mut rl = RateLimiter::new(10);
    match fetch_preflight(&mut rl, 1, 100, "https://example.com", None, None) {
        Preflight::Ready { headers, payload } => {
            assert!(headers.is_empty());
            assert!(payload.is_none());
        }
        _ => panic!("a clean GET must pass the preflight"),
    }
    match fetch_preflight(&mut rl, 1, 103, "https://example.com", None, None) {
        Preflight::Denied { message } => assert!(message.contains("7")),
        _ => panic!("a repeat inside the window must be denied"),
    }
}

#[test]
fn preflight_rejects_bad_url_after_consuming_slot() {
    let mut rl = RateLimiter::new(10);
    match fetch_preflight(&mut rl, 9, 50, "gopher://x", None, None) {
        Preflight::Invalid { message } => assert!(message.contains("http(s)")),
        _ => panic!("a bad URL must be rejected before any network work"),
    }
    // The slot was consumed at admission even though the URL was rejected.
    match fetch_preflight(&mut rl, 9, 51, "https://example.com", None, None) {
        Preflight::Denied { .. } => {}
        _ => panic!("the rejected call must still have consumed the slot"),
    }
}

#[test]
fn preflight_post_payload_and_headers() {
    let mut rl = RateLimiter::new(10);
    match fetch_preflight(
        &mut rl,
        5,
        10,
        "http://example.com",
        Some("{\"k\": 2}"),
        Some("{\"h\":\"v\"}"),
    ) {
        Preflight::Ready { headers, payload } => {
            assert_eq!(headers, vec![("h".to_string(), "v".to_string())]);
            assert_eq!(payload.as_deref(), Some("{\"k\":2}"));
        }
        _ => panic!("a well-formed POST must pass the preflight"),
    }
    match fetch_preflight(&mut rl, 6, 10, "http://example.com", Some("broken"), None) {
        Preflight::Invalid { message } => {
            assert!(message.contains("\u{30da}\u{30a4}\u{30ed}\u{30fc}\u{30c9}"))
        }
        _ => panic!("a broken POST body must be rejected"),
    }
}

#[test]
fn tool_output_small_text_inlines() {
    let r = to_message_or_file_bytes(b"  hi\n".to_vec(), MAX_MESSAGE_SIZE);
    assert_eq!(r.unwrap(), "hi");
}

#[test]
fn tool_output_empty_gets_placeholder() {
    let r = to_message_or_file_bytes(b"   \n".to_vec(), MAX_MESSAGE_SIZE);
    assert_eq!(r.unwrap(), "(\u{7a7a}\u{306e}\u{5fdc}\u{7b54})");
}

#[test]
fn tool_output_long_text_becomes_txt_file() {
    let long = vec![b'x'; 4000];
    match to_message_or_file_bytes(long.clone(), MAX_MESSAGE_SIZE) {
        Err((bytes, name)) => {
            assert_eq!(bytes, long);
            assert_eq!(name, "gpt.txt");
        }
        Ok(_) => panic!("4000 characters cannot inline"),
    }
}

#[test]
fn tool_output_binary_becomes_bin_file() {
    match to_message_or_file_bytes(vec![0xff, 0x00], MAX_MESSAGE_SIZE) {
        Err((_, name)) => assert_eq!(name, "gpt.bin"),
        Ok(_) => panic!("undecodable bytes cannot inline"),
    }
}
