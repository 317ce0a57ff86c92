use botrun::classify::{classify, code_block_text, is_html, to_display_text, DeliveryPayload};
use botrun::fetch::{classify_response, MAX_FILE_SIZE, MAX_MESSAGE_SIZE};

const TL: usize = 1900;
const FL: usize = 10_000_000;

#[test]
fn size_gate_text_at_limit_inlines() {
    let text: Vec<u8> = vec![b'a'; 1900];
    match classify(text, "text/plain", TL, FL) {
        DeliveryPayload::CodeBlock { lang_tag, text } => {
            assert_eq!(lang_tag, "");
            assert_eq!(text.len(), 1900);
        }
        _ => panic!("1900 characters of text must inline as a code block"),
    }
}

#[test]
fn size_gate_text_over_limit_attaches() {
    let text: Vec<u8> = vec![b'a'; 1901];
    match classify(text, "text/plain", TL, FL) {
        DeliveryPayload::Attachment { bytes, filename } => {
            assert_eq!(filename, "response.txt");
            assert_eq!(bytes.len(), 1901);
        }
        _ => panic!("1901 characters of text must become an attachment"),
    }
}

#[test]
fn size_gate_oversize_binary_rejected() {
    let mut blob: Vec<u8> = vec![0xff; 10_000_001];
    blob[0] = 0xfe;
    match classify(blob, "application/octet-stream", TL, FL) {
        DeliveryPayload::Rejected(reason) => {
            assert!(reason.contains("10MB"));
        }
        _ => panic!("an oversize undecodable body must be rejected"),
    }
}

#[test]
fn html_never_inlines() {
    match classify(vec![b'x'], "text/html; charset=utf-8", TL, FL) {
        DeliveryPayload::Attachment { bytes, filename } => {
            assert_eq!(filename, "response.html");
            assert_eq!(bytes, vec![b'x']);
        }
        _ => panic!("one byte of HTML must attach, never inline"),
    }
}

#[test]
fn json_round_trip_pretty() {
    let body = b"{\"a\":1}".to_vec();
    match classify(body, "application/json", TL, FL) {
        DeliveryPayload::CodeBlock { lang_tag, text } => {
            assert_eq!(lang_tag, "json");
            let reparsed: serde_json::Value = serde_json::from_str(&text).unwrap();
            let source: serde_json::Value = serde_json::from_slice(b"{\"a\":1}").unwrap();
            assert_eq!(reparsed, source);
            assert_ne!(text, "{\"a\":1}");
        }
        _ => panic!("small JSON must inline as a json code block"),
    }
}

#[test]
fn fetch_scenario_json_response() {
    match classify_response(b"{\"x\":1}".to_vec(), "application/json") {
        DeliveryPayload::CodeBlock { lang_tag, text } => {
            assert_eq!(lang_tag, "json");
            assert_eq!(text, "{\n  \"x\": 1\n}");
        }
        _ => panic!("the GET scenario must end in a json code block"),
    }
}

#[test]
fn constants_match_policy() {
    assert_eq!(MAX_MESSAGE_SIZE, 1900);
    assert_eq!(MAX_FILE_SIZE, 10_000_000);
}

#[test]
fn small_binary_attaches_as_bin() {
    match classify(vec![0xff, 0x00], "application/octet-stream", TL, FL) {
        DeliveryPayload::Attachment { filename, .. } => assert_eq!(filename, "response.bin"),
        _ => panic!("small binary must attach"),
    }
}

#[test]
fn undecodable_text_family_attaches() {
    match classify(vec![0xff, 0xfe], "text/plain", TL, FL) {
        DeliveryPayload::Attachment { filename, .. } => assert_eq!(filename, "response.bin"),
        _ => panic!("undecodable bytes must attach even under a text content type"),
    }
}

#[test]
fn display_text_decodes_plain_text() {
    assert_eq!(to_display_text(b"abc", "text/plain"), Some("abc".to_string()));
    assert_eq!(to_display_text(b"abc", "text/html"), None);
    assert_eq!(to_display_text(&[0xff], "text/plain"), None);
    assert_eq!(to_display_text(b"abc", "image/png"), None);
}

#[test]
fn html_detection_is_a_prefix_test() {
    assert!(is_html("text/html"));
    assert!(is_html("text/html; charset=utf-8"));
    assert!(!is_html("text/plain"));
    assert!(!is_html("application/json"));
}

#[test]
fn code_block_renders_fences() {
    assert_eq!(code_block_text("json", "{}"), "```json\n{}\n```");
    assert_eq!(code_block_text("", "x"), "```\nx\n```");
}
