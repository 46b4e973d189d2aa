use beep_sfu::json::encode_offer_json;

// Builds the same object with serde_json and renders it, as the independent
// reference for the frame layout and the escaping rule.  serde_json's map
// orders members by key, and "sdp" sorts before "type", so the layouts agree.
fn serde_frame(sdp: &str, sdp_type: &str) -> String {
    let mut object = serde_json::Map::new();
    object.insert(
        String::from("sdp"),
        serde_json::Value::String(String::from(sdp)),
    );
    object.insert(
        String::from("type"),
        serde_json::Value::String(String::from(sdp_type)),
    );
    serde_json::to_string(&serde_json::Value::Object(object)).unwrap()
}

#[test]
fn plain_text_is_framed_verbatim() {
    assert_eq!(
        encode_offer_json("v=0...", "offer"),
        "{\"sdp\":\"v=0...\",\"type\":\"offer\"}"
    );
}

#[test]
fn empty_members_frame_to_empty_strings() {
    assert_eq!(encode_offer_json("", ""), "{\"sdp\":\"\",\"type\":\"\"}");
}

#[test]
fn quotes_and_backslashes_are_escaped() {
    assert_eq!(
        encode_offer_json("a\"b\\c", "offer"),
        "{\"sdp\":\"a\\\"b\\\\c\",\"type\":\"offer\"}"
    );
}

#[test]
fn control_characters_use_shorthand_escapes() {
    assert_eq!(
        encode_offer_json("a\nb\rc\td\u{8}e\u{c}f", "offer"),
        "{\"sdp\":\"a\\nb\\rc\\td\\be\\ff\",\"type\":\"offer\"}"
    );
}

#[test]
fn other_control_characters_use_unicode_escapes() {
    assert_eq!(
        encode_offer_json("a\u{1}b\u{1f}c", "offer"),
        "{\"sdp\":\"a\\u0001b\\u001fc\",\"type\":\"offer\"}"
    );
}

#[test]
fn non_ascii_text_passes_through() {
    assert_eq!(
        encode_offer_json("h\u{e9}llo \u{2713}", "offer"),
        "{\"sdp\":\"h\u{e9}llo \u{2713}\",\"type\":\"offer\"}"
    );
}

#[test]
fn frame_agrees_with_serde_json() {
    let cases: Vec<(&str, &str)> = vec![
        ("v=0...", "offer"),
        ("", ""),
        ("a\"b\\c", "offer"),
        ("a\nb\rc\td\u{8}e\u{c}f", "answer"),
        ("a\u{1}b\u{1f}c\u{7f}", "offer"),
        ("h\u{e9}llo \u{2713} \u{1f600}", "offer"),
        ("line1\r\nline2\r\n", "sdp \"type\""),
    ];
    for (sdp, sdp_type) in cases {
        assert_eq!(encode_offer_json(sdp, sdp_type), serde_frame(sdp, sdp_type));
    }
}
