//! The low-level wire text: character collection, decimal digits and
//! escaping at the edges.

use presence_bridge::activity::translate;
use presence_bridge::frames::{render_handshake_frame, render_set_activity_frame};
use presence_bridge::types::PresenceData;
use presence_bridge::wire::chars_to_string;

#[test]
fn chars_collect_in_order() {
    let v = vec!['a', 'b', 'c'];
    assert_eq!(chars_to_string(&v), "abc");
    let empty: Vec<char> = Vec::new();
    assert_eq!(chars_to_string(&empty), "");
}

#[test]
fn largest_nonce_renders_all_digits() {
    let f = render_set_activity_frame(0, u64::MAX, None);
    let text = chars_to_string(&f);
    assert!(text.contains("\"nonce\":\"18446744073709551615\""));
    assert!(text.contains("\"pid\":0"));
}

#[test]
fn extreme_timestamps_render_in_decimal() {
    let d = PresenceData {
        state: None,
        details: None,
        start_timestamp: Some(i64::MIN),
        end_timestamp: Some(i64::MAX),
        large_image_key: None,
        large_image_text: None,
        small_image_key: None,
        small_image_text: None,
        instance: None,
        party_id: None,
        party_size: None,
        party_max: None,
        match_secret: None,
        spectate_secret: None,
        join_secret: None,
        buttons: None,
    };
    let a = translate(&d);
    let text = chars_to_string(&render_set_activity_frame(1, 0, Some(&a)));
    assert!(text.contains("\"start\":-9223372036854775808"));
    assert!(text.contains("\"end\":9223372036854775807"));
}

#[test]
fn control_characters_are_escaped_as_hex() {
    let h = render_handshake_frame("a\u{1}b\u{1f}c\td");
    let text = chars_to_string(&h);
    assert!(text.contains("a\\u0001b\\u001fc\\td"));
    let v: serde_json::Value = serde_json::from_str(&text).unwrap();
    assert_eq!(v["client_id"].as_str(), Some("a\u{1}b\u{1f}c\td"));
}
