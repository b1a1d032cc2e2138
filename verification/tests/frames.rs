//! The exact wire text of the platform frames.

use presence_bridge::activity::translate;
use presence_bridge::frames::{render_handshake_frame, render_set_activity_frame};
use presence_bridge::types::PresenceData;
use presence_bridge::wire::chars_to_string;

fn empty_data() -> PresenceData {
    PresenceData {
        state: None,
        details: None,
        start_timestamp: None,
        end_timestamp: None,
        large_image_key: None,
        large_image_text: None,
        small_image_key: None,
        small_image_text: None,
        instance: None,
        party_id: None,
        party_size: None,
        party_max: None,
        match_secret: None,
        spectate_secret: None,
        join_secret: None,
        buttons: None,
    }
}

#[test]
fn handshake_frame_text() {
    let f = render_handshake_frame("123");
    assert_eq!(chars_to_string(&f), "{\"v\":1,\"client_id\":\"123\"}");
}

#[test]
fn clear_frame_has_null_activity() {
    let f = render_set_activity_frame(1, 0, None);
    assert_eq!(
        chars_to_string(&f),
        "{\"cmd\":\"SET_ACTIVITY\",\"args\":{\"pid\":1,\"activity\":null},\"nonce\":\"0\"}",
    );
}

#[test]
fn state_only_frame_text() {
    let mut d = empty_data();
    d.state = Some("hi".to_string());
    let a = translate(&d);
    let f = render_set_activity_frame(42, 7, Some(&a));
    assert_eq!(
        chars_to_string(&f),
        "{\"cmd\":\"SET_ACTIVITY\",\"args\":{\"pid\":42,\
         \"activity\":{\"state\":\"hi\"}},\"nonce\":\"7\"}",
    );
}

#[test]
fn party_pair_and_negative_timestamp_in_frame() {
    let mut d = empty_data();
    d.start_timestamp = Some(-5);
    d.party_id = Some("p".to_string());
    d.party_size = Some(1);
    d.party_max = Some(3);
    let a = translate(&d);
    let f = render_set_activity_frame(2, 9, Some(&a));
    assert_eq!(
        chars_to_string(&f),
        "{\"cmd\":\"SET_ACTIVITY\",\"args\":{\"pid\":2,\"activity\":\
         {\"timestamps\":{\"start\":-5},\
         \"party\":{\"id\":\"p\",\"size\":[1,3]}}},\"nonce\":\"9\"}",
    );
}

#[test]
fn string_values_are_escaped() {
    let mut d = empty_data();
    d.state = Some("a\"b\\c\nd".to_string());
    let a = translate(&d);
    let f = render_set_activity_frame(1, 1, Some(&a));
    let text = chars_to_string(&f);
    assert!(text.contains("\"state\":\"a\\\"b\\\\c\\nd\""));
}

#[test]
fn frames_parse_as_json() {
    let mut d = empty_data();
    d.state = Some("s".to_string());
    d.details = Some("line1\nline2".to_string());
    d.join_secret = Some("j".to_string());
    d.buttons = Some(vec![presence_bridge::types::Button {
        label: "l".to_string(),
        url: "u".to_string(),
    }]);
    let a = translate(&d);
    let f = render_set_activity_frame(10, 3, Some(&a));
    let text = chars_to_string(&f);
    let v: serde_json::Value = serde_json::from_str(&text).expect("frame must be JSON");
    assert_eq!(v["cmd"], serde_json::Value::String("SET_ACTIVITY".to_string()));
    assert_eq!(v["args"]["activity"]["details"].as_str(), Some("line1\nline2"));
    assert_eq!(v["args"]["activity"]["buttons"][0]["label"].as_str(), Some("l"));
    assert_eq!(v["args"]["activity"]["secrets"]["join"].as_str(), Some("j"));

    let h = render_handshake_frame("a\"b");
    let hv: serde_json::Value =
        serde_json::from_str(&chars_to_string(&h)).expect("handshake must be JSON");
    assert_eq!(hv["client_id"].as_str(), Some("a\"b"));
    assert_eq!(hv["v"].as_u64(), Some(1));
}
