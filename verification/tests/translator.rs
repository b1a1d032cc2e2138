//! The pure translation: block presence rules and field mapping.

use presence_bridge::activity::translate;
use presence_bridge::types::{Button, PresenceData};

fn empty_data() -> PresenceData {
    PresenceData {
        state: None,
        details: None,
        start_timestamp: None,
        end_timestamp: None,
        large_image_key: None,
        large_image_text: None,
        small_image_key: None,
        small_image_text: None,
        instance: None,
        party_id: None,
        party_size: None,
        party_max: None,
        match_secret: None,
        spectate_secret: None,
        join_secret: None,
        buttons: None,
    }
}

#[test]
fn state_only_populates_state_and_nothing_else() {
    let mut d = empty_data();
    d.state = Some("Playing".to_string());
    let a = translate(&d);
    assert_eq!(a.state.as_deref(), Some("Playing"));
    assert!(a.details.is_none());
    assert!(a.timestamps.is_none());
    assert!(a.assets.is_none());
    assert!(a.party.is_none());
    assert!(a.secrets.is_none());
    assert!(a.buttons.is_none());
}

#[test]
fn party_size_alone_emits_no_party_block() {
    let mut d = empty_data();
    d.party_size = Some(2);
    let a = translate(&d);
    assert!(a.party.is_none());
}

#[test]
fn party_id_alone_emits_party_without_size() {
    let mut d = empty_data();
    d.party_id = Some("p1".to_string());
    let a = translate(&d);
    let p = a.party.expect("party block expected");
    assert_eq!(p.id.as_deref(), Some("p1"));
    assert!(p.size.is_none());
}

#[test]
fn party_size_and_max_emit_the_pair() {
    let mut d = empty_data();
    d.party_size = Some(2);
    d.party_max = Some(8);
    let a = translate(&d);
    let p = a.party.expect("party block expected");
    assert!(p.id.is_none());
    assert_eq!(p.size, Some((2, 8)));
}

#[test]
fn timestamps_block_appears_with_either_end() {
    let mut d = empty_data();
    d.end_timestamp = Some(99);
    let a = translate(&d);
    let t = a.timestamps.expect("timestamps block expected");
    assert_eq!(t.start, None);
    assert_eq!(t.end, Some(99));
}

#[test]
fn assets_block_appears_with_any_image_field() {
    let mut d = empty_data();
    d.small_image_text = Some("hover".to_string());
    let a = translate(&d);
    let s = a.assets.expect("assets block expected");
    assert!(s.large_image.is_none());
    assert!(s.large_text.is_none());
    assert!(s.small_image.is_none());
    assert_eq!(s.small_text.as_deref(), Some("hover"));
}

#[test]
fn secrets_block_appears_with_any_secret() {
    let mut d = empty_data();
    d.match_secret = Some("m".to_string());
    let a = translate(&d);
    let s = a.secrets.expect("secrets block expected");
    assert!(s.join.is_none());
    assert!(s.spectate.is_none());
    assert_eq!(s.game_match.as_deref(), Some("m"));
}

#[test]
fn buttons_map_one_to_one_preserving_order() {
    let mut d = empty_data();
    d.buttons = Some(vec![
        Button { label: "first".to_string(), url: "https://one".to_string() },
        Button { label: "second".to_string(), url: "https://two".to_string() },
    ]);
    let a = translate(&d);
    let bs = a.buttons.expect("buttons expected");
    assert_eq!(bs.len(), 2);
    assert_eq!(bs[0].label, "first");
    assert_eq!(bs[0].url, "https://one");
    assert_eq!(bs[1].label, "second");
    assert_eq!(bs[1].url, "https://two");
}
