//! The dispatcher's decision function: which platform calls one update
//! causes, in which order.

use presence_bridge::dispatcher::{plan_set_activity, PlannedCall};
use presence_bridge::types::{Presence, PresenceData};

fn empty_data() -> PresenceData {
    PresenceData {
        state: None,
        details: None,
        start_timestamp: None,
        end_timestamp: None,
        large_image_key: None,
        large_image_text: None,
        small_image_key: None,
        small_image_text: None,
        instance: None,
        party_id: None,
        party_size: None,
        party_max: None,
        match_secret: None,
        spectate_secret: None,
        join_secret: None,
        buttons: None,
    }
}

fn update(id: &str, state: Option<&str>, hidden: Option<bool>) -> Presence {
    let mut data = empty_data();
    data.state = state.map(|s| s.to_string());
    Presence {
        client_id: id.to_string(),
        tray_title: String::new(),
        playback: true,
        presence_data: data,
        hidden,
        media_keys: None,
    }
}

fn count_connects(p: &[PlannedCall]) -> usize {
    p.iter().filter(|c| matches!(c, PlannedCall::Connect)).count()
}

#[test]
fn first_update_connects_exactly_once() {
    let u = update("123", Some("Playing"), None);
    let p1 = plan_set_activity(false, &u);
    assert_eq!(count_connects(&p1), 1);
    // After the first update registered the session, the same update plans
    // no further connect: one connect in total.
    let p2 = plan_set_activity(true, &u);
    assert_eq!(count_connects(&p2), 0);
}

#[test]
fn fresh_update_plans_connect_then_set_no_clear() {
    let u = update("123", Some("Playing"), None);
    let p = plan_set_activity(false, &u);
    assert_eq!(p.len(), 2);
    assert!(matches!(p[0], PlannedCall::Connect));
    match &p[1] {
        PlannedCall::SetActivity(a) => assert_eq!(a.state.as_deref(), Some("Playing")),
        _ => panic!("second call must be the set"),
    }
    assert!(!p.iter().any(|c| matches!(c, PlannedCall::Clear)));
}

#[test]
fn hidden_without_session_plans_nothing() {
    let u = update("123", Some("Playing"), Some(true));
    let p = plan_set_activity(false, &u);
    assert_eq!(p.len(), 0);
}

#[test]
fn hidden_with_session_and_no_fields_plans_one_clear() {
    let u = update("123", None, Some(true));
    let p = plan_set_activity(true, &u);
    assert_eq!(p.len(), 1);
    assert!(matches!(p[0], PlannedCall::Clear));
}

#[test]
fn hidden_with_only_instance_plans_one_clear() {
    // `instance` is ignored by the payload mapping, so it alone gives a
    // set call nothing to carry.
    let mut u = update("123", None, Some(true));
    u.presence_data.instance = Some(true);
    let p = plan_set_activity(true, &u);
    assert_eq!(p.len(), 1);
    assert!(matches!(p[0], PlannedCall::Clear));
}

#[test]
fn hidden_with_session_clears_before_set() {
    let u = update("123", Some("Playing"), Some(true));
    let p = plan_set_activity(true, &u);
    assert_eq!(p.len(), 2);
    assert!(matches!(p[0], PlannedCall::Clear));
    assert!(matches!(p[1], PlannedCall::SetActivity(_)));
}

#[test]
fn updates_for_one_identity_keep_arrival_order() {
    let u1 = update("123", Some("first"), None);
    let u2 = update("123", Some("second"), None);
    let mut trace: Vec<PlannedCall> = Vec::new();
    trace.extend(plan_set_activity(false, &u1));
    trace.extend(plan_set_activity(true, &u2));
    let states: Vec<&str> = trace
        .iter()
        .filter_map(|c| match c {
            PlannedCall::SetActivity(a) => a.state.as_deref(),
            _ => None,
        })
        .collect();
    assert_eq!(states, vec!["first", "second"]);
    assert!(matches!(trace[0], PlannedCall::Connect));
}

#[test]
fn explicit_not_hidden_sets_on_existing_session() {
    let u = update("123", Some("Playing"), Some(false));
    let p = plan_set_activity(true, &u);
    assert_eq!(p.len(), 1);
    assert!(matches!(p[0], PlannedCall::SetActivity(_)));
}
