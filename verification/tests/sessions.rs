//! The registry and the dispatcher against an unreachable platform: a
//! failed connect registers nothing and a hidden update for an unknown
//! identity touches nothing.

use presence_bridge::dispatcher::{
    dispatch, on_set_activity, DispatchResult, InboundEvent, OutboundEvent, SetActivityOutcome,
};
use presence_bridge::rpc_client::RpcClient;
use presence_bridge::rpc_client_manager::RpcClientManager;
use presence_bridge::settings::Settings;
use presence_bridge::types::{Presence, PresenceData};

fn update(id: &str, state: Option<&str>, hidden: Option<bool>) -> Presence {
    Presence {
        client_id: id.to_string(),
        tray_title: String::new(),
        playback: true,
        presence_data: PresenceData {
            state: state.map(|s| s.to_string()),
            details: None,
            start_timestamp: None,
            end_timestamp: None,
            large_image_key: None,
            large_image_text: None,
            small_image_key: None,
            small_image_text: None,
            instance: None,
            party_id: None,
            party_size: None,
            party_max: None,
            match_secret: None,
            spectate_secret: None,
            join_secret: None,
            buttons: None,
        },
        hidden,
        media_keys: None,
    }
}

#[test]
fn connect_fails_without_a_platform() {
    // No desktop platform runs here, so opening a session must fail and
    // must not panic.
    assert!(RpcClient::new("123".to_string(), 1).is_err());
}

#[test]
fn failed_connect_leaves_identity_unregistered() {
    let mut mgr = RpcClientManager::new(1);
    let id = "123".to_string();
    assert!(!mgr.has_client(&id));
    assert!(mgr.add_client(id.clone()).is_err());
    assert!(!mgr.has_client(&id));
    assert!(mgr.get_client(&id).is_none());
    assert_eq!(mgr.get_clients().len(), 0);
}

#[test]
fn fresh_update_reports_the_failed_connect() {
    let mut mgr = RpcClientManager::new(1);
    let u = update("123", Some("Playing"), None);
    match on_set_activity(&mut mgr, &u) {
        SetActivityOutcome::ConnectFailed(_) => {},
        _ => panic!("with no platform the connect must fail"),
    }
    assert!(!mgr.has_client(&"123".to_string()));
}

#[test]
fn hidden_update_for_unknown_identity_is_ignored() {
    let mut mgr = RpcClientManager::new(1);
    let u = update("123", None, Some(true));
    assert!(matches!(on_set_activity(&mut mgr, &u), SetActivityOutcome::Ignored));
    assert!(!mgr.has_client(&"123".to_string()));
}

#[test]
fn sweep_over_empty_registry_reports_nothing() {
    let mut mgr = RpcClientManager::new(1);
    let failures = mgr.clear_all_activities();
    assert!(failures.is_empty());
}

#[test]
fn version_request_is_answered() {
    let mut mgr = RpcClientManager::new(1);
    match dispatch(&mut mgr, "2.0.1", InboundEvent::GetVersion) {
        DispatchResult::Reply(OutboundEvent::ReceiveVersion(v)) => assert_eq!(v, "2.0.1"),
        _ => panic!("a version request must be answered with the version"),
    }
}

#[test]
fn settings_are_observed_only() {
    let mut mgr = RpcClientManager::new(1);
    let s = Settings { enabled: true, auto_launch: false, media_keys: true, title_menubar: false };
    assert!(matches!(
        dispatch(&mut mgr, "2.0.1", InboundEvent::SettingUpdate(s)),
        DispatchResult::Noted,
    ));
    assert_eq!(mgr.get_clients().len(), 0);
}

#[test]
fn selecting_local_presence_is_unsupported() {
    let mut mgr = RpcClientManager::new(1);
    assert!(matches!(
        dispatch(&mut mgr, "2.0.1", InboundEvent::SelectLocalPresence),
        DispatchResult::Unsupported,
    ));
}

#[test]
fn clear_event_sweeps_and_reports() {
    let mut mgr = RpcClientManager::new(1);
    match dispatch(&mut mgr, "2.0.1", InboundEvent::ClearActivity) {
        DispatchResult::Cleared(failures) => assert!(failures.is_empty()),
        _ => panic!("a clear event must run the sweep"),
    }
}
