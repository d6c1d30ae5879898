use led_strip_core::wifi_manager::{
    APIError, AccessPointInfo, StoredCredentials, TryConnectArgs, WifiCredentials, WifiManager,
    WifiState, WifiStatus,
};

fn creds(ssid: &str, pass: &str) -> WifiCredentials {
    WifiCredentials { ssid: ssid.to_string(), pass: pass.to_string(), channel: None }
}

#[test]
fn initial_state_without_stored_credentials_is_started() {
    let manager = WifiManager::new(None, false);
    assert!(matches!(manager.state, WifiState::Started(_)));
    assert!(matches!(manager.handle_get_status(), WifiStatus::Started));
}

#[test]
fn initial_state_with_stored_credentials_attaches_on_success() {
    let manager = WifiManager::new(Some(creds("home", "secret")), true);
    assert!(matches!(manager.state, WifiState::Connected(_)));
    match manager.handle_get_status() {
        WifiStatus::Connected { ssid } => assert_eq!(ssid, "home"),
        WifiStatus::Started => panic!("expected connected status"),
    }
}

#[test]
fn initial_state_with_stored_credentials_falls_back_on_failure() {
    let manager = WifiManager::new(Some(creds("home", "secret")), false);
    assert!(matches!(manager.state, WifiState::Started(_)));
}

#[test]
fn failed_connect_leaves_started_and_store_untouched() {
    let mut manager = WifiManager::new(None, false);
    let mut store: Option<StoredCredentials> = None;
    let args = TryConnectArgs { creds: creds("nope", "wrong"), store_on_connect: false };
    let connected = manager.handle_try_connect(args, false, &mut store);
    assert!(!connected);
    assert!(matches!(manager.state, WifiState::Started(_)));
    assert!(store.is_none());
    assert!(matches!(manager.handle_get_status(), WifiStatus::Started));
}

#[test]
fn successful_connect_with_store_persists_exactly_those_credentials() {
    let mut manager = WifiManager::new(None, false);
    let mut store: Option<StoredCredentials> = None;
    let args = TryConnectArgs { creds: creds("home", "secret"), store_on_connect: true };
    let connected = manager.handle_try_connect(args, true, &mut store);
    assert!(connected);
    assert!(matches!(manager.state, WifiState::Connected(_)));
    let stored = store.expect("store should hold the connected credentials");
    assert_eq!(stored.ssid, "home");
    assert_eq!(stored.pass, "secret");
}

#[test]
fn successful_connect_without_store_keeps_store_unchanged() {
    let mut manager = WifiManager::new(None, false);
    let mut store = Some(StoredCredentials {
        ssid: "old".to_string(),
        pass: "old_pass".to_string(),
    });
    let args = TryConnectArgs { creds: creds("home", "secret"), store_on_connect: false };
    let connected = manager.handle_try_connect(args, true, &mut store);
    assert!(connected);
    let stored = store.expect("store should be unchanged");
    assert_eq!(stored.ssid, "old");
    assert_eq!(stored.pass, "old_pass");
}

#[test]
fn connect_from_connected_replaces_the_attachment() {
    let mut manager = WifiManager::new(Some(creds("first", "one")), true);
    let mut store: Option<StoredCredentials> = None;
    let args = TryConnectArgs { creds: creds("second", "two"), store_on_connect: false };
    let connected = manager.handle_try_connect(args, true, &mut store);
    assert!(connected);
    match manager.handle_get_status() {
        WifiStatus::Connected { ssid } => assert_eq!(ssid, "second"),
        WifiStatus::Started => panic!("expected connected status"),
    }
}

#[test]
fn disconnect_twice_reports_not_connected_on_the_second_call() {
    let mut manager = WifiManager::new(Some(creds("home", "secret")), true);
    assert_eq!(manager.handle_disconnect(), Ok(()));
    assert!(matches!(manager.state, WifiState::Started(_)));
    assert_eq!(manager.handle_disconnect(), Err(APIError::NotConnected));
    assert!(matches!(manager.state, WifiState::Started(_)));
}

#[test]
fn disconnect_while_started_is_rejected() {
    let mut manager = WifiManager::new(None, false);
    assert_eq!(manager.handle_disconnect(), Err(APIError::NotConnected));
}

#[test]
fn status_matches_the_credentials_used_to_connect() {
    let mut manager = WifiManager::new(None, false);
    let mut store: Option<StoredCredentials> = None;
    let args = TryConnectArgs { creds: creds("attic", "hunter2"), store_on_connect: false };
    manager.handle_try_connect(args, true, &mut store);
    match manager.handle_get_status() {
        WifiStatus::Connected { ssid } => assert_eq!(ssid, "attic"),
        WifiStatus::Started => panic!("expected connected status"),
    }
}

#[test]
fn save_credentials_requires_attachment() {
    let manager = WifiManager::new(None, false);
    let mut store: Option<StoredCredentials> = None;
    assert_eq!(manager.handle_save_credentials(&mut store), Err(APIError::NotConnected));
    assert!(store.is_none());

    let manager = WifiManager::new(Some(creds("home", "secret")), true);
    assert_eq!(manager.handle_save_credentials(&mut store), Ok(()));
    let stored = store.expect("store should hold the current credentials");
    assert_eq!(stored.ssid, "home");
    assert_eq!(stored.pass, "secret");
}

#[test]
fn scan_reply_passes_the_found_networks_through() {
    let manager = WifiManager::new(None, false);
    let found = vec![
        AccessPointInfo { ssid: "a".to_string(), channel: 1, signal_strength: -40 },
        AccessPointInfo { ssid: "b".to_string(), channel: 6, signal_strength: -70 },
    ];
    let reply = manager.handle_scan(found);
    assert_eq!(reply.len(), 2);
    assert_eq!(reply[0].ssid, "a");
    assert_eq!(reply[1].channel, 6);
    assert!(matches!(manager.state, WifiState::Started(_)));
}

#[test]
fn load_store_erase_roundtrip() {
    let mut store: Option<StoredCredentials> = None;
    assert!(WifiCredentials::load(&store).is_none());

    creds("home", "secret").store(&mut store);
    let loaded = WifiCredentials::load(&store).expect("stored credentials should load");
    assert_eq!(loaded.ssid, "home");
    assert_eq!(loaded.pass, "secret");
    assert!(loaded.channel.is_none());

    WifiCredentials::erase(&mut store);
    assert!(store.is_none());
    assert!(WifiCredentials::load(&store).is_none());
}

#[test]
fn channel_hint_is_not_persisted() {
    let mut store: Option<StoredCredentials> = None;
    let with_channel =
        WifiCredentials { ssid: "home".to_string(), pass: "secret".to_string(), channel: Some(11) };
    with_channel.store(&mut store);
    let loaded = WifiCredentials::load(&store).unwrap();
    assert!(loaded.channel.is_none());
}

#[test]
fn api_error_message_names_the_condition() {
    assert_eq!(APIError::NotConnected.message(), "Wifi is not connected");
}
