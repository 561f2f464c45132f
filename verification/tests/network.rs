use glimpse_shell::device_list::DeviceListItem;
use glimpse_shell::health::ServiceHealth;
use glimpse_shell::network::{
    hero_subtitle, Command, NetworkActiveAction, NetworkDevice, NetworkSnapshot, NetworkStatus,
    SavedVpn, State, WifiAccessPoint,
};
use glimpse_shell::network_sections::{
    access_point_tooltip, build_vpn_items, build_wifi_items, build_wired_items,
    icon_name_for_state, mark_wifi_busy, optimistic_busy_id, primary_wifi_command,
};

fn access_point(ssid: &str, strength: u8, connected: bool, saved: bool) -> WifiAccessPoint {
    WifiAccessPoint {
        path: format!("/ap/{ssid}"),
        ssid: ssid.into(),
        strength,
        security: "wpa2".into(),
        connected,
        saved,
        uuid: if saved { Some(format!("uuid-{ssid}")) } else { None },
        ..WifiAccessPoint::default()
    }
}

fn no_frequencies(access_points: &[WifiAccessPoint]) -> Vec<String> {
    access_points.iter().map(|_| String::new()).collect()
}

#[test]
fn primary_wifi_command_matches_access_point_state() {
    assert_eq!(
        primary_wifi_command(&access_point("Home", 80, true, true)),
        Command::Disconnect { uuid: "uuid-Home".into() }
    );
    assert_eq!(
        primary_wifi_command(&access_point("Home", 80, false, true)),
        Command::ConnectSaved { uuid: "uuid-Home".into() }
    );
    assert_eq!(
        primary_wifi_command(&access_point("Cafe", 80, false, false)),
        Command::ConnectWifi { ssid: "Cafe".into(), path: "/ap/Cafe".into() }
    );
}

#[test]
fn wifi_items_use_signal_strength_as_status() {
    let aps = [access_point("Home", 72, true, true)];
    let items = build_wifi_items(&aps, None, &no_frequencies(&aps));

    assert_eq!(items[0].status, "72%");
    assert!(items[0].active);
}

#[test]
fn wifi_items_hide_signal_strength_for_inactive_rows() {
    let aps = [access_point("Cafe", 72, false, false)];
    let items = build_wifi_items(&aps, None, &no_frequencies(&aps));

    assert_eq!(items[0].status, "");
    assert!(!items[0].active);
}

#[test]
fn wifi_items_keep_access_point_paths_as_row_ids() {
    let mut first = access_point("Home", 72, false, true);
    first.path = "/ap/1".into();
    first.uuid = Some("home-profile".into());
    let mut second = access_point("Home", 68, false, true);
    second.path = "/ap/2".into();
    second.uuid = Some("home-profile".into());

    let aps = [first, second];
    let items = build_wifi_items(&aps, None, &no_frequencies(&aps));

    assert_eq!(items[0].id, "/ap/1");
    assert_eq!(items[1].id, "/ap/2");
}

#[test]
fn connecting_wifi_item_sets_busy_status_slot() {
    let aps = [access_point("Cafe", 40, false, false)];
    let items = build_wifi_items(
        &aps,
        Some(&NetworkActiveAction::ConnectWifi {
            ssid: "Cafe".into(),
            path: "/ap/Cafe".into(),
        }),
        &no_frequencies(&aps),
    );

    assert!(items[0].busy);
}

#[test]
fn wifi_items_skip_hidden_networks_and_describe_tooltips() {
    let mut open = access_point("Open", 50, false, false);
    open.security = "open".into();
    let mut fast = access_point("Fast", 90, false, true);
    fast.frequency = 5180;
    let hidden = access_point("", 30, false, false);
    let aps = [hidden, open, fast];
    let frequencies = vec![String::new(), String::new(), "5.2 GHz".to_string()];

    let items = build_wifi_items(&aps, None, &frequencies);

    assert_eq!(items.len(), 2);
    assert_eq!(items[0].tooltip.as_deref(), Some("50%"));
    assert_eq!(items[1].tooltip.as_deref(), Some("Saved - WPA2 - 5.2 GHz - 90%"));
    assert_eq!(
        access_point_tooltip(&access_point("Home", 70, true, true), ""),
        "Connected - WPA2 - 70%"
    );
}

#[test]
fn wifi_busy_marks_follow_row_or_profile() {
    assert_eq!(
        optimistic_busy_id(&Command::ConnectWifi { ssid: "Cafe".into(), path: "/ap/Cafe".into() }),
        Some("/ap/Cafe")
    );
    assert_eq!(optimistic_busy_id(&Command::ConnectSaved { uuid: "u".into() }), Some("u"));
    assert_eq!(optimistic_busy_id(&Command::RequestScan), None);

    let aps = [access_point("Home", 70, false, true), access_point("Cafe", 40, false, false)];
    let mut items: Vec<DeviceListItem<Command>> = build_wifi_items(&aps, None, &no_frequencies(&aps));
    assert!(mark_wifi_busy(&mut items, "uuid-Home"));
    assert!(items[0].busy);
    assert!(!items[1].busy);
    assert!(!mark_wifi_busy(&mut items, "uuid-Home"));
    assert!(mark_wifi_busy(&mut items, "/ap/Cafe"));
    assert!(!items[0].busy);
    assert!(items[1].busy);
}

#[test]
fn wired_devices_are_filtered_and_labeled() {
    let ethernet = NetworkDevice {
        path: "/dev/eth0".into(),
        interface: "eth0".into(),
        device_type: "ethernet".into(),
        state: "connected".into(),
        speed: 1000,
        ..NetworkDevice::default()
    };
    let wifi = NetworkDevice {
        path: "/dev/wlan0".into(),
        interface: "wlan0".into(),
        device_type: "wifi".into(),
        ..NetworkDevice::default()
    };

    let items = build_wired_items(&[wifi, ethernet]);

    assert_eq!(items.len(), 1);
    assert_eq!(items[0].label, "eth0");
    assert_eq!(items[0].status, "1000 Mbps");
    assert!(items[0].active);
}

#[test]
fn wired_rows_report_cable_and_driver() {
    let unplugged = NetworkDevice {
        interface: "eth1".into(),
        device_type: "ethernet".into(),
        state: "unavailable".into(),
        carrier: Some(true),
        driver: Some("e1000e".into()),
        ..NetworkDevice::default()
    };

    let items = build_wired_items(&[unplugged]);

    assert_eq!(items[0].id, "eth1");
    assert_eq!(items[0].status, "Cable connected");
    assert_eq!(items[0].tooltip.as_deref(), Some("eth1 - e1000e"));
    assert!(!items[0].active);
}

#[test]
fn vpn_items_toggle_active_connections() {
    let items = build_vpn_items(&[SavedVpn {
        id: "Work".into(),
        uuid: "vpn-1".into(),
        active: true,
    }]);

    assert_eq!(items[0].label, "Work");
    assert_eq!(items[0].checked, Some(true));
    assert_eq!(items[0].command, Command::Disconnect { uuid: "vpn-1".into() });
}

#[test]
fn hero_subtitle_prefers_health_then_activity_then_status() {
    let mut state = State {
        health: ServiceHealth::Ready,
        snapshot: NetworkSnapshot {
            status: NetworkStatus {
                enabled: true,
                wifi_enabled: true,
                wifi_hw_enabled: true,
                primary_connection: "Home".into(),
                ..NetworkStatus::default()
            },
            ..NetworkSnapshot::default()
        },
        ..State::default()
    };

    assert_eq!(hero_subtitle(&state), "Connected to Home");

    state.active_action = Some(NetworkActiveAction::SetWifiEnabled(false));
    assert_eq!(hero_subtitle(&state), "Turning Wi-Fi off");

    state.active_action = None;
    state.scanning = true;
    assert_eq!(hero_subtitle(&state), "Scanning");

    state.health = ServiceHealth::Reconnecting { attempt: 2 };
    assert_eq!(hero_subtitle(&state), "Reconnecting");
}

#[test]
fn network_popover_icon_falls_back_to_offline() {
    let mut state = State::default();
    assert_eq!(icon_name_for_state(&state), "network-offline-symbolic");
    state.snapshot.status.icon = "network-wired-symbolic".into();
    assert_eq!(icon_name_for_state(&state), "network-wired-symbolic");
}
