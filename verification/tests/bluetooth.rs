use glimpse_shell::bluetooth::{
    BluetoothActiveAction, BluetoothDevice, BluetoothSnapshot, BluetoothStatus, Command, State,
};
use glimpse_shell::bluetooth_popover::{
    build_device_items, device_name, device_tooltip, hero_subtitle_text, icon_name_for_state,
    looks_like_mac, mark_device_busy, optimistic_busy_address, primary_device_command,
    visible_devices,
};
use glimpse_shell::device_list::DeviceListItem;
use glimpse_shell::health::ServiceHealth;

fn device(address: &str, name: &str, connected: bool, paired: bool) -> BluetoothDevice {
    BluetoothDevice {
        path: format!("/org/bluez/hci0/dev_{}", address.replace(':', "_")),
        address: address.into(),
        alias: name.into(),
        name: name.into(),
        icon: String::new(),
        type_label: String::new(),
        paired,
        connected,
        trusted: false,
        battery: None,
        rssi: Some(-30),
        class: 0,
        appearance: 0,
        adapter: "/org/bluez/hci0".into(),
    }
}

fn state_with(devices: Vec<BluetoothDevice>, action: Option<BluetoothActiveAction>) -> State {
    State {
        health: ServiceHealth::Ready,
        snapshot: BluetoothSnapshot {
            status: BluetoothStatus::default(),
            devices,
        },
        active_action: action,
    }
}

#[test]
fn applet_icon_reflects_power_and_connection_state() {
    let mut state = State::default();
    assert_eq!(icon_name_for_state(&state), "bluetooth-disabled-symbolic");

    state.snapshot = BluetoothSnapshot {
        status: BluetoothStatus {
            powered: true,
            connected_count: 0,
            discovering: false,
        },
        ..BluetoothSnapshot::default()
    };
    assert_eq!(icon_name_for_state(&state), "bluetooth-symbolic");

    state.snapshot.status.connected_count = 1;
    assert_eq!(icon_name_for_state(&state), "bluetooth-active-symbolic");
}

#[test]
fn primary_device_command_matches_device_state() {
    assert_eq!(
        primary_device_command(&device("AA:BB", "Headphones", true, true)),
        Command::Disconnect { address: "AA:BB".into() }
    );
    assert_eq!(
        primary_device_command(&device("AA:BB", "Headphones", false, true)),
        Command::Connect { address: "AA:BB".into() }
    );
    assert_eq!(
        primary_device_command(&device("AA:BB", "Headphones", false, false)),
        Command::Pair { address: "AA:BB".into() }
    );
}

#[test]
fn popover_hero_subtitle_prefers_health_then_activity_then_status() {
    let mut state = State {
        health: ServiceHealth::Ready,
        snapshot: BluetoothSnapshot {
            status: BluetoothStatus {
                powered: true,
                discovering: true,
                connected_count: 0,
            },
            devices: vec![],
        },
        active_action: None,
    };

    assert_eq!(hero_subtitle_text(&state), "Discovering");

    state.active_action = Some(BluetoothActiveAction::SetPowered(false));
    assert_eq!(hero_subtitle_text(&state), "Turning Bluetooth off");

    state.health = ServiceHealth::Reconnecting { attempt: 2 };
    assert_eq!(hero_subtitle_text(&state), "Reconnecting");
}

#[test]
fn device_items_hide_raw_uninteresting_addresses() {
    let state = state_with(
        vec![
            device("AA:BB:CC:DD:EE:01", "AA:BB:CC:DD:EE:01", false, false),
            device("AA:BB:CC:DD:EE:02", "Mouse", false, false),
        ],
        None,
    );

    let items = build_device_items(&state);

    assert_eq!(items.len(), 1);
    assert_eq!(items[0].label, "Mouse");
}

#[test]
fn device_item_status_is_battery_percentage_when_available() {
    let mut mouse = device("AA:BB:CC:DD:EE:02", "Mouse", true, true);
    mouse.battery = Some(75);
    let state = state_with(vec![mouse], None);

    let items = build_device_items(&state);

    assert_eq!(items[0].status, "75%");
    assert!(!items[0].busy);
    assert!(items[0].active);
}

#[test]
fn connecting_device_item_sets_busy_status_slot() {
    let state = state_with(
        vec![device("AA:BB:CC:DD:EE:02", "Mouse", false, true)],
        Some(BluetoothActiveAction::Connect { address: "AA:BB:CC:DD:EE:02".into() }),
    );

    let items = build_device_items(&state);

    assert!(items[0].busy);
}

#[test]
fn pairing_device_item_sets_busy_status_slot() {
    let state = state_with(
        vec![device("AA:BB:CC:DD:EE:02", "Mouse", false, false)],
        Some(BluetoothActiveAction::Pair { address: "AA:BB:CC:DD:EE:02".into() }),
    );

    let items = build_device_items(&state);

    assert!(items[0].busy);
}

#[test]
fn optimistic_busy_marks_clicked_pair_or_connect_device() {
    assert_eq!(
        optimistic_busy_address(&Command::Pair { address: "AA:BB".into() }),
        Some("AA:BB")
    );
    assert_eq!(
        optimistic_busy_address(&Command::Connect { address: "AA:BB".into() }),
        Some("AA:BB")
    );
    assert_eq!(optimistic_busy_address(&Command::SetPowered(true)), None);

    let mut items = vec![
        DeviceListItem {
            id: "AA:BB".into(),
            icon: String::new(),
            label: "Headphones".into(),
            status: String::new(),
            busy: false,
            tooltip: None,
            active: false,
            visible: true,
            command: Some(Command::Pair { address: "AA:BB".into() }),
        },
        DeviceListItem {
            id: "CC:DD".into(),
            icon: String::new(),
            label: "Mouse".into(),
            status: String::new(),
            busy: true,
            tooltip: None,
            active: false,
            visible: true,
            command: Some(Command::Pair { address: "CC:DD".into() }),
        },
    ];

    assert!(mark_device_busy(&mut items, "AA:BB"));
    assert!(items[0].busy);
    assert!(!items[1].busy);
    assert!(!mark_device_busy(&mut items, "AA:BB"));
}

#[test]
fn visible_devices_sort_connected_paired_signal_then_name() {
    let mut near = device("00:00:00:00:00:03", "Zeta", false, false);
    near.rssi = Some(-20);
    let mut far = device("00:00:00:00:00:04", "Alpha", false, false);
    far.rssi = Some(-80);
    let snapshot = BluetoothSnapshot {
        status: BluetoothStatus::default(),
        devices: vec![
            far,
            near,
            device("00:00:00:00:00:02", "Beta", false, true),
            device("00:00:00:00:00:01", "Gamma", true, false),
            device("00:00:00:00:00:05", "Alpha", false, true),
        ],
    };

    let names: Vec<&str> = visible_devices(&snapshot)
        .iter()
        .map(|device| device.name.as_str())
        .collect();

    assert_eq!(names, vec!["Gamma", "Alpha", "Beta", "Zeta", "Alpha"]);
}

#[test]
fn mac_like_names_need_exactly_six_hex_pairs() {
    assert!(looks_like_mac(" AA:BB:CC:DD:EE:FF "));
    assert!(looks_like_mac("aa-bb-cc-dd-ee-ff"));
    assert!(!looks_like_mac("AA:BB:CC:DD:EE"));
    assert!(!looks_like_mac("AA:BB-CC:DD:EE:FF"));
    assert!(!looks_like_mac("GG:BB:CC:DD:EE:FF"));
    assert!(!looks_like_mac("AABBCCDDEEFF00000"));
}

#[test]
fn device_names_and_tooltips() {
    let mut headphones = device("AA:BB", "Headphones", true, true);
    headphones.type_label = "Headphones".into();
    let snapshot = BluetoothSnapshot {
        status: BluetoothStatus::default(),
        devices: vec![headphones.clone()],
    };

    assert_eq!(device_name(&snapshot, "AA:BB"), "Headphones");
    assert_eq!(device_name(&snapshot, "CC:DD"), "CC:DD");
    assert_eq!(device_tooltip(&headphones), "Headphones \u{b7} Connected");
    assert_eq!(device_tooltip(&device("EE:FF", "Speaker", false, false)), "Speaker");

    let state = State {
        health: ServiceHealth::Ready,
        snapshot,
        active_action: Some(BluetoothActiveAction::Trust {
            address: "AA:BB".into(),
            trusted: false,
        }),
    };
    assert_eq!(hero_subtitle_text(&state), "Untrusting Headphones");
}
