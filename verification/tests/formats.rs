use glimpse_shell::battery::duration;
use glimpse_shell::bluetooth::{
    label as bluetooth_label, tooltip as bluetooth_tooltip, BluetoothActiveAction,
    BluetoothSnapshot, BluetoothStatus, State as BluetoothState,
};
use glimpse_shell::brightness::DEFAULT_LABEL_FORMAT as BRIGHTNESS_DEFAULT_LABEL_FORMAT;
use glimpse_shell::health::ServiceHealth;
use glimpse_shell::mpris::{
    label as mpris_label, PlaybackStatus, Player, Snapshot, State as MprisState,
    DEFAULT_LABEL_FORMAT as MPRIS_DEFAULT_LABEL_FORMAT,
};
use glimpse_shell::network::{
    label as network_label, tooltip as network_tooltip, wifi_icon, NetworkSnapshot,
    NetworkStatus, State as NetworkState, WifiAccessPoint,
};

#[test]
fn duration_formats_with_padded_minutes() {
    assert_eq!(duration(0), "");
    assert_eq!(duration(9 * 60), "9m");
    assert_eq!(duration(65 * 60), "1h 05m");
}

#[test]
fn formats_connected_device_placeholder() {
    let state = BluetoothState {
        snapshot: BluetoothSnapshot {
            status: BluetoothStatus {
                powered: true,
                discovering: false,
                connected_count: 2,
            },
            ..BluetoothSnapshot::default()
        },
        ..BluetoothState::default()
    };

    assert_eq!(bluetooth_label("{devices}", &state), "2");
    assert_eq!(
        bluetooth_tooltip("{devices} connected devices", &state),
        "2 connected devices"
    );
}

#[test]
fn formats_state_placeholder() {
    let mut state = BluetoothState {
        snapshot: BluetoothSnapshot {
            status: BluetoothStatus {
                powered: true,
                discovering: true,
                connected_count: 0,
            },
            ..BluetoothSnapshot::default()
        },
        ..BluetoothState::default()
    };

    state.health = ServiceHealth::Ready;
    assert_eq!(bluetooth_label("{state}", &state), "discovering");

    state.snapshot.status.discovering = false;
    assert_eq!(bluetooth_label("{state}", &state), "ready");

    state.snapshot.status.connected_count = 1;
    assert_eq!(bluetooth_label("{state}", &state), "connected");

    state.active_action = Some(BluetoothActiveAction::Connect {
        address: "AA:BB".into(),
    });
    assert_eq!(bluetooth_label("{state}", &state), "connecting");
}

#[test]
fn empty_templates_render_empty_text() {
    let state = BluetoothState::default();

    assert_eq!(bluetooth_label("", &state), "");
    assert_eq!(bluetooth_tooltip("", &state), "");
}

#[test]
fn format_default_label_is_empty() {
    assert_eq!(BRIGHTNESS_DEFAULT_LABEL_FORMAT, "");
}

fn player() -> Player {
    Player {
        player_id: "spotify".into(),
        identity: "Spotify".into(),
        playback_status: PlaybackStatus::Playing,
        title: "Says".into(),
        artist: "Nils Frahm".into(),
        album: "Spaces".into(),
        position: Some(192_000_000),
        length: Some(458_000_000),
        ..Default::default()
    }
}

#[test]
fn label_renders_placeholders() {
    let player = player();
    let state = MprisState {
        snapshot: Snapshot {
            current_player: Some(player.clone()),
            players: vec![player],
        },
    };

    assert_eq!(mpris_label("{artist} - {title}", &state), "Nils Frahm - Says");
    assert_eq!(mpris_label("{position}/{duration}", &state), "3:12/7:38");
}

#[test]
fn label_hides_empty_or_stopped_state() {
    let mut player = player();
    player.playback_status = PlaybackStatus::Stopped;
    let state = MprisState {
        snapshot: Snapshot {
            current_player: Some(player.clone()),
            players: vec![player],
        },
    };

    assert_eq!(mpris_label(MPRIS_DEFAULT_LABEL_FORMAT, &state), "");
}

#[test]
fn formats_state_and_connection_placeholders() {
    let state = NetworkState {
        snapshot: NetworkSnapshot {
            status: NetworkStatus {
                enabled: true,
                wifi_enabled: true,
                wifi_hw_enabled: true,
                primary_connection: "Home".into(),
                primary_type: "wifi".into(),
                speed: 866,
                ..NetworkStatus::default()
            },
            wifi_access_points: vec![WifiAccessPoint::default()],
            ..NetworkSnapshot::default()
        },
        health: ServiceHealth::Ready,
        ..NetworkState::default()
    };

    assert_eq!(network_label("{state}", &state), "connected");
    assert_eq!(
        network_tooltip("{network} {type} {wifi} {speed}", &state),
        "Home wifi 1 866 Mbps"
    );
}

#[test]
fn wifi_icon_tracks_strength() {
    assert_eq!(wifi_icon(0), "network-wireless-signal-none-symbolic");
    assert_eq!(wifi_icon(30), "network-wireless-signal-ok-symbolic");
    assert_eq!(wifi_icon(80), "network-wireless-signal-excellent-symbolic");
}
