use glimpse_shell::battery::optional_model;
use glimpse_shell::bluetooth_agent::{prompt_kind_name, BluetoothPromptKind};
use glimpse_shell::brightness::{empty_source, BrightnessSourceKind};
use glimpse_shell::compositor::Command as CompositorCommand;
use glimpse_shell::exec_protocol::{default_grid_span, default_true, Variant};
use glimpse_shell::mpris::{
    row_output_to_popover_output, shows_progress, Player, PlayerRowOutput, PopoverOutput,
};
use glimpse_shell::network::{wifi_status, WifiAccessPoint};
use glimpse_shell::network_agent::{
    get_secrets_after_keyring, get_secrets_after_prompt, get_secrets_start, keyring_lookup_uuid,
    keyring_secret_label, secrets_fallback, wifi_password_secret_map, ConnectionSettings,
    KeyringOutcome, KeyringSecretEntry, NetworkPromptReply, PasswordOutcome, SecretsStep, Setting,
    SettingEntry, SettingValue, WIFI_SECURITY_SETTING,
};
use glimpse_shell::network_sections::{is_visible_access_point, wifi_item_id};
use glimpse_shell::pager::{command_for_target, PagerTarget};
use glimpse_shell::calendar::grid_position;
use glimpse_shell::clipboard::{applet_visible, Config, State};

#[test]
fn pager_targets_map_to_compositor_commands() {
    assert_eq!(command_for_target(PagerTarget::Workspace(3)), Some(CompositorCommand::SetWorkspace(3)));
    assert_eq!(command_for_target(PagerTarget::Window(9)), Some(CompositorCommand::FocusWindow(9)));
    assert_eq!(command_for_target(PagerTarget::Placeholder), None);
}

#[test]
fn node_variants_name_their_classes() {
    assert_eq!(Variant::Normal.class_name(), None);
    assert_eq!(Variant::Danger.class_name(), Some("is-danger"));
    assert!(default_true());
    assert_eq!(default_grid_span(), 1);
}

#[test]
fn bluetooth_prompt_kinds_have_wire_names() {
    assert_eq!(prompt_kind_name(&BluetoothPromptKind::RequestPin), "request-pin");
    assert_eq!(prompt_kind_name(&BluetoothPromptKind::AuthorizePairing), "authorize-pairing");
}

#[test]
fn wifi_rows_use_path_strength_and_ssid() {
    let ap = WifiAccessPoint {
        path: "/ap/1".into(),
        ssid: "Home".into(),
        strength: 70,
        ..WifiAccessPoint::default()
    };
    assert_eq!(wifi_status(&ap), "70%");
    assert_eq!(wifi_item_id(&ap), "/ap/1");
    assert!(is_visible_access_point(&ap));
    let hidden = WifiAccessPoint { ssid: String::new(), ..ap };
    assert!(!is_visible_access_point(&hidden));
}

#[test]
fn battery_model_falls_back_to_a_dash() {
    assert_eq!(optional_model(String::new()), "\u{2014}");
    assert_eq!(optional_model("BAT0".into()), "BAT0");
}

fn connection(uuid: &str, ssid: Option<&str>) -> ConnectionSettings {
    let mut settings = vec![Setting {
        name: "connection".into(),
        entries: vec![
            SettingEntry { key: "uuid".into(), value: SettingValue::Text(uuid.into()) },
            SettingEntry { key: "id".into(), value: SettingValue::Text("Office".into()) },
        ],
    }];
    if let Some(ssid) = ssid {
        settings.push(Setting {
            name: "802-11-wireless".into(),
            entries: vec![SettingEntry {
                key: "ssid".into(),
                value: SettingValue::Bytes(ssid.as_bytes().to_vec()),
            }],
        });
    }
    ConnectionSettings { settings }
}

#[test]
fn keyring_lookups_need_a_uuid() {
    assert_eq!(keyring_lookup_uuid(&connection("abc", None)), Some("abc".to_string()));
    assert_eq!(keyring_lookup_uuid(&connection("", None)), None);
}

#[test]
fn keyring_labels_name_connection_and_key() {
    let entry = KeyringSecretEntry {
        uuid: "abc".into(),
        connection_label: "Home".into(),
        setting_name: WIFI_SECURITY_SETTING,
        setting_key: "psk",
        secret: "secret".into(),
    };
    assert_eq!(keyring_secret_label(&entry), "Network secret for Home: 802-11-wireless-security.psk");
}

#[test]
fn secrets_fall_back_to_a_prompt_only_for_interactive_wifi_requests() {
    let home = connection("abc", Some("Home"));
    assert_eq!(secrets_fallback(&home, "/c/1", WIFI_SECURITY_SETTING, 1), Some("Home".to_string()));
    assert_eq!(secrets_fallback(&home, "/c/1", WIFI_SECURITY_SETTING, 0), None);
    assert_eq!(secrets_fallback(&home, "/c/1", "802-1x", 1), None);
    let office = connection("abc", None);
    assert_eq!(secrets_fallback(&office, "/c/1", WIFI_SECURITY_SETTING, 2), Some("Office".to_string()));
}

#[test]
fn placeholder_brightness_source_is_unavailable() {
    let source = empty_source("backlight");
    assert_eq!(source.id, "backlight");
    assert_eq!(source.name, "Brightness");
    assert_eq!(source.kind, BrightnessSourceKind::BuiltInDisplay);
    assert_eq!(source.max, 100);
    assert!(source.primary);
    assert!(!source.available);
    assert!(!source.writable);
}

#[test]
fn player_rows_forward_their_outputs() {
    assert_eq!(
        row_output_to_popover_output(PlayerRowOutput::Raise { player_id: "vlc".into() }),
        PopoverOutput::Raise { player_id: "vlc".into() }
    );
    let player = Player {
        position: Some(10),
        length: Some(100),
        progress_visible: true,
        ..Player::default()
    };
    assert!(shows_progress(&player));
    assert!(!shows_progress(&Player { length: Some(0), ..player.clone() }));
    assert!(!shows_progress(&Player { position: None, ..player }));
}

#[test]
fn day_cells_fill_rows_of_seven() {
    assert_eq!(grid_position(0), (0, 0));
    assert_eq!(grid_position(9), (2, 1));
    assert_eq!(grid_position(41), (6, 5));
}

#[test]
fn clipboard_applet_shows_with_history_or_when_asked() {
    let empty = State { available: true, history: Vec::new() };
    assert!(!applet_visible(&empty, &Config::default()));
    let asked = Config { show_when_empty: true, ..Config::default() };
    assert!(applet_visible(&empty, &asked));
    let gone = State { available: false, history: Vec::new() };
    assert!(!applet_visible(&gone, &asked));
}

#[test]
fn get_secrets_looks_in_the_keyring_first() {
    let home = connection("abc", Some("Home"));
    assert_eq!(
        get_secrets_start(&home, "/c/1", WIFI_SECURITY_SETTING, 1),
        SecretsStep::LookupKeyring { uuid: "abc".into() }
    );
    let nameless = connection("", Some("Home"));
    assert_eq!(
        get_secrets_start(&nameless, "/c/1", WIFI_SECURITY_SETTING, 1),
        SecretsStep::PromptPassword { label: "Home".into() }
    );
    assert_eq!(
        get_secrets_start(&nameless, "/c/1", "802-1x", 1),
        SecretsStep::Answer { secrets: ConnectionSettings { settings: Vec::new() } }
    );
}

#[test]
fn get_secrets_answers_from_the_keyring_or_falls_back() {
    let home = connection("abc", Some("Home"));
    let stored = wifi_password_secret_map("hunter2");
    assert_eq!(
        get_secrets_after_keyring(&home, "/c/1", WIFI_SECURITY_SETTING, 1, KeyringOutcome::Found(stored.clone())),
        SecretsStep::Answer { secrets: stored }
    );
    let empty = ConnectionSettings { settings: Vec::new() };
    assert_eq!(
        get_secrets_after_keyring(&home, "/c/1", WIFI_SECURITY_SETTING, 1, KeyringOutcome::Found(empty.clone())),
        SecretsStep::PromptPassword { label: "Home".into() }
    );
    assert_eq!(
        get_secrets_after_keyring(&home, "/c/1", WIFI_SECURITY_SETTING, 0, KeyringOutcome::Failed),
        SecretsStep::Answer { secrets: empty }
    );
}

#[test]
fn get_secrets_maps_the_prompt_reply() {
    assert_eq!(
        get_secrets_after_prompt(PasswordOutcome::Reply(NetworkPromptReply::Password("pw".into()))),
        SecretsStep::Answer { secrets: wifi_password_secret_map("pw") }
    );
    assert_eq!(
        get_secrets_after_prompt(PasswordOutcome::Reply(NetworkPromptReply::Cancel)),
        SecretsStep::Fail { message: "cancelled by user".into() }
    );
    assert_eq!(
        get_secrets_after_prompt(PasswordOutcome::Busy),
        SecretsStep::Fail { message: "a network prompt is already active".into() }
    );
    assert_eq!(
        get_secrets_after_prompt(PasswordOutcome::Closed),
        SecretsStep::Fail { message: "network prompt reply channel closed".into() }
    );
}
