use glimpse_shell::bluetooth_agent::{service_authorization_policy, ServiceAuthorizationPolicy};
use glimpse_shell::network_agent::{
    secret_item_attributes, secret_lookup_attributes, secrets_request_allows_interaction,
    NM_SECRET_AGENT_GET_SECRETS_FLAG_ALLOW_INTERACTION, NM_SECRET_AGENT_GET_SECRETS_FLAG_NONE,
    NM_SECRET_AGENT_GET_SECRETS_FLAG_REQUEST_NEW,
};

#[test]
fn service_authorization_policy_matches_gnome_trust_behavior() {
    assert_eq!(
        service_authorization_policy(true, false),
        ServiceAuthorizationPolicy::TrustAndAccept
    );
    assert_eq!(
        service_authorization_policy(true, true),
        ServiceAuthorizationPolicy::Accept
    );
    assert_eq!(
        service_authorization_policy(false, false),
        ServiceAuthorizationPolicy::Prompt
    );
    assert_eq!(
        service_authorization_policy(false, true),
        ServiceAuthorizationPolicy::Prompt
    );
}

#[test]
fn secret_lookup_attributes_match_network_manager_keyring_schema() {
    let attrs = secret_lookup_attributes("uuid-1", "802-11-wireless-security");

    assert_eq!(attrs.get("connection-uuid"), Some("uuid-1"));
    assert_eq!(attrs.get("setting-name"), Some("802-11-wireless-security"));
}

#[test]
fn secret_item_attributes_include_setting_key() {
    let attrs = secret_item_attributes("uuid-1", "802-11-wireless-security", "psk");

    assert_eq!(attrs.get("connection-uuid"), Some("uuid-1"));
    assert_eq!(attrs.get("setting-name"), Some("802-11-wireless-security"));
    assert_eq!(attrs.get("setting-key"), Some("psk"));
}

#[test]
fn request_new_flag_allows_interaction() {
    assert!(!secrets_request_allows_interaction(
        NM_SECRET_AGENT_GET_SECRETS_FLAG_NONE
    ));
    assert!(secrets_request_allows_interaction(
        NM_SECRET_AGENT_GET_SECRETS_FLAG_ALLOW_INTERACTION
    ));
    assert!(secrets_request_allows_interaction(
        NM_SECRET_AGENT_GET_SECRETS_FLAG_REQUEST_NEW
    ));
}

use glimpse_shell::bluetooth_agent::{
    BluetoothPromptKind, BluetoothPromptReply, PromptDelivery as BluetoothPromptDelivery,
    PromptRegistry as BluetoothPromptRegistry,
};
use glimpse_shell::network_agent::{
    connection_label, keyring_secret_entries, wifi_password_secret_map, ConnectionSettings,
    KeyringSecretEntry, NetworkPromptReply, PromptDelivery as NetworkPromptDelivery,
    PromptRegistry as NetworkPromptRegistry, Setting, SettingEntry, SettingValue,
};

fn owned_string(value: &str) -> SettingValue {
    SettingValue::Text(value.into())
}

fn owned_bytes(value: &[u8]) -> SettingValue {
    SettingValue::Bytes(value.to_vec())
}

fn setting(name: &str, entries: Vec<(&str, SettingValue)>) -> Setting {
    Setting {
        name: name.into(),
        entries: entries
            .into_iter()
            .map(|(key, value)| SettingEntry { key: key.into(), value })
            .collect(),
    }
}

#[test]
fn prompt_registry_publishes_display_prompt_state() {
    let mut registry = BluetoothPromptRegistry::new();

    let prompt_id = registry
        .publish_display_prompt(
            "/org/bluez/hci0/dev_AA_BB".into(),
            "Headphones".into(),
            BluetoothPromptKind::DisplayPasskey {
                passkey: 123_456,
                entered: 3,
            },
        )
        .expect("display prompt");

    assert_eq!(
        registry.current_prompt().map(|prompt| prompt.id),
        Some(prompt_id)
    );
    let outcome = registry.complete(prompt_id, BluetoothPromptReply::Cancel);
    assert!(outcome.done);
    assert_eq!(outcome.delivery, None);
}

#[test]
fn prompt_registry_updates_existing_display_prompt() {
    let mut registry = BluetoothPromptRegistry::new();

    let first_id = registry
        .publish_display_prompt(
            "/org/bluez/hci0/dev_AA_BB".into(),
            "Headphones".into(),
            BluetoothPromptKind::DisplayPasskey {
                passkey: 123_456,
                entered: 0,
            },
        )
        .expect("first display prompt");
    let second_id = registry
        .publish_display_prompt(
            "/org/bluez/hci0/dev_AA_BB".into(),
            "Headphones".into(),
            BluetoothPromptKind::DisplayPasskey {
                passkey: 123_456,
                entered: 3,
            },
        )
        .expect("updated display prompt");

    assert_eq!(first_id, second_id);
    assert_eq!(
        registry.current_prompt().map(|prompt| prompt.kind.clone()),
        Some(BluetoothPromptKind::DisplayPasskey {
            passkey: 123_456,
            entered: 3,
        })
    );
}

#[test]
fn wifi_password_secret_map_uses_wireless_security_psk_key() {
    let secrets = wifi_password_secret_map("secret");
    let security = secrets
        .settings
        .iter()
        .find(|setting| setting.name == "802-11-wireless-security")
        .expect("wireless security setting");
    let psk = security
        .entries
        .iter()
        .find(|entry| entry.key == "psk")
        .expect("psk secret");

    assert_eq!(psk.value, SettingValue::Text("secret".into()));
}

#[test]
fn connection_label_prefers_connection_id() {
    let connection = ConnectionSettings {
        settings: vec![setting("connection", vec![("id", owned_string("Office Wi-Fi"))])],
    };

    assert_eq!(
        connection_label(&connection, "/org/freedesktop/NetworkManager/Settings/1"),
        "Office Wi-Fi"
    );
}

#[test]
fn connection_label_prefers_wireless_ssid_over_connection_id() {
    let connection = ConnectionSettings {
        settings: vec![
            setting("connection", vec![("id", owned_string("Auto eth0"))]),
            setting("802-11-wireless", vec![("ssid", owned_bytes(b"Office Wi-Fi"))]),
        ],
    };

    assert_eq!(
        connection_label(&connection, "/org/freedesktop/NetworkManager/Settings/1"),
        "Office Wi-Fi"
    );
}

#[test]
fn keyring_secret_entries_extract_supported_wifi_psk() {
    let connection = ConnectionSettings {
        settings: vec![
            setting(
                "connection",
                vec![("uuid", owned_string("uuid-1")), ("id", owned_string("Office"))],
            ),
            setting("802-11-wireless-security", vec![("psk", owned_string("secret"))]),
        ],
    };

    assert_eq!(
        keyring_secret_entries(&connection),
        vec![KeyringSecretEntry {
            uuid: "uuid-1".into(),
            connection_label: "Office".into(),
            setting_name: "802-11-wireless-security",
            setting_key: "psk",
            secret: "secret".into(),
        }]
    );
}

#[test]
fn keyring_secret_entries_ignore_missing_uuid_or_secret() {
    assert!(keyring_secret_entries(&ConnectionSettings { settings: Vec::new() }).is_empty());

    let connection = ConnectionSettings {
        settings: vec![setting("connection", vec![("uuid", owned_string("uuid-1"))])],
    };

    assert!(keyring_secret_entries(&connection).is_empty());
}

#[test]
fn prompt_registry_rejects_concurrent_prompt() {
    let mut registry = NetworkPromptRegistry::new();

    registry
        .request_prompt("Office".into())
        .expect("first prompt should be accepted");

    assert!(registry.request_prompt("Guest".into()).is_none());
}

#[test]
fn prompt_registry_completes_matching_request() {
    let mut registry = BluetoothPromptRegistry::new();
    let prompt_id = registry
        .request_prompt(
            "/org/bluez/hci0/dev_AA_BB".into(),
            "Headphones".into(),
            BluetoothPromptKind::RequestPin,
        )
        .expect("prompt request");
    assert_eq!(registry.current_prompt().map(|prompt| prompt.id), Some(prompt_id));

    let outcome = registry.complete(prompt_id, BluetoothPromptReply::Pin("1234".into()));
    assert!(outcome.done);
    assert_eq!(
        outcome.delivery,
        Some(BluetoothPromptDelivery { id: prompt_id, reply: BluetoothPromptReply::Pin("1234".into()) })
    );
    assert!(registry.current_prompt().is_none());
    let again = registry.complete(prompt_id, BluetoothPromptReply::Confirm);
    assert!(!again.done);
    assert_eq!(again.delivery, None);
}

#[test]
fn bluetooth_cancel_answers_the_waiting_request() {
    let mut registry = BluetoothPromptRegistry::new();
    let prompt_id = registry
        .request_prompt("/dev/1".into(), "Mouse".into(), BluetoothPromptKind::AuthorizePairing)
        .expect("prompt request");
    let outcome = registry.cancel_current();
    assert!(outcome.done);
    assert_eq!(
        outcome.delivery,
        Some(BluetoothPromptDelivery { id: prompt_id, reply: BluetoothPromptReply::Cancel })
    );
    assert!(!registry.cancel_current().done);
}

#[test]
fn prompt_registry_completes_matching_prompt() {
    let mut registry = NetworkPromptRegistry::new();
    let id = registry.request_prompt("Office".into()).expect("prompt should be accepted");
    assert_eq!(registry.current_prompt().map(|prompt| prompt.ssid.as_str()), Some("Office"));
    assert_eq!(
        registry.complete(id, NetworkPromptReply::Password("secret".into())),
        Some(NetworkPromptDelivery { id, reply: NetworkPromptReply::Password("secret".into()) })
    );
    assert!(registry.current_prompt().is_none());
}

#[test]
fn network_cancel_answers_the_waiting_request() {
    let mut registry = NetworkPromptRegistry::new();
    let first = registry.request_prompt("Office".into()).unwrap();
    assert_eq!(
        registry.cancel_current(),
        Some(NetworkPromptDelivery { id: first, reply: NetworkPromptReply::Cancel })
    );
    assert_eq!(registry.cancel_current(), None);
    let second = registry.request_prompt("Guest".into()).unwrap();
    assert_eq!(second.0, first.0 + 1);
    assert_eq!(registry.complete(first, NetworkPromptReply::Cancel), None);
}
